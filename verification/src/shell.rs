use crate::registry::{
    commands, plugins, registered_commands, registered_plugins, Command, Plugin,
};
use crate::view::{slot_for, ViewError, MAIN_VIEW_INDEX};
use vstd::prelude::*;

verus! {

/// What a `Shell` stands for.
pub struct ShellView {
    /// The registered plugins, in registration order.
    pub plugins: Seq<Plugin>,
    /// The installed commands.
    pub commands: Seq<Command>,
    /// How many window descriptors the packaged configuration declares.
    pub slots: nat,
    /// The windows opened so far, oldest first, each by the slot of the
    /// descriptor it was built from.
    pub windows: Seq<usize>,
}

impl ShellView {
    /// The registration is the fixed one, and every window was built from the
    /// main view's slot, which is then a declared one.
    pub open spec fn valid(self) -> bool {
        &&& self.plugins == registered_plugins()
        &&& self.commands == registered_commands()
        &&& forall|i: int|
            0 <= i < self.windows.len() ==> #[trigger] self.windows[i] == MAIN_VIEW_INDEX
                && self.windows[i] < self.slots
    }

    /// The state right after startup, with `slots` descriptors declared.
    pub open spec fn initial(slots: nat) -> ShellView {
        ShellView {
            plugins: registered_plugins(),
            commands: registered_commands(),
            slots,
            windows: Seq::empty(),
        }
    }

    /// One invocation of the command. `built` says whether the host, asked to
    /// construct and show a window from the chosen slot, did so. Where the
    /// slot is missing the host is not asked, and `built` is not read.
    pub open spec fn invoke(self, built: bool) -> (ShellView, Result<(), ViewError>) {
        match slot_for(self.slots) {
            Err(e) => (self, Err(e)),
            Ok(slot) => if built {
                (ShellView { windows: self.windows.push(slot), ..self }, Ok(()))
            } else {
                (self, Err(ViewError::ConstructionFailed))
            },
        }
    }

    /// The state after a run of invocations, one for each entry of `builds`,
    /// oldest first; each entry is what the host reported to that invocation.
    pub open spec fn invoke_all(self, builds: Seq<bool>) -> ShellView
        decreases builds.len(),
    {
        if builds.len() == 0 {
            self
        } else {
            self.invoke_all(builds.drop_last()).invoke(builds.last()).0
        }
    }
}

/// How many entries of `builds` report a constructed window.
pub open spec fn built_count(builds: Seq<bool>) -> nat
    decreases builds.len(),
{
    if builds.len() == 0 {
        0
    } else {
        built_count(builds.drop_last()) + if builds.last() {
            1nat
        } else {
            0nat
        }
    }
}

/// The application context: made once at startup, then handed to every
/// invocation of a command.
#[derive(Debug)]
pub struct Shell {
    plugins: Vec<Plugin>,
    commands: Vec<Command>,
    slots: usize,
    windows: Vec<usize>,
}

impl View for Shell {
    type V = ShellView;

    closed spec fn view(&self) -> ShellView {
        ShellView {
            plugins: self.plugins@,
            commands: self.commands@,
            slots: self.slots as nat,
            windows: self.windows@,
        }
    }
}

impl Shell {
    /// Sets the shell up for a configuration that declares `slots` window
    /// descriptors: registers the plugins and the command, opens nothing.
    pub fn bootstrap(slots: usize) -> (r: Shell)
        ensures
            r@ == ShellView::initial(slots as nat),
            r@.valid(),
    {
        Shell { plugins: plugins(), commands: commands(), slots, windows: Vec::new() }
    }

    /// The registered plugins, in registration order.
    pub fn plugins(&self) -> (r: &[Plugin])
        ensures
            r@ == self@.plugins,
    {
        self.plugins.as_slice()
    }

    /// The installed commands.
    pub fn commands(&self) -> (r: &[Command])
        ensures
            r@ == self@.commands,
    {
        self.commands.as_slice()
    }

    /// How many window descriptors the configuration declares.
    pub fn slots(&self) -> (r: usize)
        ensures
            r == self@.slots,
    {
        self.slots
    }

    /// The windows opened so far, oldest first, each by the slot it was
    /// built from.
    pub fn windows(&self) -> (r: &[usize])
        ensures
            r@ == self@.windows,
    {
        self.windows.as_slice()
    }

    /// How many windows were opened so far.
    pub fn window_count(&self) -> (r: usize)
        ensures
            r == self@.windows.len(),
    {
        self.windows.len()
    }

    /// The slot from which the main view is to be built, or `NotFound` where
    /// the configuration declares none at `MAIN_VIEW_INDEX`.
    pub fn main_view_slot(&self) -> (r: Result<usize, ViewError>)
        ensures
            r == slot_for(self@.slots),
    {
        if self.slots > MAIN_VIEW_INDEX {
            Ok(MAIN_VIEW_INDEX)
        } else {
            Err(ViewError::NotFound)
        }
    }

    /// Concludes one invocation of the command. `built` reports whether the
    /// host constructed and showed the window from the slot that
    /// `main_view_slot` gave; it is not read where there is no such slot.
    pub fn create_main_view(&mut self, built: bool) -> (r: Result<(), ViewError>)
        ensures
            (final(self)@, r) == old(self)@.invoke(built),
            old(self)@.valid() ==> final(self)@.valid(),
    {
        if self.slots <= MAIN_VIEW_INDEX {
            return Err(ViewError::NotFound);
        }
        if !built {
            return Err(ViewError::ConstructionFailed);
        }
        self.windows.push(MAIN_VIEW_INDEX);
        Ok(())
    }
}

} // verus!
