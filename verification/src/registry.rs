use vstd::prelude::*;

verus! {

/// A host subsystem that the shell registers at startup.
#[derive(Clone, Copy, Debug, PartialEq, Eq, Structural)]
pub enum Plugin {
    /// Persistent key-value store.
    Store,
    /// Native file dialogs.
    Dialog,
    /// Filesystem access.
    Fs,
    /// Opener of external URLs.
    Opener,
}

/// An operation that the UI layer can invoke through the host's bridge.
#[derive(Clone, Copy, Debug, PartialEq, Eq, Structural)]
pub enum Command {
    /// Opens the main view in a window of its own. Takes no parameters.
    CreateMainView,
}

/// The plugins of the shell, in the order in which they are registered.
pub open spec fn registered_plugins() -> Seq<Plugin> {
    seq![Plugin::Store, Plugin::Dialog, Plugin::Fs, Plugin::Opener]
}

/// The commands of the shell.
pub open spec fn registered_commands() -> Seq<Command> {
    seq![Command::CreateMainView]
}

/// The name under which the UI layer invokes `c`.
pub open spec fn command_name(c: Command) -> Seq<char> {
    match c {
        Command::CreateMainView => "create_main_view"@,
    }
}

impl Command {
    /// The name under which the UI layer invokes this command.
    pub fn name(self) -> (r: &'static str)
        ensures
            r@ == command_name(self),
    {
        match self {
            Command::CreateMainView => "create_main_view",
        }
    }
}

/// Builds the list of plugins to register, in registration order.
pub fn plugins() -> (r: Vec<Plugin>)
    ensures
        r@ == registered_plugins(),
{
    vec![Plugin::Store, Plugin::Dialog, Plugin::Fs, Plugin::Opener]
}

/// Builds the list of commands to install.
pub fn commands() -> (r: Vec<Command>)
    ensures
        r@ == registered_commands(),
{
    vec![Command::CreateMainView]
}

} // verus!
