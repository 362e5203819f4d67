use crate::registry::{registered_commands, registered_plugins, Command};
use crate::shell::{built_count, ShellView};
use crate::view::{slot_for, ViewError, MAIN_VIEW_INDEX};
use vstd::prelude::*;

verus! {

/// Startup, whatever the configuration declares, leaves a valid state: each
/// plugin is registered once, the command is installed, and no window is open
/// yet.
pub proof fn lemma_startup_registers_all(slots: nat)
    ensures
        ShellView::initial(slots).valid(),
        ShellView::initial(slots).plugins.len() == 4,
        ShellView::initial(slots).plugins.no_duplicates(),
        ShellView::initial(slots).commands.contains(Command::CreateMainView),
        ShellView::initial(slots).windows.len() == 0,
{
    assert(registered_plugins().len() == 4);
    assert(registered_commands()[0] == Command::CreateMainView);
}

/// An invocation leaves a valid state valid, and never touches what startup
/// registered nor the number of declared descriptors.
pub proof fn lemma_invoke_keeps_valid(s: ShellView, built: bool)
    requires
        s.valid(),
    ensures
        s.invoke(built).0.valid(),
        s.invoke(built).0.plugins == s.plugins,
        s.invoke(built).0.commands == s.commands,
        s.invoke(built).0.slots == s.slots,
{
}

/// Where the configuration declares a descriptor at `MAIN_VIEW_INDEX` and the
/// host constructs the window, an invocation succeeds and opens exactly one
/// window more: the earlier windows stay as they were, and the new one,
/// built from that slot, comes last.
pub proof fn lemma_invocation_opens_one_window(s: ShellView)
    requires
        s.slots > MAIN_VIEW_INDEX,
    ensures
        s.invoke(true).1 == Ok::<(), ViewError>(()),
        s.invoke(true).0.windows == s.windows.push(MAIN_VIEW_INDEX),
        s.invoke(true).0.windows.len() == s.windows.len() + 1,
{
}

/// Where the configuration declares fewer than two descriptors, no slot is
/// chosen, and an invocation fails with `NotFound` and opens nothing,
/// whatever the host would have reported.
pub proof fn lemma_missing_slot_opens_nothing(s: ShellView, built: bool)
    requires
        s.slots < 2,
    ensures
        slot_for(s.slots) == Err::<usize, ViewError>(ViewError::NotFound),
        s.invoke(built) == (s, Err::<(), ViewError>(ViewError::NotFound)),
{
}

/// Where the host cannot construct the window, an invocation fails with
/// `ConstructionFailed` and opens nothing.
pub proof fn lemma_failed_construction_opens_nothing(s: ShellView)
    requires
        s.slots > MAIN_VIEW_INDEX,
    ensures
        s.invoke(false) == (s, Err::<(), ViewError>(ViewError::ConstructionFailed)),
{
}

/// Over a run of invocations, with a descriptor declared at
/// `MAIN_VIEW_INDEX`, the number of open windows grows by the number of
/// windows that the host constructed: none is reused, none is left out.
pub proof fn lemma_windows_count_builds(s: ShellView, builds: Seq<bool>)
    requires
        s.slots > MAIN_VIEW_INDEX,
    ensures
        s.invoke_all(builds).slots == s.slots,
        s.invoke_all(builds).windows.len() == s.windows.len() + built_count(builds),
    decreases builds.len(),
{
    if builds.len() > 0 {
        lemma_windows_count_builds(s, builds.drop_last());
    }
}

/// `n` invocations, each with its window constructed by the host, open `n`
/// windows, not fewer.
pub proof fn lemma_n_invocations_open_n_windows(s: ShellView, n: nat)
    requires
        s.slots > MAIN_VIEW_INDEX,
    ensures
        s.invoke_all(Seq::new(n, |i: int| true)).windows.len() == s.windows.len() + n,
{
    let builds = Seq::new(n, |i: int| true);
    lemma_all_built(builds);
    lemma_windows_count_builds(s, builds);
}

/// A run in which every window was constructed counts as many builds as it
/// has invocations.
proof fn lemma_all_built(builds: Seq<bool>)
    requires
        forall|i: int| 0 <= i < builds.len() ==> builds[i],
    ensures
        built_count(builds) == builds.len(),
    decreases builds.len(),
{
    if builds.len() > 0 {
        lemma_all_built(builds.drop_last());
    }
}

/// Without a descriptor at `MAIN_VIEW_INDEX`, no run of invocations changes
/// anything.
pub proof fn lemma_missing_slot_never_opens(s: ShellView, builds: Seq<bool>)
    requires
        s.slots < 2,
    ensures
        s.invoke_all(builds) == s,
    decreases builds.len(),
{
    if builds.len() > 0 {
        lemma_missing_slot_never_opens(s, builds.drop_last());
    }
}

} // verus!
