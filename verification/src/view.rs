use vstd::prelude::*;

verus! {

/// Position, in the configured window list, of the descriptor that the main
/// view is built from.
pub const MAIN_VIEW_INDEX: usize = 1;

/// Why an invocation of the command opened no window.
#[derive(Clone, Copy, Debug, PartialEq, Eq, Structural)]
pub enum ViewError {
    /// The configured window list has no entry at `MAIN_VIEW_INDEX`.
    NotFound,
    /// The entry exists, but the host could not construct a window from it.
    ConstructionFailed,
}

/// The slot that the main view is built from when `slots` window descriptors
/// are configured: `MAIN_VIEW_INDEX` where the list reaches that far.
pub open spec fn slot_for(slots: nat) -> Result<usize, ViewError> {
    if slots > MAIN_VIEW_INDEX {
        Ok(MAIN_VIEW_INDEX)
    } else {
        Err(ViewError::NotFound)
    }
}

} // verus!
