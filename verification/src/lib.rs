//! Rules of a small desktop shell: what it registers with its host at
//! startup, and how its one command opens the main view.
//!
//! The host (window system, plugin implementations, the bridge to the UI) is
//! not part of this crate. The crate decides; whoever embeds it performs what
//! was decided and reports back what the host answered.

pub mod laws;
pub mod registry;
pub mod shell;
pub mod view;

pub use crate::registry::{Command, Plugin};
pub use crate::shell::{built_count, Shell, ShellView};
pub use crate::view::{ViewError, MAIN_VIEW_INDEX};
