//! Drives a JetBrains Toolbox installation through a full, non-interactive
//! update cycle: temporarily enables per-channel automatic updates, watches
//! the application's own log to decide when every pending update has
//! finished, then restores the configuration and the application's running
//! state.
//!
//! The verified core is the decision logic: the per-channel configuration
//! transforms, the log-driven update-completion state machine, and the
//! session protocol with its single bounded self-update retry. Filesystem
//! and process work is performed by a thin unverified shell that feeds plain
//! values into, and obeys actions handed out by, the functions of this
//! crate.

pub mod channels;
pub mod errors;
pub mod installation;
pub mod jsonio;
pub mod monitor;
pub mod process;
pub mod session;
pub mod textscan;

pub use errors::{FindError, UpdateError};
pub use installation::{find_jetbrains_toolbox, JetBrainsToolboxInstallation};
pub use session::update_jetbrains_toolbox;
