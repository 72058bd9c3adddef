//! Error taxonomy of the update session and of installation discovery.

use vstd::prelude::*;

verus! {

/// `serde_json`'s error type, opaque to verification; produced by the
/// parsing and serialising wrappers in `jsonio` and carried inside
/// [`UpdateError::Json`].
#[verifier::external_type_specification]
#[verifier::external_body]
pub struct ExSerdeJsonError(serde_json::Error);

/// The standard library's I/O error type, opaque to verification; produced
/// only by the unverified shell and carried inside [`UpdateError::Io`].
#[verifier::external_type_specification]
#[verifier::external_body]
pub struct ExIoError(std::io::Error);

/// Everything that can go wrong during an update session.
#[derive(Debug)]
#[non_exhaustive]
pub enum UpdateError {
    /// A filesystem or process operation failed.
    Io(std::io::Error),
    /// A channel configuration file did not parse or serialise as JSON.
    Json(serde_json::Error),
    /// A channel document violates the expected schema: no object-valued
    /// `channel` field, or an `autoUpdate` value other than `true`.
    InvalidChannel,
    /// A running process could not be inspected when termination was
    /// attempted.
    CouldNotTerminate(String),
    /// The application was no longer running after an update cycle, though
    /// the protocol expects it to stay resident until explicitly stopped.
    PrematureExit,
    /// The monitor requested a redo on the retried attempt as well; the
    /// protocol guarantees at most one self-update per session.
    DoubleToolboxSelfUpdate,
    /// The application never emitted its startup marker within the startup
    /// timeout window.
    StartupFusAssistantTimeout,
    /// The startup marker was seen twice in one session.
    DoubleStartupFusAssistant,
    /// The log stream could not be followed.
    BadLog(String),
}

impl From<std::io::Error> for UpdateError {
    fn from(err: std::io::Error) -> UpdateError {
        UpdateError::Io(err)
    }
}

impl vstd::std_specs::convert::FromSpecImpl<std::io::Error> for UpdateError {
    open spec fn obeys_from_spec() -> bool {
        true
    }

    open spec fn from_spec(t: std::io::Error) -> Self {
        UpdateError::Io(t)
    }
}

impl From<serde_json::Error> for UpdateError {
    fn from(err: serde_json::Error) -> UpdateError {
        UpdateError::Json(err)
    }
}

impl vstd::std_specs::convert::FromSpecImpl<serde_json::Error> for UpdateError {
    open spec fn obeys_from_spec() -> bool {
        true
    }

    open spec fn from_spec(t: serde_json::Error) -> Self {
        UpdateError::Json(t)
    }
}

/// Everything that can go wrong while locating the installation.
#[derive(Debug, Clone)]
#[non_exhaustive]
pub enum FindError {
    /// No Toolbox directory exists under the local share directory.
    NotFound,
    /// The Toolbox directory exists but lacks the expected layout.
    InvalidInstallation,
    /// The home directory could not be determined.
    NoHomeDir,
    /// The running operating system is not supported.
    UnsupportedOS(String),
    /// The default binary is absent and no desktop file names one.
    NoDesktopFile(String),
    /// A matching desktop file exists but carries no `Exec` entry.
    DesktopFileMissingExec,
    /// Several matching desktop files disagree about the binary.
    MultipleMismatchingDesktopFiles(String),
}

} // verus!
