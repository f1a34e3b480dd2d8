//! Error kinds the library reports.
use vstd::prelude::*;

verus! {

/// What went wrong in a call to the operating system or at start-up.
#[derive(Clone, Copy, Debug, PartialEq, Eq, Structural)]
pub enum PlatformError {
    /// The global key listener could not be installed.
    HookInstallFailure,
    /// A query about the foreground window or layout failed.
    OsQueryFailure,
    /// Synthetic input could not be sent.
    InjectionFailure,
    /// The configuration could not be read or is invalid.
    ConfigInvalid,
}

} // verus!
