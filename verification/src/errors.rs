//! The failure taxonomy of a backup run, and the message each failure
//! carries into the aggregated report.

use vstd::prelude::*;
use vstd::string::*;

verus! {

/// A failure in one step of a backup run.
///
/// Only a missing configuration variable is fatal; every other variant is
/// recorded as one task failure and the run continues.
#[derive(Debug, Clone, PartialEq, Eq)]
pub enum Error {
    /// A required configuration environment variable is missing; carries the
    /// variable's name. Fatal: the run is aborted before any task starts.
    ConfigMissing(String),
    /// The user's home directory could not be determined while resolving
    /// backup targets.
    HomeDirUnavailable,
    /// The external executable could not be located or started; carries the
    /// operating system's message.
    SpawnFailed(String),
    /// The child's standard-input pipe could not be obtained, or the input
    /// payload could not be written to it; carries the detail.
    StdinUnavailable(String),
    /// The child exited with a non-zero status under the checking failure
    /// policy; carries the captured standard-error text.
    CommandFailed(String),
    /// The nested subsystem's variable allow-list could not be read or
    /// updated; carries the detail.
    CredentialForwardFailure(String),
}

/// The human-readable message of a failure.
pub open spec fn spec_message(e: Error) -> Seq<char> {
    match e {
        Error::ConfigMissing(var) => "Env var not found: "@ + var@,
        Error::HomeDirUnavailable => "Failed to get home dir"@,
        Error::SpawnFailed(detail) => detail@,
        Error::StdinUnavailable(detail) => detail@,
        Error::CommandFailed(stderr) => stderr@,
        Error::CredentialForwardFailure(detail) => detail@,
    }
}

impl Error {
    /// Renders the message that this failure contributes to the report.
    pub fn message(&self) -> (r: String)
        ensures
            r@ == spec_message(*self),
    {
        match self {
            Error::ConfigMissing(var) => {
                let mut r = String::from_str("Env var not found: ");
                r.append(var.as_str());
                r
            },
            Error::HomeDirUnavailable => String::from_str("Failed to get home dir"),
            Error::SpawnFailed(detail) => detail.clone(),
            Error::StdinUnavailable(detail) => detail.clone(),
            Error::CommandFailed(stderr) => stderr.clone(),
            Error::CredentialForwardFailure(detail) => detail.clone(),
        }
    }
}

} // verus!
