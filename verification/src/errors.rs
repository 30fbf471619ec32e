//! The error taxonomy of the emergency-commit procedure.
//!
//! Every failure of a run is one of these values; none is retried, and the
//! first one encountered aborts the whole run.

use vstd::prelude::*;

verus! {

/// Why a run aborted.
#[derive(Clone, Copy, Debug, PartialEq, Eq, Structural)]
pub enum Error {
    /// The current branch has no remote configured under `branch.<name>.remote`.
    NoRemoteConfigured,
    /// No user identity (email) is configured.
    NoIdentityConfigured,
    /// The external tool's process could not be spawned or waited for.
    Process,
    /// Captured output was not valid UTF-8.
    Encoding,
    /// The system clock reports a time before the Unix epoch.
    Clock,
}

/// True of the errors that report missing external configuration.
pub open spec fn is_configuration_error(e: Error) -> bool {
    e == Error::NoRemoteConfigured || e == Error::NoIdentityConfigured
}

/// The description text of each error, as [`Error::describe`] returns it.
pub open spec fn error_text(e: Error) -> Seq<char> {
    match e {
        Error::NoRemoteConfigured => "No remote branch is configured"@,
        Error::NoIdentityConfigured => "No user email is configured"@,
        Error::Process => "Failed to run the git command"@,
        Error::Encoding => "The git command produced output that is not valid UTF-8"@,
        Error::Clock => "The system clock is set before the Unix epoch"@,
    }
}

impl Error {
    /// A human-readable description, shown to the operator on abort.
    pub fn describe(&self) -> (r: String)
        ensures
            r@ == error_text(*self),
            r@.len() > 0,
    {
        proof {
            reveal_strlit("No remote branch is configured");
            reveal_strlit("No user email is configured");
            reveal_strlit("Failed to run the git command");
            reveal_strlit("The git command produced output that is not valid UTF-8");
            reveal_strlit("The system clock is set before the Unix epoch");
        }
        match self {
            Error::NoRemoteConfigured => String::from_str("No remote branch is configured"),
            Error::NoIdentityConfigured => String::from_str("No user email is configured"),
            Error::Process => String::from_str("Failed to run the git command"),
            Error::Encoding => String::from_str("The git command produced output that is not valid UTF-8"),
            Error::Clock => String::from_str("The system clock is set before the Unix epoch"),
        }
    }
}

} // verus!
