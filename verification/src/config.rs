//! The run's configuration: a single immutable commit message.

use vstd::prelude::*;

verus! {

/// Structure holding the configuration.
///
/// It is built by the caller (command-line handling is outside this library)
/// and read-only for the whole run.
pub struct Config {
    /// The message used for the commit.
    pub commit_message: String,
}

impl Config {
    /// Creates a new `Config` carrying the given commit message.
    pub fn new(commit_message: String) -> (c: Config)
        ensures
            c.commit_message@ == commit_message@,
    {
        Config { commit_message }
    }
}

} // verus!
