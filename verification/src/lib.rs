//! `git_eq` — an emergency "save everything now" procedure for a git working
//! copy: check out a uniquely named branch, commit any outstanding changes,
//! and push the result to the configured remote.
//!
//! The library holds the verified core: the orchestration of the external
//! version-control commands, the construction of the branch name, the
//! normalization of captured output, and the lock-file wait loop. The actual
//! spawning of the external tool is behind the [`runner::CommandRunner`]
//! trait, so the sequence of commands a run issues is part of its contract.

pub mod clock;
pub mod config;
pub mod errors;
pub mod file_watcher;
pub mod procedure;
pub mod runner;
pub mod text;

// The ghost sequence type, re-exported so that an unverified runner outside
// this crate can name the type of its own (never evaluated) history.
pub use vstd::seq::Seq;

pub use clock::{Clock, ScriptedClock, SystemClock};
pub use config::Config;
pub use errors::Error;
pub use file_watcher::{
    EventSource, FsEventSource, Notification, NotificationView, ScriptedEvents,
    lock_wait_decision, wait_for_removal, wait_outcome_ok, wait_until_deleted,
};
pub use procedure::{
    LockWaitReport, LockWaitingRunner, any_uncommited_changes, checkout, commit, current_branch,
    current_unix_epoch, earthquake_procedure, push, remote, user_email, wait_git_lock_released,
};
pub use runner::{Call, CommandRunner, RecordedCall, ScriptedRunner};
pub use text::{build_branch_name, read_git_info, trim_line_ending, u64_to_dec_string};
