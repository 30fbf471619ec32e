//! The orchestrator: the end-to-end emergency-commit procedure and the
//! queries and mutating commands it sequences.
//!
//! Every step drives the external tool through a [`CommandRunner`], so each
//! function's contract pins both its result and the exact invocation it
//! appends to the runner's history. The whole run is specified by
//! [`trace_ok`]: the suffix of history a run appends, together with the
//! clock readings it takes and its result, always satisfies it.

use vstd::prelude::*;
use vstd::string::StringExecFns;
use crate::clock::Clock;
use crate::config::Config;
use crate::errors::{Error, is_configuration_error};
use crate::file_watcher::{NotificationView, path_exists, wait_outcome_ok, wait_until_deleted};
use crate::runner::{
    Call, CommandRunner, add_argv, argv2, argv3, argv4, argv5, capture_reply, checkout_argv,
    commit_argv, config_get_argv, current_branch_argv, push_argv, remote_key, status_argv,
    toplevel_argv, user_email_argv,
};
use crate::text::{branch_name_chars, build_branch_name};

verus! {

/// Queries the name of the current branch. An empty name (detached state)
/// is a legal value, not an error.
pub fn current_branch<R: CommandRunner>(runner: &mut R) -> (r: Result<String, Error>)
    ensures
        final(runner).history() == old(runner).history().push(
            Call::Capture { args: current_branch_argv(), reply: capture_reply(r) },
        ),
{
    let args = argv2("branch", "--show-current");
    runner.capture(&args)
}

/// What the history entry of the remote query says about the result: empty
/// output is the missing-remote configuration error, anything else is the
/// remote's name.
pub open spec fn remote_step(c: Call, branch: Seq<char>, r: Result<String, Error>) -> bool {
    match c {
        Call::Capture { args, reply } => {
            &&& args == config_get_argv(remote_key(branch))
            &&& match reply {
                Result::Ok(s) => if s.len() == 0 {
                    r == Result::<String, Error>::Err(Error::NoRemoteConfigured)
                } else {
                    r matches Ok(out) && out@ == s
                },
                Result::Err(e) => r == Result::<String, Error>::Err(e),
            }
        },
        _ => false,
    }
}

/// Queries the remote configured for `branch_name` under
/// `branch.<name>.remote`; empty output means none is configured, which is
/// a hard error.
pub fn remote<R: CommandRunner>(runner: &mut R, branch_name: &String) -> (r: Result<
    String,
    Error,
>)
    ensures
        final(runner).history().len() == old(runner).history().len() + 1,
        final(runner).history().drop_last() == old(runner).history(),
        remote_step(final(runner).history().last(), branch_name@, r),
{
    let key = String::from_str("branch.").concat(branch_name.as_str()).concat(".remote");
    proof {
        assert(key@ =~= remote_key(branch_name@));
    }
    let args = argv3("config", "--get", key.as_str());
    proof {
        assert(args.deep_view() =~~= config_get_argv(remote_key(branch_name@)));
    }
    let out = runner.capture(&args);
    proof {
        assert(final(runner).history().drop_last() =~= old(runner).history());
    }
    match out {
        Ok(s) => {
            if s.as_str().is_empty() {
                Err(Error::NoRemoteConfigured)
            } else {
                Ok(s)
            }
        },
        Err(e) => Err(e),
    }
}

/// What the history entry of the identity query says about the result:
/// empty output is the missing-identity configuration error.
pub open spec fn user_email_step(c: Call, r: Result<String, Error>) -> bool {
    match c {
        Call::Capture { args, reply } => {
            &&& args == user_email_argv()
            &&& match reply {
                Result::Ok(s) => if s.len() == 0 {
                    r == Result::<String, Error>::Err(Error::NoIdentityConfigured)
                } else {
                    r matches Ok(out) && out@ == s
                },
                Result::Err(e) => r == Result::<String, Error>::Err(e),
            }
        },
        _ => false,
    }
}

/// Queries the configured user identity (email); an empty value is a hard
/// error.
pub fn user_email<R: CommandRunner>(runner: &mut R) -> (r: Result<String, Error>)
    ensures
        final(runner).history().len() == old(runner).history().len() + 1,
        final(runner).history().drop_last() == old(runner).history(),
        user_email_step(final(runner).history().last(), r),
{
    let args = argv3("config", "--get", "user.email");
    proof {
        assert(args.deep_view() =~~= user_email_argv());
    }
    let out = runner.capture(&args);
    proof {
        assert(final(runner).history().drop_last() =~= old(runner).history());
    }
    match out {
        Ok(s) => {
            if s.as_str().is_empty() {
                Err(Error::NoIdentityConfigured)
            } else {
                Ok(s)
            }
        },
        Err(e) => Err(e),
    }
}

/// What the history entry of the status query says about the result: there
/// are uncommitted changes exactly when the captured output is non-empty.
pub open spec fn status_step(c: Call, r: Result<bool, Error>) -> bool {
    match c {
        Call::Capture { args, reply } => {
            &&& args == status_argv()
            &&& match reply {
                Result::Ok(s) => r == Result::<bool, Error>::Ok(s.len() > 0),
                Result::Err(e) => r == Result::<bool, Error>::Err(e),
            }
        },
        _ => false,
    }
}

/// Whether the working copy has uncommitted changes: true exactly when the
/// machine-parseable status query captures non-empty output.
pub fn any_uncommited_changes<R: CommandRunner>(runner: &mut R) -> (r: Result<bool, Error>)
    ensures
        final(runner).history().len() == old(runner).history().len() + 1,
        final(runner).history().drop_last() == old(runner).history(),
        status_step(final(runner).history().last(), r),
{
    let args = argv2("status", "--porcelain");
    let out = runner.capture(&args);
    proof {
        assert(final(runner).history().drop_last() =~= old(runner).history());
    }
    match out {
        Ok(s) => Ok(!s.as_str().is_empty()),
        Err(e) => Err(e),
    }
}

/// Creates and switches to the new branch `branch_name`.
pub fn checkout<R: CommandRunner>(runner: &mut R, branch_name: &String) -> (r: Result<(), Error>)
    ensures
        final(runner).history() == old(runner).history().push(
            Call::Run { args: checkout_argv(branch_name@), reply: r },
        ),
{
    let args = argv3("checkout", "-b", branch_name.as_str());
    runner.run(&args)
}

/// Stages all changes repository-wide, even when the current directory is
/// not the root directory of the repository.
pub fn add<R: CommandRunner>(runner: &mut R) -> (r: Result<(), Error>)
    ensures
        final(runner).history() == old(runner).history().push(
            Call::Run { args: add_argv(), reply: r },
        ),
{
    let args = argv2("add", "--all");
    runner.run(&args)
}

/// Commits the staged changes with `message`, bypassing commit signing and
/// the pre-commit hook.
pub fn commit<R: CommandRunner>(runner: &mut R, message: &String) -> (r: Result<(), Error>)
    ensures
        final(runner).history() == old(runner).history().push(
            Call::Run { args: commit_argv(message@), reply: r },
        ),
{
    let args = argv5("commit", "--no-gpg-sign", "--no-verify", "-m", message.as_str());
    runner.run(&args)
}

/// Pushes `branch_name` to `remote_name`, establishing upstream tracking.
pub fn push<R: CommandRunner>(runner: &mut R, branch_name: &String, remote_name: &String) -> (r:
    Result<(), Error>)
    ensures
        final(runner).history() == old(runner).history().push(
            Call::Run { args: push_argv(branch_name@, remote_name@), reply: r },
        ),
{
    let args = argv4("push", "-u", remote_name.as_str(), branch_name.as_str());
    runner.run(&args)
}

/// Reads the current wall-clock time as seconds since the Unix epoch.
pub fn current_unix_epoch<C: Clock>(clock: &mut C) -> (r: Result<u64, Error>)
    ensures
        final(clock).readings() == old(clock).readings().push(r),
{
    clock.now()
}

/// The run ends with the push of `name` to `rem` at position `i`, and its
/// result is the push's reply.
pub open spec fn trace_push_at(
    name: Seq<char>,
    rem: Seq<char>,
    h: Seq<Call>,
    i: int,
    r: Result<(), Error>,
) -> bool {
    &&& h.len() == i + 1
    &&& match h[i] {
        Call::Run { args, reply } => args == push_argv(name, rem) && r == reply,
        _ => false,
    }
}

/// From the commit step on: commit with the configured message, then push.
pub open spec fn trace_commit(
    msg: Seq<char>,
    name: Seq<char>,
    rem: Seq<char>,
    h: Seq<Call>,
    r: Result<(), Error>,
) -> bool {
    &&& h.len() >= 7
    &&& match h[6] {
        Call::Run { args, reply } => {
            &&& args == commit_argv(msg)
            &&& match reply {
                Result::Err(e) => h.len() == 7 && r == Result::<(), Error>::Err(e),
                Result::Ok(u) => trace_push_at(name, rem, h, 7, r),
            }
        },
        _ => false,
    }
}

/// From the staging step on: stage everything, then commit, then push.
pub open spec fn trace_add(
    msg: Seq<char>,
    name: Seq<char>,
    rem: Seq<char>,
    h: Seq<Call>,
    r: Result<(), Error>,
) -> bool {
    &&& h.len() >= 6
    &&& match h[5] {
        Call::Run { args, reply } => {
            &&& args == add_argv()
            &&& match reply {
                Result::Err(e) => h.len() == 6 && r == Result::<(), Error>::Err(e),
                Result::Ok(u) => trace_commit(msg, name, rem, h, r),
            }
        },
        _ => false,
    }
}

/// From the status query on: empty output goes straight to the push,
/// non-empty output stages and commits first.
pub open spec fn trace_status(
    msg: Seq<char>,
    name: Seq<char>,
    rem: Seq<char>,
    h: Seq<Call>,
    r: Result<(), Error>,
) -> bool {
    &&& h.len() >= 5
    &&& match h[4] {
        Call::Capture { args, reply } => {
            &&& args == status_argv()
            &&& match reply {
                Result::Err(e) => h.len() == 5 && r == Result::<(), Error>::Err(e),
                Result::Ok(s) => if s.len() == 0 {
                    trace_push_at(name, rem, h, 5, r)
                } else {
                    trace_add(msg, name, rem, h, r)
                },
            }
        },
        _ => false,
    }
}

/// From the checkout step on: check out the new branch `name`, then query
/// the status.
pub open spec fn trace_checkout(
    msg: Seq<char>,
    name: Seq<char>,
    rem: Seq<char>,
    h: Seq<Call>,
    r: Result<(), Error>,
) -> bool {
    &&& h.len() >= 4
    &&& match h[3] {
        Call::Run { args, reply } => {
            &&& args == checkout_argv(name)
            &&& match reply {
                Result::Err(e) => h.len() == 4 && r == Result::<(), Error>::Err(e),
                Result::Ok(u) => trace_status(msg, name, rem, h, r),
            }
        },
        _ => false,
    }
}

/// From the clock reading on: exactly one reading is taken; a clock error
/// aborts before any mutating command, otherwise the branch name is fixed
/// and the checkout follows.
pub open spec fn trace_clock(
    msg: Seq<char>,
    times: Seq<Result<u64, Error>>,
    b: Seq<char>,
    rem: Seq<char>,
    email: Seq<char>,
    h: Seq<Call>,
    r: Result<(), Error>,
) -> bool {
    &&& times.len() == 1
    &&& match times[0] {
        Result::Err(e) => h.len() == 3 && r == Result::<(), Error>::Err(e),
        Result::Ok(t) => trace_checkout(msg, branch_name_chars(b, email, t), rem, h, r),
    }
}

/// From the identity query on: an empty identity is a configuration error
/// reported before any clock reading or mutating command.
pub open spec fn trace_identity(
    msg: Seq<char>,
    times: Seq<Result<u64, Error>>,
    b: Seq<char>,
    rem: Seq<char>,
    h: Seq<Call>,
    r: Result<(), Error>,
) -> bool {
    &&& h.len() >= 3
    &&& match h[2] {
        Call::Capture { args, reply } => {
            &&& args == user_email_argv()
            &&& match reply {
                Result::Err(e) => h.len() == 3 && times.len() == 0 && r == Result::<(),
                    Error,
                >::Err(e),
                Result::Ok(email) => if email.len() == 0 {
                    h.len() == 3 && times.len() == 0 && r == Result::<(), Error>::Err(
                        Error::NoIdentityConfigured,
                    )
                } else {
                    trace_clock(msg, times, b, rem, email, h, r)
                },
            }
        },
        _ => false,
    }
}

/// From the remote query on: an empty remote mapping is a configuration
/// error reported before any clock reading or mutating command.
pub open spec fn trace_remote(
    msg: Seq<char>,
    times: Seq<Result<u64, Error>>,
    b: Seq<char>,
    h: Seq<Call>,
    r: Result<(), Error>,
) -> bool {
    &&& h.len() >= 2
    &&& match h[1] {
        Call::Capture { args, reply } => {
            &&& args == config_get_argv(remote_key(b))
            &&& match reply {
                Result::Err(e) => h.len() == 2 && times.len() == 0 && r == Result::<(),
                    Error,
                >::Err(e),
                Result::Ok(rem) => if rem.len() == 0 {
                    h.len() == 2 && times.len() == 0 && r == Result::<(), Error>::Err(
                        Error::NoRemoteConfigured,
                    )
                } else {
                    trace_identity(msg, times, b, rem, h, r)
                },
            }
        },
        _ => false,
    }
}

/// The full specification of one run: `h` is the sequence of invocations the
/// run appended to the runner's history, `times` the clock readings it took,
/// `msg` the configured commit message and `r` its result. The steps appear
/// in the fixed order branch query, remote query, identity query, clock,
/// checkout, status query, (staging, commit,) push; the first failure ends
/// the trace and is the run's result, and no step runs after it.
pub open spec fn trace_ok(
    msg: Seq<char>,
    times: Seq<Result<u64, Error>>,
    h: Seq<Call>,
    r: Result<(), Error>,
) -> bool {
    &&& h.len() >= 1
    &&& match h[0] {
        Call::Capture { args, reply } => {
            &&& args == current_branch_argv()
            &&& match reply {
                Result::Err(e) => h.len() == 1 && times.len() == 0 && r == Result::<(),
                    Error,
                >::Err(e),
                Result::Ok(b) => trace_remote(msg, times, b, h, r),
            }
        },
        _ => false,
    }
}

/// What the history entry of the top-level query says about the result of
/// the lock wait: only the query itself can fail, never the wait.
pub open spec fn toplevel_step(c: Call, r: Result<(), Error>) -> bool {
    match c {
        Call::Capture { args, reply } => {
            &&& args == toplevel_argv()
            &&& match reply {
                Result::Ok(s) => r == Result::<(), Error>::Ok(()),
                Result::Err(e) => r == Result::<(), Error>::Err(e),
            }
        },
        _ => false,
    }
}

/// What one lock wait did, as [`wait_git_lock_released`] reports it.
pub enum LockWaitReport {
    /// The top-level query failed; nothing was examined or waited on.
    QueryFailed,
    /// The lock file at `lock_path` was not seen, so no wait ran.
    LockAbsent { lock_path: Seq<char> },
    /// The lock file at `lock_path` was seen, and the wait on it ran;
    /// `outcome` reports it as [`wait_outcome_ok`] describes.
    LockWaited { lock_path: Seq<char>, outcome: Option<Seq<NotificationView>> },
}

/// What the history entry of the top-level query says about the lock-wait
/// report: the path examined (and, when it was seen, waited on) is exactly
/// the captured root followed by `/.git/index.lock`.
pub open spec fn lock_report_ok(c: Call, rep: LockWaitReport) -> bool {
    match c {
        Call::Capture { args: _, reply } => match reply {
            Result::Err(e) => rep is QueryFailed,
            Result::Ok(root) => {
                let lp = root + "/.git/index.lock"@;
                match rep {
                    LockWaitReport::QueryFailed => false,
                    LockWaitReport::LockAbsent { lock_path } => lock_path == lp,
                    LockWaitReport::LockWaited { lock_path, outcome } => lock_path == lp
                        && wait_outcome_ok(lock_path, outcome),
                }
            },
        },
        _ => false,
    }
}

/// Best-effort wait for the external tool's own lock, used before every
/// mutating command: queries the top-level working-copy directory, and if
/// `<top-level>/.git/index.lock` is seen to exist, blocks until it
/// disappears. Absence of the lock is observed, not guaranteed to persist.
/// The ghost report says which path was examined and whether, and how, the
/// wait ran.
pub fn wait_git_lock_released<R: CommandRunner>(runner: &mut R) -> (r: (
    Result<(), Error>,
    Ghost<LockWaitReport>,
))
    ensures
        final(runner).history().len() == old(runner).history().len() + 1,
        final(runner).history().drop_last() == old(runner).history(),
        toplevel_step(final(runner).history().last(), r.0),
        lock_report_ok(final(runner).history().last(), r.1@),
{
    let args = argv2("rev-parse", "--show-toplevel");
    let out = runner.capture(&args);
    proof {
        assert(final(runner).history().drop_last() =~= old(runner).history());
    }
    match out {
        Ok(root) => {
            let lock_path = root.concat("/.git/index.lock");
            if path_exists(&lock_path) {
                let waited = wait_until_deleted(&lock_path);
                (
                    Ok(()),
                    Ghost(
                        LockWaitReport::LockWaited { lock_path: lock_path@, outcome: waited@ },
                    ),
                )
            } else {
                (Ok(()), Ghost(LockWaitReport::LockAbsent { lock_path: lock_path@ }))
            }
        },
        Err(e) => (Err(e), Ghost(LockWaitReport::QueryFailed)),
    }
}

/// A [`CommandRunner`] that adds the lock-contention discipline to an
/// inner runner: every fire-and-forget command is preceded by the
/// best-effort lock wait on the inner runner, and a failed wait query
/// aborts the command without invoking it. Its own history carries the
/// invocations its caller made; the inner history shows the top-level
/// query standing immediately before every mutating command, which is the
/// discipline's statement.
pub struct LockWaitingRunner<R: CommandRunner> {
    /// The runner that performs the actual invocations.
    pub inner: R,
    /// The ghost history backing [`CommandRunner::history`].
    pub log: Ghost<Seq<Call>>,
}

impl<R: CommandRunner> LockWaitingRunner<R> {
    /// Wraps `inner`, starting with an empty history of its own.
    pub fn new(inner: R) -> (r: LockWaitingRunner<R>)
        ensures
            r.history() == Seq::<Call>::empty(),
            r.inner == inner,
    {
        LockWaitingRunner { inner, log: Ghost(Seq::empty()) }
    }
}

impl<R: CommandRunner> CommandRunner for LockWaitingRunner<R> {
    open spec fn history(&self) -> Seq<Call> {
        self.log@
    }

    fn capture(&mut self, args: &Vec<String>) -> (r: Result<String, Error>)
        ensures
            final(self).inner.history() == old(self).inner.history().push(
                Call::Capture { args: args.deep_view(), reply: capture_reply(r) },
            ),
    {
        let r = self.inner.capture(args);
        self.log = Ghost(
            self.log@.push(Call::Capture { args: args.deep_view(), reply: capture_reply(r) }),
        );
        r
    }

    fn run(&mut self, args: &Vec<String>) -> (r: Result<(), Error>)
        ensures
            final(self).inner.history().len() == old(self).inner.history().len() + 1
                || final(self).inner.history().len() == old(self).inner.history().len() + 2,
            final(self).inner.history().take(old(self).inner.history().len() as int)
                == old(self).inner.history(),
            ({
                let q = final(self).inner.history()[old(self).inner.history().len() as int];
                q matches Call::Capture { args: qa, reply: _ } && qa == toplevel_argv()
            }),
            final(self).inner.history().len() == old(self).inner.history().len() + 1 ==> (
            r matches Err(_)),
            final(self).inner.history().len() == old(self).inner.history().len() + 2
                ==> final(self).inner.history().last() == (Call::Run {
                args: args.deep_view(),
                reply: r,
            }),
    {
        let ghost pre = self.inner.history();
        let waited = wait_git_lock_released(&mut self.inner);
        let r: Result<(), Error> = match waited.0 {
            Ok(u) => self.inner.run(args),
            Err(e) => Err(e),
        };
        proof {
            assert(self.inner.history().take(pre.len() as int) =~= pre);
        }
        self.log = Ghost(self.log@.push(Call::Run { args: args.deep_view(), reply: r }));
        r
    }
}

/// A history entry that invoked any mutating command (checkout, staging,
/// commit or push): exactly the fire-and-forget invocations.
pub open spec fn is_mutating(c: Call) -> bool {
    c is Run
}

/// A history entry that invoked the staging command.
pub open spec fn is_staging(c: Call) -> bool {
    match c {
        Call::Run { args, reply: _ } => args == add_argv(),
        _ => false,
    }
}

/// A history entry that invoked the commit command with message `msg`.
pub open spec fn is_commit_with(c: Call, msg: Seq<char>) -> bool {
    match c {
        Call::Run { args, reply: _ } => args == commit_argv(msg),
        _ => false,
    }
}

/// A history entry that invoked the commit command.
pub open spec fn is_commit(c: Call) -> bool {
    match c {
        Call::Run { args, reply: _ } => args.len() == 5 && args[0] == "commit"@,
        _ => false,
    }
}

/// A history entry that invoked the checkout command.
pub open spec fn is_checkout(c: Call) -> bool {
    match c {
        Call::Run { args, reply: _ } => args.len() == 3 && args[0] == "checkout"@,
        _ => false,
    }
}

/// A history entry that invoked the push command.
pub open spec fn is_push(c: Call) -> bool {
    match c {
        Call::Run { args, reply: _ } => args.len() == 4 && args[0] == "push"@,
        _ => false,
    }
}

/// Law: a run whose remote query captured empty output fails with the
/// missing-remote configuration error, and no mutating command is ever
/// invoked.
pub proof fn lemma_empty_remote_aborts(
    msg: Seq<char>,
    times: Seq<Result<u64, Error>>,
    h: Seq<Call>,
    r: Result<(), Error>,
)
    requires
        trace_ok(msg, times, h, r),
        h.len() >= 2,
        h[1] matches Call::Capture { args: _, reply: Result::Ok(s) } && s.len() == 0,
    ensures
        r == Result::<(), Error>::Err(Error::NoRemoteConfigured),
        is_configuration_error(Error::NoRemoteConfigured),
        forall|i: int| 0 <= i < h.len() ==> !is_mutating(#[trigger] h[i]),
{
    assert(h.len() == 2);
    assert(!is_mutating(h[0]));
    assert(!is_mutating(h[1]));
}

/// Law: a run whose identity query captured empty output fails with the
/// missing-identity configuration error, and no mutating command is ever
/// invoked.
pub proof fn lemma_empty_identity_aborts(
    msg: Seq<char>,
    times: Seq<Result<u64, Error>>,
    h: Seq<Call>,
    r: Result<(), Error>,
)
    requires
        trace_ok(msg, times, h, r),
        h.len() >= 3,
        h[2] matches Call::Capture { args: _, reply: Result::Ok(s) } && s.len() == 0,
    ensures
        r == Result::<(), Error>::Err(Error::NoIdentityConfigured),
        is_configuration_error(Error::NoIdentityConfigured),
        forall|i: int| 0 <= i < h.len() ==> !is_mutating(#[trigger] h[i]),
{
    assert(h.len() == 3);
    assert(!is_mutating(h[0]));
    assert(!is_mutating(h[1]));
    assert(!is_mutating(h[2]));
}

/// Law: a run whose status query captured empty output never stages and
/// never commits, but still checked out the new branch and still invoked
/// the push.
pub proof fn lemma_empty_status_skips_commit(
    msg: Seq<char>,
    times: Seq<Result<u64, Error>>,
    h: Seq<Call>,
    r: Result<(), Error>,
)
    requires
        trace_ok(msg, times, h, r),
        h.len() >= 5,
        h[4] matches Call::Capture { args: _, reply: Result::Ok(s) } && s.len() == 0,
    ensures
        h.len() == 6,
        is_checkout(h[3]),
        is_push(h[5]),
        forall|i: int|
            0 <= i < h.len() ==> !is_staging(#[trigger] h[i]) && !is_commit(h[i]),
{
    assert(h.len() == 6);
    assert forall|i: int| 0 <= i < h.len() implies !is_staging(#[trigger] h[i]) && !is_commit(
        h[i],
    ) by {
        assert(h[0] is Capture);
        assert(h[1] is Capture);
        assert(h[2] is Capture);
        assert(h[4] is Capture);
        assert(add_argv().len() == 2);
        assert(match h[3] {
            Call::Run { args, reply: _ } => args.len() == 3,
            _ => false,
        });
        assert(match h[5] {
            Call::Run { args, reply: _ } => args.len() == 4,
            _ => false,
        });
    }
}

/// Law: a run whose status query captured non-empty output stages exactly
/// once, immediately after the status query; commits exactly once, with the
/// configured message, immediately after a successful staging; and pushes
/// only after a successful commit.
pub proof fn lemma_changes_stage_commit_push(
    msg: Seq<char>,
    times: Seq<Result<u64, Error>>,
    h: Seq<Call>,
    r: Result<(), Error>,
)
    requires
        trace_ok(msg, times, h, r),
        h.len() >= 5,
        h[4] matches Call::Capture { args: _, reply: Result::Ok(s) } && s.len() > 0,
    ensures
        6 <= h.len() <= 8,
        is_staging(h[5]),
        forall|i: int| 0 <= i < h.len() && i != 5 ==> !is_staging(#[trigger] h[i]),
        h.len() >= 7 ==> is_commit_with(h[6], msg),
        forall|i: int| 0 <= i < h.len() && i != 6 ==> !is_commit(#[trigger] h[i]),
        h.len() == 8 ==> is_push(h[7]),
{
    assert(is_staging(h[5]));
    assert forall|i: int| 0 <= i < h.len() && i != 5 implies !is_staging(#[trigger] h[i]) by {
        assert(h[0] is Capture);
        assert(h[1] is Capture);
        assert(h[2] is Capture);
        assert(h[4] is Capture);
        assert(add_argv().len() == 2);
        assert(match h[3] {
            Call::Run { args, reply: _ } => args.len() == 3,
            _ => false,
        });
        assert(h.len() >= 7 ==> match h[6] {
            Call::Run { args, reply: _ } => args.len() == 5,
            _ => false,
        });
        assert(h.len() == 8 ==> match h[7] {
            Call::Run { args, reply: _ } => args.len() == 4,
            _ => false,
        });
    }
    assert forall|i: int| 0 <= i < h.len() && i != 6 implies !is_commit(#[trigger] h[i]) by {
        assert(h[0] is Capture);
        assert(h[1] is Capture);
        assert(h[2] is Capture);
        assert(h[4] is Capture);
        assert(match h[3] {
            Call::Run { args, reply: _ } => args.len() == 3,
            _ => false,
        });
        assert(match h[5] {
            Call::Run { args, reply: _ } => args.len() == 2,
            _ => false,
        });
        assert(h.len() == 8 ==> match h[7] {
            Call::Run { args, reply: _ } => args.len() == 4,
            _ => false,
        });
    }
}

/// Runs the whole emergency procedure: queries the current branch, its
/// remote, the user identity and the time; checks out the emergency branch;
/// stages and commits exactly when the working copy has uncommitted
/// changes; and pushes the branch upstream. The first failure aborts the
/// run, with no compensating actions. The suffix the run appends to the
/// runner's history always satisfies [`trace_ok`].
#[verifier::rlimit(50)]
pub fn earthquake_procedure<R: CommandRunner, C: Clock>(
    config: Config,
    runner: &mut R,
    clock: &mut C,
) -> (r: Result<(), Error>)
    ensures
        old(runner).history().len() <= final(runner).history().len(),
        final(runner).history().take(old(runner).history().len() as int) == old(runner).history(),
        old(clock).readings().len() <= final(clock).readings().len(),
        final(clock).readings().take(old(clock).readings().len() as int) == old(clock).readings(),
        trace_ok(
            config.commit_message@,
            final(clock).readings().skip(old(clock).readings().len() as int),
            final(runner).history().skip(old(runner).history().len() as int),
            r,
        ),
{
    let ghost h0 = runner.history();
    let ghost t0 = clock.readings();
    proof {
        assert(t0.skip(t0.len() as int) =~= Seq::<Result<u64, Error>>::empty());
    }

    let out1 = current_branch(runner);
    let ghost c1 = Call::Capture { args: current_branch_argv(), reply: capture_reply(out1) };
    let ghost h1 = runner.history();
    proof {
        assert(h1 =~= h0 + seq![c1]);
        assert(h1.take(h0.len() as int) =~= h0);
        assert(h1.skip(h0.len() as int) =~= seq![c1]);
    }
    let b = match out1 {
        Ok(v) => v,
        Err(e) => {
            return Err(e);
        },
    };
    let ghost gb = b@;

    let out2 = remote(runner, &b);
    let ghost h2 = runner.history();
    let ghost c2 = h2.last();
    proof {
        assert(h2 =~= h1.push(c2));
        assert(h2 =~= h0 + seq![c1, c2]);
        assert(h2.take(h0.len() as int) =~= h0);
        assert(h2.skip(h0.len() as int) =~= seq![c1, c2]);
    }
    let rem = match out2 {
        Ok(v) => v,
        Err(e) => {
            return Err(e);
        },
    };
    let ghost grem = rem@;

    let out3 = user_email(runner);
    let ghost h3 = runner.history();
    let ghost c3 = h3.last();
    proof {
        assert(h3 =~= h2.push(c3));
        assert(h3 =~= h0 + seq![c1, c2, c3]);
        assert(h3.take(h0.len() as int) =~= h0);
        assert(h3.skip(h0.len() as int) =~= seq![c1, c2, c3]);
    }
    let email = match out3 {
        Ok(v) => v,
        Err(e) => {
            return Err(e);
        },
    };
    let ghost gemail = email@;

    let out_t = current_unix_epoch(clock);
    let ghost t1 = clock.readings();
    proof {
        assert(t1.take(t0.len() as int) =~= t0);
        assert(t1.skip(t0.len() as int) =~= seq![out_t]);
    }
    let t = match out_t {
        Ok(v) => v,
        Err(e) => {
            return Err(e);
        },
    };

    let name = build_branch_name(&b, &email, t);
    let ghost gname = name@;

    let out4 = checkout(runner, &name);
    let ghost c4 = Call::Run { args: checkout_argv(gname), reply: out4 };
    let ghost h4 = runner.history();
    proof {
        assert(h4 =~= h3.push(c4));
        assert(h4 =~= h0 + seq![c1, c2, c3, c4]);
        assert(h4.take(h0.len() as int) =~= h0);
        assert(h4.skip(h0.len() as int) =~= seq![c1, c2, c3, c4]);
    }
    match out4 {
        Ok(u) => (),
        Err(e) => {
            return Err(e);
        },
    };

    let out5 = any_uncommited_changes(runner);
    let ghost h5 = runner.history();
    let ghost c5 = h5.last();
    proof {
        assert(h5 =~= h4.push(c5));
        assert(h5 =~= h0 + seq![c1, c2, c3, c4, c5]);
        assert(h5.take(h0.len() as int) =~= h0);
        assert(h5.skip(h0.len() as int) =~= seq![c1, c2, c3, c4, c5]);
    }
    let changes = match out5 {
        Ok(v) => v,
        Err(e) => {
            return Err(e);
        },
    };

    if changes {
        let out6 = crate::procedure::add(runner);
        let ghost c6 = Call::Run { args: add_argv(), reply: out6 };
        let ghost h6 = runner.history();
        proof {
            assert(h6 =~= h5.push(c6));
            assert(h6 =~= h0 + seq![c1, c2, c3, c4, c5, c6]);
            assert(h6.take(h0.len() as int) =~= h0);
            assert(h6.skip(h0.len() as int) =~= seq![c1, c2, c3, c4, c5, c6]);
        }
        match out6 {
            Ok(u) => (),
            Err(e) => {
                return Err(e);
            },
        };

        let out7 = commit(runner, &config.commit_message);
        let ghost c7 = Call::Run { args: commit_argv(config.commit_message@), reply: out7 };
        let ghost h7 = runner.history();
        proof {
            assert(h7 =~= h6.push(c7));
            assert(h7 =~= h0 + seq![c1, c2, c3, c4, c5, c6, c7]);
            assert(h7.take(h0.len() as int) =~= h0);
            assert(h7.skip(h0.len() as int) =~= seq![c1, c2, c3, c4, c5, c6, c7]);
        }
        match out7 {
            Ok(u) => (),
            Err(e) => {
                return Err(e);
            },
        };

        let out8 = push(runner, &name, &rem);
        let ghost c8 = Call::Run { args: push_argv(gname, grem), reply: out8 };
        let ghost h8 = runner.history();
        proof {
            assert(h8 =~= h7.push(c8));
            assert(h8 =~= h0 + seq![c1, c2, c3, c4, c5, c6, c7, c8]);
            assert(h8.take(h0.len() as int) =~= h0);
            assert(h8.skip(h0.len() as int) =~= seq![c1, c2, c3, c4, c5, c6, c7, c8]);
        }
        out8
    } else {
        let out8 = push(runner, &name, &rem);
        let ghost c8 = Call::Run { args: push_argv(gname, grem), reply: out8 };
        let ghost h6 = runner.history();
        proof {
            assert(h6 =~= h5.push(c8));
            assert(h6 =~= h0 + seq![c1, c2, c3, c4, c5, c8]);
            assert(h6.take(h0.len() as int) =~= h0);
            assert(h6.skip(h0.len() as int) =~= seq![c1, c2, c3, c4, c5, c8]);
        }
        out8
    }
}

} // verus!

