//! The command-running capability the orchestrator drives.
//!
//! A [`CommandRunner`] executes the external version-control tool with a
//! fixed argument list in one of two modes: capture (wait, read standard
//! output, normalize it) or fire-and-forget (wait for completion only). The
//! trait carries a ghost history of every invocation together with its
//! reply, so the exact sequence of commands a run issues can be stated and
//! proved. [`ScriptedRunner`] is a verified in-memory implementation that
//! replays scripted outputs and records every invocation; the binary around
//! the library supplies the implementation that spawns real processes.

use vstd::prelude::*;
use vstd::string::StringExecFns;
use crate::errors::Error;

verus! {

/// One invocation of the external tool, as recorded in the ghost history:
/// the argument list handed to the tool and the reply the caller saw.
pub enum Call {
    /// Capture mode: the reply is the normalized output, or the error.
    Capture { args: Seq<Seq<char>>, reply: Result<Seq<char>, Error> },
    /// Fire-and-forget mode: only completion or failure is reported.
    Run { args: Seq<Seq<char>>, reply: Result<(), Error> },
}

/// The ghost reply recorded for a capture-mode invocation returning `r`.
pub open spec fn capture_reply(r: Result<String, Error>) -> Result<Seq<char>, Error> {
    match r {
        Result::Ok(s) => Result::Ok(s@),
        Result::Err(e) => Result::Err(e),
    }
}

/// Arguments of the query for the current branch name.
pub open spec fn current_branch_argv() -> Seq<Seq<char>> {
    seq!["branch"@, "--show-current"@]
}

/// Arguments of the query for the value of configuration key `key`.
pub open spec fn config_get_argv(key: Seq<char>) -> Seq<Seq<char>> {
    seq!["config"@, "--get"@, key]
}

/// The configuration key holding the remote of branch `b`.
pub open spec fn remote_key(b: Seq<char>) -> Seq<char> {
    "branch."@ + b + ".remote"@
}

/// Arguments of the query for the configured user identity.
pub open spec fn user_email_argv() -> Seq<Seq<char>> {
    config_get_argv("user.email"@)
}

/// Arguments of the machine-parseable working-copy status query.
pub open spec fn status_argv() -> Seq<Seq<char>> {
    seq!["status"@, "--porcelain"@]
}

/// Arguments of the query for the top-level working-copy directory.
pub open spec fn toplevel_argv() -> Seq<Seq<char>> {
    seq!["rev-parse"@, "--show-toplevel"@]
}

/// Arguments that create and switch to branch `name`.
pub open spec fn checkout_argv(name: Seq<char>) -> Seq<Seq<char>> {
    seq!["checkout"@, "-b"@, name]
}

/// Arguments that stage all changes repository-wide.
pub open spec fn add_argv() -> Seq<Seq<char>> {
    seq!["add"@, "--all"@]
}

/// Arguments that commit with message `m`, bypassing signing and hooks.
pub open spec fn commit_argv(m: Seq<char>) -> Seq<Seq<char>> {
    seq!["commit"@, "--no-gpg-sign"@, "--no-verify"@, "-m"@, m]
}

/// Arguments that push branch `name` to `remote`, setting its upstream.
pub open spec fn push_argv(name: Seq<char>, remote: Seq<char>) -> Seq<Seq<char>> {
    seq!["push"@, "-u"@, remote, name]
}

/// The capability to execute the external version-control tool.
///
/// `history()` is the ghost record of every invocation made through this
/// runner, oldest first; both methods append exactly the call they made.
pub trait CommandRunner: Sized {
    /// Every invocation made so far, with its reply.
    spec fn history(&self) -> Seq<Call>;

    /// Runs the tool with `args`, waits, and returns its normalized standard
    /// output; the tool's own exit status is not inspected.
    fn capture(&mut self, args: &Vec<String>) -> (r: Result<String, Error>)
        ensures
            final(self).history() == old(self).history().push(
                Call::Capture { args: args.deep_view(), reply: capture_reply(r) },
            ),
    ;

    /// Runs the tool with `args` and waits for completion; only spawn and
    /// wait failures are reported, not the tool's own exit status.
    fn run(&mut self, args: &Vec<String>) -> (r: Result<(), Error>)
        ensures
            final(self).history() == old(self).history().push(
                Call::Run { args: args.deep_view(), reply: r },
            ),
    ;
}

/// One invocation as recorded, runtime-visible, by [`ScriptedRunner`].
pub struct RecordedCall {
    /// True for a capture-mode invocation, false for fire-and-forget.
    pub capture: bool,
    /// The argument list the tool was invoked with.
    pub args: Vec<String>,
}

/// A [`CommandRunner`] that spawns nothing: capture-mode invocations replay
/// the scripted replies in order (an exhausted script replies with
/// [`Error::Process`]), fire-and-forget invocations always succeed, and
/// every invocation is recorded for inspection.
pub struct ScriptedRunner {
    /// The scripted replies not yet consumed, next first.
    pub script: Vec<Result<String, Error>>,
    /// Every invocation made so far, oldest first.
    pub recorded: Vec<RecordedCall>,
    /// The ghost history backing [`CommandRunner::history`].
    pub log: Ghost<Seq<Call>>,
}

impl ScriptedRunner {
    /// A fresh runner that will reply to capture-mode invocations with the
    /// entries of `script`, in order.
    pub fn new(script: Vec<Result<String, Error>>) -> (r: ScriptedRunner)
        ensures
            r.history() == Seq::<Call>::empty(),
            r.recorded@ == Seq::<RecordedCall>::empty(),
            r.script@ == script@,
    {
        let r = ScriptedRunner { script, recorded: Vec::new(), log: Ghost(Seq::empty()) };
        proof {
            assert(r.recorded@ =~= Seq::<RecordedCall>::empty());
        }
        r
    }

    /// How many scripted replies have not been consumed yet.
    pub fn remaining_replies(&self) -> (n: usize)
        ensures
            n == self.script@.len(),
    {
        self.script.len()
    }
}

impl CommandRunner for ScriptedRunner {
    open spec fn history(&self) -> Seq<Call> {
        self.log@
    }

    fn capture(&mut self, args: &Vec<String>) -> (r: Result<String, Error>)
        ensures
            old(self).script@.len() > 0 ==> (final(self).script@ == old(self).script@.skip(1)
                && r == old(self).script@[0]),
            old(self).script@.len() == 0 ==> (final(self).script@ == old(self).script@
                && r == Result::<String, Error>::Err(Error::Process)),
            final(self).recorded@.len() == old(self).recorded@.len() + 1,
            final(self).recorded@.take(old(self).recorded@.len() as int) == old(self).recorded@,
            final(self).recorded@.last().capture == true,
            final(self).recorded@.last().args.deep_view() == args.deep_view(),
    {
        let reply: Result<String, Error> = if self.script.len() > 0 {
            self.script.remove(0)
        } else {
            Err(Error::Process)
        };
        self.recorded.push(RecordedCall { capture: true, args: clone_args(args) });
        self.log = Ghost(
            self.log@.push(Call::Capture { args: args.deep_view(), reply: capture_reply(reply) }),
        );
        proof {
            assert(self.recorded@.take(old(self).recorded@.len() as int) =~= old(self).recorded@);
            if old(self).script@.len() > 0 {
                assert(self.script@ =~= old(self).script@.skip(1));
            }
        }
        reply
    }

    fn run(&mut self, args: &Vec<String>) -> (r: Result<(), Error>)
        ensures
            r == Result::<(), Error>::Ok(()),
            final(self).script@ == old(self).script@,
            final(self).recorded@.len() == old(self).recorded@.len() + 1,
            final(self).recorded@.take(old(self).recorded@.len() as int) == old(self).recorded@,
            final(self).recorded@.last().capture == false,
            final(self).recorded@.last().args.deep_view() == args.deep_view(),
    {
        self.recorded.push(RecordedCall { capture: false, args: clone_args(args) });
        self.log = Ghost(self.log@.push(Call::Run { args: args.deep_view(), reply: Ok(()) }));
        proof {
            assert(self.recorded@.take(old(self).recorded@.len() as int) =~= old(self).recorded@);
        }
        Ok(())
    }
}

fn clone_args(args: &Vec<String>) -> (r: Vec<String>)
    ensures
        r@ == args@,
{
    let r = args.clone();
    proof {
        assert forall|j: int| 0 <= j < args@.len() implies r@[j] == args@[j] by {
            assert(cloned(args[j], r[j]));
        }
        assert(r@ =~= args@);
    }
    r
}

pub(crate) fn argv2(a: &str, b: &str) -> (r: Vec<String>)
    ensures
        r.deep_view() == seq![a@, b@],
{
    let mut v: Vec<String> = Vec::new();
    v.push(String::from_str(a));
    v.push(String::from_str(b));
    proof {
        assert(v.deep_view() =~~= seq![a@, b@]);
    }
    v
}

pub(crate) fn argv3(a: &str, b: &str, c: &str) -> (r: Vec<String>)
    ensures
        r.deep_view() == seq![a@, b@, c@],
{
    let mut v: Vec<String> = Vec::new();
    v.push(String::from_str(a));
    v.push(String::from_str(b));
    v.push(String::from_str(c));
    proof {
        assert(v.deep_view() =~~= seq![a@, b@, c@]);
    }
    v
}

pub(crate) fn argv4(a: &str, b: &str, c: &str, d: &str) -> (r: Vec<String>)
    ensures
        r.deep_view() == seq![a@, b@, c@, d@],
{
    let mut v: Vec<String> = Vec::new();
    v.push(String::from_str(a));
    v.push(String::from_str(b));
    v.push(String::from_str(c));
    v.push(String::from_str(d));
    proof {
        assert(v.deep_view() =~~= seq![a@, b@, c@, d@]);
    }
    v
}

pub(crate) fn argv5(a: &str, b: &str, c: &str, d: &str, e: &str) -> (r: Vec<String>)
    ensures
        r.deep_view() == seq![a@, b@, c@, d@, e@],
{
    let mut v: Vec<String> = Vec::new();
    v.push(String::from_str(a));
    v.push(String::from_str(b));
    v.push(String::from_str(c));
    v.push(String::from_str(d));
    v.push(String::from_str(e));
    proof {
        assert(v.deep_view() =~~= seq![a@, b@, c@, d@, e@]);
    }
    v
}

} // verus!

