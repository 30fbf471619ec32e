//! The wall-clock capability: the orchestrator reads the time once per run,
//! as seconds since the Unix epoch.

use vstd::prelude::*;
use crate::errors::Error;

verus! {

/// A source of the current time in whole seconds since the Unix epoch.
///
/// `readings()` is the ghost record of every reading taken through this
/// clock; `now` appends exactly the reading it returned.
pub trait Clock: Sized {
    /// Every reading taken so far, oldest first.
    spec fn readings(&self) -> Seq<Result<u64, Error>>;

    /// The current time, or [`Error::Clock`] if the system time lies before
    /// the Unix epoch.
    fn now(&mut self) -> (r: Result<u64, Error>)
        ensures
            final(self).readings() == old(self).readings().push(r),
    ;
}

/// A point in system time, opaque to the verifier.
#[verifier::external_type_specification]
#[verifier::external_body]
pub struct ExSystemTime(std::time::SystemTime);

/// Relies on `std::time::SystemTime::now` for the current system time;
/// nothing can be promised of the value.
#[verifier::external_body]
fn time_now() -> std::time::SystemTime {
    std::time::SystemTime::now()
}

/// Relies on `std::time::SystemTime::duration_since`, measured against
/// `UNIX_EPOCH`: it fails exactly when `t` lies before the epoch, and the
/// failure is reported as [`Error::Clock`].
#[verifier::external_body]
fn secs_since_epoch(t: std::time::SystemTime) -> (r: Result<u64, Error>)
    ensures
        r matches Err(e) ==> e == Error::Clock,
{
    match t.duration_since(std::time::SystemTime::UNIX_EPOCH) {
        Ok(d) => Ok(d.as_secs()),
        Err(_) => Err(Error::Clock),
    }
}

/// The real clock: reads `std::time::SystemTime`.
pub struct SystemClock {
    /// The ghost record backing [`Clock::readings`].
    pub log: Ghost<Seq<Result<u64, Error>>>,
}

impl SystemClock {
    /// A fresh system clock with an empty reading record.
    pub fn new() -> (c: SystemClock)
        ensures
            c.readings() == Seq::<Result<u64, Error>>::empty(),
    {
        SystemClock { log: Ghost(Seq::empty()) }
    }
}

impl Clock for SystemClock {
    open spec fn readings(&self) -> Seq<Result<u64, Error>> {
        self.log@
    }

    fn now(&mut self) -> (r: Result<u64, Error>)
        ensures
            r matches Err(e) ==> e == Error::Clock,
    {
        let r = secs_since_epoch(time_now());
        self.log = Ghost(self.log@.push(r));
        r
    }
}

/// A clock for driving the procedure without the real time: every reading
/// returns the same fixed reply.
pub struct ScriptedClock {
    /// The reply every reading returns.
    pub reply: Result<u64, Error>,
    /// The ghost record backing [`Clock::readings`].
    pub log: Ghost<Seq<Result<u64, Error>>>,
}

impl ScriptedClock {
    /// A clock whose readings all return `reply`.
    pub fn new(reply: Result<u64, Error>) -> (c: ScriptedClock)
        ensures
            c.readings() == Seq::<Result<u64, Error>>::empty(),
            c.reply == reply,
    {
        ScriptedClock { reply, log: Ghost(Seq::empty()) }
    }
}

impl Clock for ScriptedClock {
    open spec fn readings(&self) -> Seq<Result<u64, Error>> {
        self.log@
    }

    fn now(&mut self) -> (r: Result<u64, Error>)
        ensures
            r == old(self).reply,
            final(self).reply == old(self).reply,
    {
        let r = self.reply;
        self.log = Ghost(self.log@.push(r));
        r
    }
}

} // verus!
