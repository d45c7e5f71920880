//! Waiting for a descriptor to become readable, with a timeout, through the
//! system's `pselect`. The system call itself is made by the caller: this
//! module decides what is asked of it and what its answer means.

use vstd::prelude::*;

verus! {

/// The number of nanoseconds in a second.
pub const NANOS_PER_SEC: u32 = 1_000_000_000;

/// The number of descriptors that a watch set has room for. Only descriptors
/// below it can be waited on.
pub const WATCH_SET_CAPACITY: i32 = 1024;

/// How long to wait: whole seconds and the nanoseconds of the second begun,
/// always less than a second of them.
#[derive(Clone, Copy, Debug)]
pub struct Timeout {
    secs: u64,
    nanos: u32,
}

impl Timeout {
    #[verifier::type_invariant]
    spec fn well_formed(self) -> bool {
        self.nanos < NANOS_PER_SEC
    }

    /// The whole seconds of the timeout.
    pub closed spec fn secs(self) -> u64 {
        self.secs
    }

    /// The nanoseconds beyond the whole seconds.
    pub closed spec fn nanos(self) -> u32 {
        self.nanos
    }

    /// The timeout of `secs` seconds and `nanos` nanoseconds, or `None` where
    /// `nanos` is a second or more.
    pub fn new(secs: u64, nanos: u32) -> (timeout: Option<Timeout>)
        ensures
            timeout is Some <==> nanos < NANOS_PER_SEC,
            timeout is Some ==> timeout->0.secs() == secs && timeout->0.nanos() == nanos,
    {
        if nanos < NANOS_PER_SEC {
            Some(Timeout { secs, nanos })
        } else {
            None
        }
    }

    /// The whole seconds of the timeout.
    pub fn as_secs(&self) -> (secs: u64)
        ensures
            secs == self.secs(),
    {
        self.secs
    }

    /// The nanoseconds beyond the whole seconds.
    pub fn subsec_nanos(&self) -> (nanos: u32)
        ensures
            nanos == self.nanos(),
            nanos < NANOS_PER_SEC,
    {
        proof {
            use_type_invariant(self);
        }
        self.nanos
    }
}

/// A time interval as the system takes it.
#[derive(Clone, Copy, Debug, PartialEq, Eq, Structural)]
pub struct TimeSpec {
    /// Whole seconds.
    pub tv_sec: i64,
    /// Nanoseconds beyond the whole seconds.
    pub tv_nsec: i64,
}

/// A count of seconds as the interval's signed field holds it: itself where
/// it fits, else the largest count that the field can hold.
pub open spec fn seconds_field(secs: u64) -> i64 {
    if secs <= i64::MAX {
        secs as i64
    } else {
        i64::MAX
    }
}

/// The interval that stands for a timeout.
pub open spec fn timespec_of(timeout: Timeout) -> TimeSpec {
    TimeSpec { tv_sec: seconds_field(timeout.secs()), tv_nsec: timeout.nanos() as i64 }
}

/// Converts a timeout to the system's interval. Seconds and nanoseconds are
/// kept as they are: nothing is rounded. A count of seconds beyond the signed
/// field's range becomes the longest wait that the field can express; it is
/// never negative.
pub fn to_timespec(timeout: Timeout) -> (ts: TimeSpec)
    ensures
        ts == timespec_of(timeout),
        ts.tv_nsec == timeout.nanos(),
        0 <= ts.tv_nsec < NANOS_PER_SEC,
        0 <= ts.tv_sec,
        timeout.secs() <= i64::MAX ==> ts.tv_sec == timeout.secs(),
        timeout.secs() > i64::MAX ==> ts.tv_sec == i64::MAX,
{
    let secs: u64 = timeout.as_secs();
    let nanos: u32 = timeout.subsec_nanos();
    let tv_sec: i64 = if secs <= i64::MAX as u64 {
        secs as i64
    } else {
        i64::MAX
    };
    TimeSpec { tv_sec, tv_nsec: nanos as i64 }
}

/// How a wait ended.
#[derive(Clone, Copy, Debug, PartialEq, Eq, Structural)]
pub enum PollOutcome {
    /// The descriptor became readable before the timeout had passed.
    Ready,
    /// The timeout passed and nothing was there to read.
    TimedOut,
}

/// A failure of the system call, by the system's error number.
#[derive(Clone, Copy, Debug, PartialEq, Eq, Structural)]
pub struct OsError {
    /// The error number that the system set.
    pub code: i32,
}

/// What is asked of `pselect`: to watch one descriptor for reading, and
/// nothing else, for at most an interval.
#[derive(Clone, Copy, Debug, PartialEq, Eq, Structural)]
pub struct SelectCall {
    /// The number of descriptors to look at, counted from descriptor 0.
    pub nfds: i32,
    /// The one descriptor of the read set. The write set and the error set
    /// are absent, and no signal mask is given.
    pub fd: i32,
    /// How long to wait at most.
    pub timeout: TimeSpec,
}

impl SelectCall {
    /// The descriptors that the call watches for reading.
    pub open spec fn read_set(self) -> Set<int> {
        set![self.fd as int]
    }
}

/// What `pselect` answered.
#[derive(Clone, Copy, Debug, PartialEq, Eq, Structural)]
pub struct SelectReply {
    /// The value that the call returned.
    pub ret: i32,
    /// The system's error number after the call; it counts only where the
    /// call failed.
    pub errno: i32,
    /// Whether the descriptor is marked in the read set as the call left it.
    pub ready: bool,
}

/// Whether a watch set has room for the descriptor.
pub open spec fn watchable(fd: i32) -> bool {
    0 <= fd < WATCH_SET_CAPACITY
}

/// The call that waits for `fd`: it looks at the descriptors up to and
/// including `fd`, and watches `fd` alone.
pub open spec fn call_for(fd: i32, timeout: Timeout) -> SelectCall {
    SelectCall { nfds: (fd + 1) as i32, fd, timeout: timespec_of(timeout) }
}

/// What an answer means. The call failed where it returned -1. Where it did
/// not, the descriptor is ready only if the read set marks it: a call that
/// returns without it has timed out.
pub open spec fn outcome_of(reply: SelectReply) -> Result<PollOutcome, OsError> {
    if reply.ret == -1 {
        Err(OsError { code: reply.errno })
    } else if reply.ready {
        Ok(PollOutcome::Ready)
    } else {
        Ok(PollOutcome::TimedOut)
    }
}

/// Prepares the call that waits until `fd` is readable or `timeout` has
/// passed. A timeout of zero asks once and does not block.
pub fn select_call(fd: i32, timeout: Timeout) -> (call: SelectCall)
    requires
        watchable(fd),
    ensures
        call == call_for(fd, timeout),
        call.nfds == fd + 1,
        call.read_set() == set![fd as int],
        call.timeout == timespec_of(timeout),
{
    SelectCall { nfds: fd + 1, fd, timeout: to_timespec(timeout) }
}

/// Reads the answer of the call: the system's error where it failed, else
/// whether the descriptor is readable or the wait timed out. Nothing is tried
/// again, also not after an interruption.
pub fn poll_outcome(reply: SelectReply) -> (outcome: Result<PollOutcome, OsError>)
    ensures
        outcome == outcome_of(reply),
{
    if reply.ret == -1 {
        Err(OsError { code: reply.errno })
    } else if reply.ready {
        Ok(PollOutcome::Ready)
    } else {
        Ok(PollOutcome::TimedOut)
    }
}

/// Waits until `fd` is readable or `timeout` has passed. `wait` makes the
/// system call: it is called once, with `call_for(fd, timeout)`, and what it
/// answers decides the outcome.
pub fn poll_read<F: FnOnce(SelectCall) -> SelectReply>(
    fd: i32,
    timeout: Timeout,
    wait: F,
) -> (outcome: Result<PollOutcome, OsError>)
    requires
        watchable(fd),
        wait.requires((call_for(fd, timeout),)),
    ensures
        exists|reply: SelectReply| #[trigger]
            wait.ensures((call_for(fd, timeout),), reply) && outcome == outcome_of(reply),
{
    let call = select_call(fd, timeout);
    let reply = wait(call);
    poll_outcome(reply)
}

/// A wait never reports a descriptor ready that the read set does not mark,
/// and reports a timeout only where the call succeeded without it.
pub proof fn lemma_outcome_cases(reply: SelectReply)
    ensures
        outcome_of(reply) == Ok::<PollOutcome, OsError>(PollOutcome::Ready) <==> reply.ret != -1
            && reply.ready,
        outcome_of(reply) == Ok::<PollOutcome, OsError>(PollOutcome::TimedOut) <==> reply.ret != -1
            && !reply.ready,
        outcome_of(reply) is Err <==> reply.ret == -1,
{
}

} // verus!
