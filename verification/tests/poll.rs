use termprobe::poll::{
    poll_outcome, poll_read, select_call, to_timespec, OsError, PollOutcome, SelectCall,
    SelectReply, TimeSpec, Timeout, NANOS_PER_SEC, WATCH_SET_CAPACITY,
};

fn timeout(secs: u64, nanos: u32) -> Timeout {
    Timeout::new(secs, nanos).unwrap()
}

#[test]
fn timeout_keeps_its_parts() {
    let t = timeout(3, 250_000_000);
    assert_eq!(t.as_secs(), 3);
    assert_eq!(t.subsec_nanos(), 250_000_000);
}

#[test]
fn timeout_holds_less_than_a_second_of_nanoseconds() {
    assert!(Timeout::new(0, NANOS_PER_SEC - 1).is_some());
    assert!(Timeout::new(0, NANOS_PER_SEC).is_none());
    assert!(Timeout::new(7, u32::MAX).is_none());
    assert!(Timeout::new(u64::MAX, 0).is_some());
}

#[test]
fn quarter_second_is_not_rounded() {
    let ts = to_timespec(timeout(0, 250_000_000));
    assert_eq!(ts, TimeSpec { tv_sec: 0, tv_nsec: 250_000_000 });
}

#[test]
fn seconds_and_nanoseconds_are_kept_exactly() {
    assert_eq!(to_timespec(timeout(0, 0)), TimeSpec { tv_sec: 0, tv_nsec: 0 });
    assert_eq!(to_timespec(timeout(0, 1)), TimeSpec { tv_sec: 0, tv_nsec: 1 });
    assert_eq!(to_timespec(timeout(1, 999_999_999)), TimeSpec { tv_sec: 1, tv_nsec: 999_999_999 });
    assert_eq!(
        to_timespec(timeout(86_400, 123_456_789)),
        TimeSpec { tv_sec: 86_400, tv_nsec: 123_456_789 }
    );
    assert_eq!(
        to_timespec(timeout(i64::MAX as u64, 5)),
        TimeSpec { tv_sec: i64::MAX, tv_nsec: 5 }
    );
}

#[test]
fn seconds_beyond_the_signed_range_become_the_longest_wait() {
    assert_eq!(
        to_timespec(timeout(i64::MAX as u64 + 1, 7)),
        TimeSpec { tv_sec: i64::MAX, tv_nsec: 7 }
    );
    assert_eq!(to_timespec(timeout(u64::MAX, 0)), TimeSpec { tv_sec: i64::MAX, tv_nsec: 0 });
    assert_eq!(
        to_timespec(timeout(u64::MAX, 999_999_999)),
        TimeSpec { tv_sec: i64::MAX, tv_nsec: 999_999_999 }
    );
}

#[test]
fn poll_read_never_asks_for_a_negative_wait() {
    let mut seen: Option<SelectCall> = None;
    let outcome = poll_read(2, timeout(u64::MAX, 1), |call| {
        seen = Some(call);
        SelectReply { ret: 0, errno: 0, ready: false }
    });
    assert_eq!(outcome, Ok(PollOutcome::TimedOut));
    assert_eq!(
        seen,
        Some(SelectCall { nfds: 3, fd: 2, timeout: TimeSpec { tv_sec: i64::MAX, tv_nsec: 1 } })
    );
}

#[test]
fn select_call_watches_the_descriptor_alone() {
    let call = select_call(5, timeout(2, 500_000_000));
    assert_eq!(
        call,
        SelectCall { nfds: 6, fd: 5, timeout: TimeSpec { tv_sec: 2, tv_nsec: 500_000_000 } }
    );
    let first = select_call(0, timeout(0, 0));
    assert_eq!(first, SelectCall { nfds: 1, fd: 0, timeout: TimeSpec { tv_sec: 0, tv_nsec: 0 } });
    let last = select_call(WATCH_SET_CAPACITY - 1, timeout(0, 1));
    assert_eq!(last.nfds, WATCH_SET_CAPACITY);
    assert_eq!(last.fd, WATCH_SET_CAPACITY - 1);
}

#[test]
fn marked_descriptor_is_ready() {
    let reply = SelectReply { ret: 1, errno: 0, ready: true };
    assert_eq!(poll_outcome(reply), Ok(PollOutcome::Ready));
}

#[test]
fn unmarked_descriptor_has_timed_out() {
    assert_eq!(
        poll_outcome(SelectReply { ret: 0, errno: 0, ready: false }),
        Ok(PollOutcome::TimedOut)
    );
    assert_eq!(
        poll_outcome(SelectReply { ret: 1, errno: 0, ready: false }),
        Ok(PollOutcome::TimedOut)
    );
    assert_eq!(
        poll_outcome(SelectReply { ret: 0, errno: 4, ready: false }),
        Ok(PollOutcome::TimedOut)
    );
}

#[test]
fn failed_call_gives_the_error_number() {
    assert_eq!(
        poll_outcome(SelectReply { ret: -1, errno: 9, ready: false }),
        Err(OsError { code: 9 })
    );
    assert_eq!(
        poll_outcome(SelectReply { ret: -1, errno: 4, ready: true }),
        Err(OsError { code: 4 })
    );
    assert_eq!(
        poll_outcome(SelectReply { ret: -1, errno: 22, ready: false }),
        Err(OsError { code: 22 })
    );
}

#[test]
fn poll_read_hands_the_prepared_call_to_the_wait() {
    let mut seen: Option<SelectCall> = None;
    let outcome = poll_read(3, timeout(0, 250_000_000), |call| {
        seen = Some(call);
        SelectReply { ret: 1, errno: 0, ready: true }
    });
    assert_eq!(outcome, Ok(PollOutcome::Ready));
    assert_eq!(
        seen,
        Some(SelectCall { nfds: 4, fd: 3, timeout: TimeSpec { tv_sec: 0, tv_nsec: 250_000_000 } })
    );
}

#[test]
fn poll_read_reports_timeout_and_failure() {
    let timed_out = poll_read(0, timeout(1, 0), |_| SelectReply { ret: 0, errno: 0, ready: false });
    assert_eq!(timed_out, Ok(PollOutcome::TimedOut));
    let failed = poll_read(0, timeout(1, 0), |_| SelectReply { ret: -1, errno: 9, ready: false });
    assert_eq!(failed, Err(OsError { code: 9 }));
}

#[test]
fn poll_read_with_zero_timeout_asks_for_no_wait() {
    let outcome = poll_read(1, timeout(0, 0), |call| SelectReply {
        ret: 0,
        errno: 0,
        ready: call.timeout != TimeSpec { tv_sec: 0, tv_nsec: 0 },
    });
    assert_eq!(outcome, Ok(PollOutcome::TimedOut));
}
