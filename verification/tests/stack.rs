use conduit_proxy::stack::{timed_out, Buffer, Executor, InFlightLimit, MAX_IN_FLIGHT};

#[test]
fn default_cap_is_ten_thousand() {
    assert_eq!(MAX_IN_FLIGHT, 10_000);
}

#[test]
fn cap_plus_one_is_rejected_immediately() {
    let mut l = InFlightLimit::new(3);
    assert!(l.try_start());
    assert!(l.try_start());
    assert!(l.try_start());
    // The fourth concurrent request is rejected at once, without waiting on
    // any in-flight request's completion, and nothing changes.
    assert!(!l.try_start());
    assert_eq!(l.in_flight, 3);
    assert!(!l.try_start());
    // Once one in-flight request finishes, admission resumes.
    l.finish();
    assert!(l.try_start());
}

#[test]
fn zero_cap_admits_nothing() {
    let mut l = InFlightLimit::new(0);
    assert!(!l.try_start());
}

#[test]
fn timeout_fires_at_the_deadline() {
    assert!(!timed_out(100, 50, 149));
    assert!(timed_out(100, 50, 150));
    assert!(timed_out(100, 50, 151));
    // A clock reading before the start never times out.
    assert!(!timed_out(100, 50, 99));
    // Saturation: a deadline beyond the clock's range never fires.
    assert!(!timed_out(u64::MAX, u64::MAX, u64::MAX));
}

#[test]
fn buffer_construction_fails_without_an_executor_slot() {
    assert!(Buffer::new(&Executor { can_spawn: true }).is_ok());
    assert!(Buffer::new(&Executor { can_spawn: false }).is_err());
}

#[test]
fn buffer_serializes_callers_single_flight() {
    let mut b = Buffer::new(&Executor { can_spawn: true }).unwrap();
    assert!(b.try_acquire());
    // A second caller waits while one call drives the balancer.
    assert!(!b.try_acquire());
    b.release();
    assert!(b.try_acquire());
}
