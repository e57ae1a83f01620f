use conduit_proxy::latency::{bucket_max_value, Histogram, Latency, NUM_BUCKETS};

fn expected_bounds() -> Vec<u32> {
    let mut v: Vec<u32> = Vec::new();
    for scale in [1u32, 10, 100, 1_000, 10_000] {
        for step in 1u32..=5 {
            v.push(step * scale);
        }
    }
    v.push(u32::MAX);
    v
}

#[test]
fn bucket_bounds_follow_linear_pattern() {
    let bounds = expected_bounds();
    assert_eq!(bounds.len(), NUM_BUCKETS);
    for (i, b) in bounds.iter().enumerate() {
        assert_eq!(bucket_max_value(i), *b);
    }
    // The fifth step of the thousands run is 5000, completing its linear run.
    assert_eq!(bucket_max_value(19), 5_000);
}

#[test]
fn new_histogram_is_empty() {
    let h = Histogram::new();
    let counts = h.counts();
    assert_eq!(counts.len(), NUM_BUCKETS);
    assert!(counts.iter().all(|c| *c == 0));
}

#[test]
fn default_histogram_is_empty() {
    let h: Histogram = Default::default();
    assert!(h.counts().iter().all(|c| *c == 0));
}

#[test]
fn observe_on_bound_is_inclusive() {
    // A measurement equal to a bucket's upper bound lands in exactly that
    // bucket, never the next one.
    let bounds = expected_bounds();
    for (i, b) in bounds.iter().enumerate() {
        let mut h = Histogram::new();
        h.observe(Latency(*b));
        let counts = h.counts();
        for (j, c) in counts.iter().enumerate() {
            assert_eq!(*c, if i == j { 1 } else { 0 }, "bound {} bucket {}", b, j);
        }
    }
}

#[test]
fn observe_just_above_bound_goes_to_next_bucket() {
    let mut h = Histogram::new();
    h.observe(Latency(6));
    let counts = h.counts();
    assert_eq!(counts[5], 1);
    assert_eq!(counts[4], 0);
}

#[test]
fn observe_max_value_lands_in_final_bucket() {
    let mut h = Histogram::new();
    h.observe(Latency(u32::MAX));
    assert_eq!(h.counts()[NUM_BUCKETS - 1], 1);
}

#[test]
fn observe_zero_lands_in_first_bucket() {
    let mut h = Histogram::new();
    h.observe(Latency(0));
    assert_eq!(h.counts()[0], 1);
}

#[test]
fn observe_accumulates() {
    let mut h = Histogram::new();
    h.observe(Latency(3));
    h.observe(Latency(3));
    h.observe(Latency(700));
    let counts = h.counts();
    assert_eq!(counts[2], 2);
    assert_eq!(counts[15], 1);
}

#[test]
fn duration_1500ms_is_latency_1500() {
    let l = Latency::from_parts(1, 500_000_000);
    assert_eq!(l.millis(), 1_500);
}

#[test]
fn duration_truncates_submillisecond_precision() {
    assert_eq!(Latency::from_parts(0, 1_999_999).millis(), 1);
    assert_eq!(Latency::from_parts(0, 999_999).millis(), 0);
}

#[test]
fn oversized_duration_saturates_never_fails() {
    assert_eq!(Latency::from_parts(u64::MAX, 0).millis(), u32::MAX);
    assert_eq!(Latency::from_parts(5_000_000, 0).millis(), u32::MAX);
    assert_eq!(Latency::from_parts(u32::MAX as u64, 0).millis(), u32::MAX);
}

#[test]
fn latency_from_u32() {
    let l: Latency = 42u32.into();
    assert_eq!(l, Latency(42));
    assert_eq!(l.millis(), 42);
}
