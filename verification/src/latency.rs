//! Fixed-bucket latency histogram feeding the load estimator and an external
//! metrics exporter.
//!
//! The 26 bucket bounds are a versioned contract with that exporter: five
//! linear runs {1,2,3,4,5} scaled by 1, 10, 100, 1000 and 10000 milliseconds,
//! plus one explicit catch-all bucket at the largest representable latency.

use vstd::prelude::*;

verus! {

/// The number of buckets in a latency histogram.
pub const NUM_BUCKETS: usize = 26;

/// Conversion ratio from seconds to milliseconds.
pub const SEC_TO_MS: u32 = 1_000;

/// Conversion ratio from milliseconds to nanoseconds.
pub const MS_TO_NS: u32 = 1_000_000;

/// The inclusive upper bound of bucket `i`, in milliseconds.
pub open spec fn bucket_bound(i: int) -> int {
    if i < 5 {
        i + 1
    } else if i < 10 {
        (i - 4) * 10
    } else if i < 15 {
        (i - 9) * 100
    } else if i < 20 {
        (i - 14) * 1000
    } else if i < 25 {
        (i - 19) * 10000
    } else {
        u32::MAX as int
    }
}

/// The inclusive upper bound of bucket `i`, in milliseconds.
pub fn bucket_max_value(i: usize) -> (r: u32)
    requires
        i < NUM_BUCKETS,
    ensures
        r as int == bucket_bound(i as int),
{
    if i < 5 {
        (i as u32) + 1
    } else if i < 10 {
        ((i as u32) - 4) * 10
    } else if i < 15 {
        ((i as u32) - 9) * 100
    } else if i < 20 {
        ((i as u32) - 14) * 1000
    } else if i < 25 {
        ((i as u32) - 19) * 10000
    } else {
        u32::MAX
    }
}

/// The first bucket at or after `i` whose bound is at least `v`.
pub open spec fn first_bucket_from(v: u32, i: int) -> int
    decreases 25 - i,
{
    if i >= 25 {
        25
    } else if v as int <= bucket_bound(i) {
        i
    } else {
        first_bucket_from(v, i + 1)
    }
}

/// The bucket a measurement of `v` milliseconds falls into: the first bucket
/// whose inclusive upper bound is at least `v`.
pub open spec fn bucket_index_of(v: u32) -> int {
    first_bucket_from(v, 0)
}

/// Bucket bounds strictly increase with the bucket index.
pub proof fn lemma_bucket_bounds_strictly_increase(i: int, j: int)
    requires
        0 <= i < j < NUM_BUCKETS,
    ensures
        bucket_bound(i) < bucket_bound(j),
{
}

/// The last bucket's bound is the largest representable latency, so no
/// measurement falls outside every bucket.
pub proof fn lemma_last_bound_is_max()
    ensures
        bucket_bound(NUM_BUCKETS - 1) == u32::MAX as int,
{
}

proof fn lemma_first_bucket_from(v: u32, i: int)
    requires
        0 <= i <= 25,
    ensures
        i <= first_bucket_from(v, i) <= 25,
        v as int <= bucket_bound(first_bucket_from(v, i)),
        forall|j: int| i <= j < first_bucket_from(v, i) ==> bucket_bound(j) < v as int,
    decreases 25 - i,
{
    if i >= 25 {
    } else if v as int <= bucket_bound(i) {
    } else {
        lemma_first_bucket_from(v, i + 1);
    }
}

/// The bucket of a measurement is well defined: it lies in range, its bound
/// covers the measurement, and every earlier bound is strictly below it.
pub proof fn lemma_bucket_index_of(v: u32)
    ensures
        0 <= bucket_index_of(v) < NUM_BUCKETS,
        v as int <= bucket_bound(bucket_index_of(v)),
        forall|j: int| 0 <= j < bucket_index_of(v) ==> bucket_bound(j) < v as int,
{
    lemma_first_bucket_from(v, 0);
}

/// A measurement equal to a bucket's inclusive upper bound lands in exactly
/// that bucket, never the next one; in particular the largest representable
/// measurement always lands in the final bucket.
pub proof fn lemma_bound_value_lands_in_own_bucket(i: int)
    requires
        0 <= i < NUM_BUCKETS,
    ensures
        bucket_index_of(bucket_bound(i) as u32) == i,
        bucket_index_of(u32::MAX) == 25,
{
    let v = bucket_bound(i) as u32;
    assert(v as int == bucket_bound(i));
    lemma_bucket_index_of(v);
    let k = bucket_index_of(v);
    if k < i {
        lemma_bucket_bounds_strictly_increase(k, i);
        assert(false);
    }
    if k > i {
        assert(bucket_bound(i) < v as int);
        assert(false);
    }
    lemma_bucket_index_of(u32::MAX);
    let m = bucket_index_of(u32::MAX);
    if m < 25 {
        lemma_bucket_bounds_strictly_increase(m, 25);
        assert(false);
    }
}

/// A latency in milliseconds.
#[derive(Debug, Eq, PartialEq, Structural, Ord, PartialOrd, Copy, Clone, Hash)]
pub struct Latency(pub u32);

/// Milliseconds represented by a duration of `secs` whole seconds plus
/// `subsec_nanos` nanoseconds, truncated to millisecond resolution and
/// saturated at the largest representable latency.
pub open spec fn duration_to_ms(secs: u64, subsec_nanos: u32) -> int {
    let total = secs * 1000 + subsec_nanos / 1_000_000;
    if total > u32::MAX as int {
        u32::MAX as int
    } else {
        total
    }
}

impl Latency {
    /// Truncating, saturating conversion from a duration given as whole
    /// seconds plus subsecond nanoseconds. A duration too large to represent
    /// becomes the largest representable latency, never a failure.
    pub fn from_parts(secs: u64, subsec_nanos: u32) -> (r: Latency)
        ensures
            r.0 as int == duration_to_ms(secs, subsec_nanos),
    {
        let subsec_ms: u32 = subsec_nanos / MS_TO_NS;
        if secs >= u32::MAX as u64 {
            Latency(u32::MAX)
        } else {
            let s: u32 = secs as u32;
            if s > u32::MAX / SEC_TO_MS {
                Latency(u32::MAX)
            } else {
                let ms: u32 = s * SEC_TO_MS;
                if subsec_ms > u32::MAX - ms {
                    Latency(u32::MAX)
                } else {
                    Latency(ms + subsec_ms)
                }
            }
        }
    }

    /// The measurement in milliseconds.
    pub fn millis(self) -> (r: u32)
        ensures
            r == self.0,
    {
        self.0
    }
}

impl From<u32> for Latency {
    /// A millisecond count is already a latency.
    fn from(value: u32) -> (r: Latency) {
        Latency(value)
    }
}

impl vstd::std_specs::convert::FromSpecImpl<u32> for Latency {
    open spec fn obeys_from_spec() -> bool {
        true
    }

    open spec fn from_spec(value: u32) -> Latency {
        Latency(value)
    }
}

/// A series of per-bucket observation counts.
#[derive(Debug)]
pub struct Histogram {
    buckets: Vec<u32>,
}

impl View for Histogram {
    type V = Seq<u32>;

    closed spec fn view(&self) -> Seq<u32> {
        self.buckets@
    }
}

impl Histogram {
    /// A histogram always holds one count per bucket.
    pub open spec fn wf(&self) -> bool {
        self@.len() == NUM_BUCKETS
    }

    /// Construct a new, empty histogram.
    pub fn new() -> (h: Histogram)
        ensures
            h.wf(),
            forall|i: int| 0 <= i < NUM_BUCKETS ==> h@[i] == 0,
    {
        let mut buckets: Vec<u32> = Vec::new();
        let mut i: usize = 0;
        while i < NUM_BUCKETS
            invariant
                i <= NUM_BUCKETS,
                buckets@.len() == i,
                forall|j: int| 0 <= j < i ==> buckets@[j] == 0,
            decreases NUM_BUCKETS - i,
        {
            buckets.push(0);
            i = i + 1;
        }
        Histogram { buckets }
    }

    /// Observe one measurement: the count of the first bucket whose inclusive
    /// upper bound is at least the measurement rises by one; every other
    /// count is unchanged.
    pub fn observe(&mut self, measurement: Latency)
        requires
            old(self).wf(),
            old(self)@[bucket_index_of(measurement.0)] < u32::MAX,
        ensures
            final(self).wf(),
            final(self)@ == old(self)@.update(
                bucket_index_of(measurement.0),
                (old(self)@[bucket_index_of(measurement.0)] + 1) as u32,
            ),
    {
        let v: u32 = measurement.0;
        let mut i: usize = 0;
        while bucket_max_value(i) < v
            invariant
                self == old(self),
                i <= 25,
                first_bucket_from(v, 0) == first_bucket_from(v, i as int),
                forall|j: int| 0 <= j < i ==> bucket_bound(j) < v as int,
            decreases 25 - i,
        {
            assert(i < 25) by {
                if i == 25 {
                    assert(bucket_bound(25) == u32::MAX as int);
                }
            }
            assert(first_bucket_from(v, i as int) == first_bucket_from(v, i + 1 as int));
            i = i + 1;
        }
        assert(bucket_index_of(v) == i) by {
            if (i as int) < 25 {
                assert(first_bucket_from(v, i as int) == i as int);
            }
        }
        let c: u32 = self.buckets[i];
        self.buckets[i] = c + 1;
    }

    /// The raw per-bucket counts, in ascending bucket-bound order, for an
    /// external exporter.
    pub fn counts(&self) -> (r: Vec<u32>)
        ensures
            r@ == self@,
    {
        let n: usize = self.buckets.len();
        let mut r: Vec<u32> = Vec::new();
        let mut i: usize = 0;
        while i < n
            invariant
                i <= n,
                n == self@.len(),
                r@.len() == i,
                forall|j: int| 0 <= j < i ==> r@[j] == self@[j],
            decreases n - i,
        {
            r.push(self.buckets[i]);
            i = i + 1;
        }
        assert(r@ =~= self@);
        r
    }
}

impl Default for Histogram {
    /// The default histogram is empty.
    fn default() -> (h: Histogram)
        ensures
            h.wf(),
            forall|i: int| 0 <= i < NUM_BUCKETS ==> h@[i] == 0,
    {
        Histogram::new()
    }
}

} // verus!
