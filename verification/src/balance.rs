//! Load balancing over the live endpoint set: a peak-EWMA load estimate per
//! endpoint and power-of-two-choices selection.
//!
//! The estimate is held in fixed point: one pending request weighs
//! `LOAD_SCALE`. On dispatch the estimate jumps up immediately (the peak);
//! while an endpoint is idle the excess over its current pending level is
//! halved once per elapsed half-life, so the estimate decays exponentially
//! toward the pending count. Load is released when the response's first data
//! frame arrives, not at headers and not at body completion.

use crate::bind::Endpoint;
use crate::transport::SocketAddr;
use vstd::prelude::*;

verus! {

/// The decay half-life of the load estimate, in milliseconds.
pub const DEFAULT_DECAY_MS: u64 = 10_000;

/// Fixed-point weight of one pending request in a load estimate.
pub const LOAD_SCALE: u64 = 1_000;

/// The most requests one endpoint can have pending at once.
pub const MAX_PENDING: u64 = 4_294_967_295;

/// `d` halved `k` times, rounding down.
pub open spec fn halved(d: int, k: nat) -> int
    decreases k,
{
    if k == 0 {
        d
    } else {
        halved(d / 2, (k - 1) as nat)
    }
}

/// Halving a nonnegative number never makes it negative or larger.
pub proof fn lemma_halved_le(d: int, k: nat)
    requires
        0 <= d,
    ensures
        0 <= halved(d, k) <= d,
    decreases k,
{
    if k > 0 {
        lemma_halved_le(d / 2, (k - 1) as nat);
    }
}

/// A per-endpoint peak-EWMA load estimate.
#[derive(Debug, Clone, Copy, PartialEq, Eq, Structural, Hash)]
pub struct PeakEwma {
    /// Requests dispatched whose first response data frame is still awaited.
    pub pending: u64,
    /// The decaying load estimate, in `LOAD_SCALE` fixed point.
    pub estimate: u64,
    /// When the estimate was last brought up to date, in milliseconds.
    pub stamp_ms: u64,
}

impl PeakEwma {
    /// The estimate stays within fixed-point range.
    pub open spec fn wf(&self) -> bool {
        &&& self.pending <= MAX_PENDING
        &&& self.estimate as int <= MAX_PENDING as int * LOAD_SCALE as int
    }

    /// A fresh endpoint carries no load.
    pub fn new() -> (r: PeakEwma)
        ensures
            r == (PeakEwma { pending: 0, estimate: 0, stamp_ms: 0 }),
    {
        PeakEwma { pending: 0, estimate: 0, stamp_ms: 0 }
    }
}

/// How many half-lives have elapsed since the estimate was last up to date,
/// capped so that shifting terminates.
pub open spec fn decay_steps(stamp_ms: u64, now_ms: u64, decay_ms: u64) -> nat
    recommends
        decay_ms > 0,
{
    if decay_ms == 0 || now_ms <= stamp_ms {
        0
    } else if (now_ms - stamp_ms) / (decay_ms as int) > 64 {
        64
    } else {
        ((now_ms - stamp_ms) / (decay_ms as int)) as nat
    }
}

/// The load estimate at `now_ms`: the excess over the pending level is halved
/// once per elapsed half-life; an estimate below the pending level rises to
/// it immediately.
pub open spec fn decayed_estimate(l: PeakEwma, now_ms: u64, decay_ms: u64) -> int {
    let target = l.pending as int * LOAD_SCALE as int;
    if l.estimate as int <= target {
        target
    } else {
        target + halved(l.estimate as int - target, decay_steps(l.stamp_ms, now_ms, decay_ms))
    }
}

/// The estimate right after a dispatch at `now_ms`: the decayed estimate,
/// jumped up at once to at least the new pending level.
pub open spec fn dispatched_estimate(l: PeakEwma, now_ms: u64, decay_ms: u64) -> int {
    let dec = decayed_estimate(l, now_ms, decay_ms);
    let t2 = (l.pending + 1) as int * LOAD_SCALE as int;
    if dec < t2 {
        t2
    } else {
        dec
    }
}

/// The decayed estimate stays within fixed-point range.
pub proof fn lemma_decayed_in_range(l: PeakEwma, now_ms: u64, decay_ms: u64)
    requires
        l.wf(),
    ensures
        l.pending as int * LOAD_SCALE as int <= decayed_estimate(l, now_ms, decay_ms) <= MAX_PENDING
            as int * LOAD_SCALE as int,
{
    let target = l.pending as int * LOAD_SCALE as int;
    if l.estimate as int > target {
        lemma_halved_le(l.estimate as int - target, decay_steps(l.stamp_ms, now_ms, decay_ms));
    }
}

impl PeakEwma {
    /// Read the estimate as of `now_ms` without recording anything.
    pub fn estimate_at(&self, now_ms: u64, decay_ms: u64) -> (e: u64)
        requires
            self.wf(),
            decay_ms > 0,
        ensures
            e as int == decayed_estimate(*self, now_ms, decay_ms),
    {
        proof {
            lemma_decayed_in_range(*self, now_ms, decay_ms);
        }
        let target: u64 = self.pending * LOAD_SCALE;
        if self.estimate <= target {
            target
        } else {
            let elapsed_steps: u64 = if now_ms > self.stamp_ms {
                (now_ms - self.stamp_ms) / decay_ms
            } else {
                0
            };
            let k: u64 = if elapsed_steps > 64 {
                64
            } else {
                elapsed_steps
            };
            let d0: u64 = self.estimate - target;
            let mut diff: u64 = d0;
            let mut j: u64 = 0;
            while j < k
                invariant
                    j <= k,
                    diff <= d0,
                    halved(d0 as int, k as nat) == halved(diff as int, (k - j) as nat),
                decreases k - j,
            {
                diff = diff / 2;
                j = j + 1;
            }
            target + diff
        }
    }

    /// Bring the estimate up to date as of `now_ms`.
    fn decay(&mut self, now_ms: u64, decay_ms: u64)
        requires
            old(self).wf(),
            decay_ms > 0,
        ensures
            final(self).wf(),
            final(self).pending == old(self).pending,
            final(self).estimate as int == decayed_estimate(*old(self), now_ms, decay_ms),
            final(self).stamp_ms == if now_ms > old(self).stamp_ms {
                now_ms
            } else {
                old(self).stamp_ms
            },
            decayed_estimate(*final(self), now_ms, decay_ms) == decayed_estimate(
                *old(self),
                now_ms,
                decay_ms,
            ),
    {
        proof {
            lemma_decayed_in_range(*old(self), now_ms, decay_ms);
        }
        let e: u64 = self.estimate_at(now_ms, decay_ms);
        self.estimate = e;
        if now_ms > self.stamp_ms {
            self.stamp_ms = now_ms;
        }
        proof {
            let target = self.pending as int * LOAD_SCALE as int;
            if self.estimate as int > target {
                assert(halved(self.estimate as int - target, 0) == self.estimate as int - target);
                assert(decay_steps(self.stamp_ms, now_ms, decay_ms) == 0);
            }
        }
    }

    /// Record a dispatch at `now_ms`: the pending count rises by one and the
    /// estimate peaks to at least the new pending level at once.
    pub fn dispatch(&mut self, now_ms: u64, decay_ms: u64)
        requires
            old(self).wf(),
            decay_ms > 0,
            old(self).pending < MAX_PENDING,
        ensures
            final(self).wf(),
            final(self).pending == old(self).pending + 1,
            final(self).estimate as int == dispatched_estimate(*old(self), now_ms, decay_ms),
            final(self).stamp_ms == if now_ms > old(self).stamp_ms {
                now_ms
            } else {
                old(self).stamp_ms
            },
    {
        self.decay(now_ms, decay_ms);
        self.pending = self.pending + 1;
        let target: u64 = self.pending * LOAD_SCALE;
        if self.estimate < target {
            self.estimate = target;
        }
    }

    /// Record the arrival of a response's first data frame at `now_ms`: the
    /// load is released and decay continues toward the lower pending level.
    pub fn first_byte(&mut self, now_ms: u64, decay_ms: u64)
        requires
            old(self).wf(),
            decay_ms > 0,
            old(self).pending > 0,
        ensures
            final(self).wf(),
            final(self).pending == old(self).pending - 1,
            final(self).estimate as int == decayed_estimate(*old(self), now_ms, decay_ms),
            final(self).stamp_ms == if now_ms > old(self).stamp_ms {
                now_ms
            } else {
                old(self).stamp_ms
            },
    {
        self.decay(now_ms, decay_ms);
        self.pending = self.pending - 1;
    }
}

/// An ordered endpoint-set change from service discovery.
#[derive(Debug, Clone, Copy, PartialEq, Eq, Structural, Hash)]
pub enum Change {
    Insert(SocketAddr, Endpoint),
    Remove(SocketAddr),
}

/// One live endpoint with its load estimate.
#[derive(Debug, Clone, Copy, PartialEq, Eq, Structural, Hash)]
pub struct BalancerEntry {
    pub addr: SocketAddr,
    pub endpoint: Endpoint,
    pub load: PeakEwma,
}

/// No endpoint is live for the key: a transient, per-request condition,
/// surfaced to the caller and never retried internally.
#[derive(Debug, Clone, Copy, PartialEq, Eq, Structural, Hash)]
pub struct NoEndpoint;

/// The index of the first entry at or after `i` whose address is `a`, or
/// `s.len()` if the address is not live.
pub open spec fn find_addr_from(s: Seq<BalancerEntry>, a: SocketAddr, i: int) -> int
    decreases s.len() - i,
{
    if i < 0 || i >= s.len() {
        s.len() as int
    } else if s[i].addr == a {
        i
    } else {
        find_addr_from(s, a, i + 1)
    }
}

/// The index of the entry for address `a`, or `s.len()`.
pub open spec fn find_addr(s: Seq<BalancerEntry>, a: SocketAddr) -> int {
    find_addr_from(s, a, 0)
}

/// Whether address `a` is live.
pub open spec fn has_addr(s: Seq<BalancerEntry>, a: SocketAddr) -> bool {
    find_addr(s, a) < s.len()
}

proof fn lemma_find_addr_from(s: Seq<BalancerEntry>, a: SocketAddr, i: int)
    requires
        0 <= i <= s.len(),
    ensures
        i <= find_addr_from(s, a, i) <= s.len(),
        find_addr_from(s, a, i) < s.len() ==> s[find_addr_from(s, a, i)].addr == a,
        forall|j: int| i <= j < find_addr_from(s, a, i) ==> s[j].addr != a,
    decreases s.len() - i,
{
    if i < s.len() && s[i].addr != a {
        lemma_find_addr_from(s, a, i + 1);
    }
}

/// A live address is found at its entry, and an address that is not live is
/// at no entry at all.
pub proof fn lemma_find_addr(s: Seq<BalancerEntry>, a: SocketAddr)
    ensures
        0 <= find_addr(s, a) <= s.len(),
        has_addr(s, a) ==> s[find_addr(s, a)].addr == a,
        forall|j: int| 0 <= j < find_addr(s, a) ==> s[j].addr != a,
{
    lemma_find_addr_from(s, a, 0);
}

/// The two indices power-of-two-choices samples from two random words:
/// distinct whenever at least two endpoints are live.
pub open spec fn sampled_pair(len: int, r1: u64, r2: u64) -> (int, int)
    recommends
        len >= 1,
{
    let i = r1 as int % len;
    if len == 1 {
        (0, 0)
    } else {
        let j0 = r2 as int % (len - 1);
        (i, if j0 >= i {
            j0 + 1
        } else {
            j0
        })
    }
}

/// The index power-of-two-choices picks: of the two sampled entries, the one
/// whose load estimate at `now_ms` is lower (the first on a tie).
pub open spec fn p2c_choice(
    s: Seq<BalancerEntry>,
    r1: u64,
    r2: u64,
    now_ms: u64,
    decay_ms: u64,
) -> int
    recommends
        s.len() >= 1,
{
    let (i, j) = sampled_pair(s.len() as int, r1, r2);
    if decayed_estimate(s[i].load, now_ms, decay_ms) <= decayed_estimate(
        s[j].load,
        now_ms,
        decay_ms,
    ) {
        i
    } else {
        j
    }
}

/// With exactly two endpoints whose load estimates differ, power-of-two-choices
/// picks the strictly lower-loaded endpoint, whatever the two random samples:
/// selecting the lower-loaded endpoint is certain, not merely a majority.
pub proof fn lemma_p2c_prefers_lower(
    s: Seq<BalancerEntry>,
    r1: u64,
    r2: u64,
    now_ms: u64,
    decay_ms: u64,
)
    requires
        s.len() == 2,
        decayed_estimate(s[0].load, now_ms, decay_ms) < decayed_estimate(
            s[1].load,
            now_ms,
            decay_ms,
        ),
    ensures
        p2c_choice(s, r1, r2, now_ms, decay_ms) == 0,
{
    assert(r1 as int % 2 == 0 || r1 as int % 2 == 1);
    assert(r2 as int % 1 == 0);
}

/// An endpoint whose remove event has been applied is never chosen again:
/// whatever the random samples, the choice falls on a live entry, and no
/// live entry carries a removed address.
pub proof fn lemma_removed_never_chosen(
    s: Seq<BalancerEntry>,
    a: SocketAddr,
    r1: u64,
    r2: u64,
    now_ms: u64,
    decay_ms: u64,
)
    requires
        s.len() >= 1,
        !has_addr(s, a),
    ensures
        0 <= p2c_choice(s, r1, r2, now_ms, decay_ms) < s.len(),
        s[p2c_choice(s, r1, r2, now_ms, decay_ms)].addr != a,
{
    lemma_find_addr(s, a);
}

/// The live endpoint set of one routing key, with per-endpoint load.
#[derive(Debug)]
pub struct Balancer {
    /// The live endpoints, addresses pairwise distinct.
    pub entries: Vec<BalancerEntry>,
    /// The decay half-life handed to every load estimate.
    pub decay_ms: u64,
}

impl Balancer {
    /// Addresses are pairwise distinct and every estimate is in range.
    pub open spec fn wf(&self) -> bool {
        &&& self.decay_ms > 0
        &&& forall|i: int, j: int|
            0 <= i < j < self.entries@.len() ==> self.entries@[i].addr != self.entries@[j].addr
        &&& forall|i: int| 0 <= i < self.entries@.len() ==> self.entries@[i].load.wf()
    }

    /// A balancer starts with no live endpoint.
    pub fn new(decay_ms: u64) -> (r: Balancer)
        requires
            decay_ms > 0,
        ensures
            r.wf(),
            r.entries@.len() == 0,
            r.decay_ms == decay_ms,
    {
        Balancer { entries: Vec::new(), decay_ms }
    }

    /// Find the entry for `addr`, or the length if the address is not live.
    fn index_of(&self, addr: SocketAddr) -> (r: usize)
        ensures
            r as int == find_addr(self.entries@, addr),
            r <= self.entries@.len(),
            r < self.entries@.len() ==> self.entries@[r as int].addr == addr,
            forall|j: int| 0 <= j < r ==> self.entries@[j].addr != addr,
    {
        let n: usize = self.entries.len();
        let mut i: usize = 0;
        while i < n
            invariant
                i <= n,
                n == self.entries@.len(),
                find_addr(self.entries@, addr) == find_addr_from(self.entries@, addr, i as int),
                forall|j: int| 0 <= j < i ==> self.entries@[j].addr != addr,
            decreases n - i,
        {
            if self.entries[i].addr == addr {
                assert(find_addr_from(self.entries@, addr, i as int) == i as int);
                return i;
            }
            assert(find_addr_from(self.entries@, addr, i as int) == find_addr_from(
                self.entries@,
                addr,
                i + 1 as int,
            ));
            i = i + 1;
        }
        n
    }

    /// Apply one discovery change, in received order: an insert makes the
    /// address live with a fresh load, replacing any previous endpoint at
    /// that address; a remove takes it out of the live set, so it can never
    /// be chosen afterwards.
    pub fn apply_change(&mut self, c: Change)
        requires
            old(self).wf(),
            old(self).entries@.len() < usize::MAX,
        ensures
            final(self).wf(),
            final(self).decay_ms == old(self).decay_ms,
            match c {
                Change::Insert(a, ep) => {
                    let fresh = BalancerEntry {
                        addr: a,
                        endpoint: ep,
                        load: PeakEwma { pending: 0, estimate: 0, stamp_ms: 0 },
                    };
                    if has_addr(old(self).entries@, a) {
                        final(self).entries@ == old(self).entries@.update(
                            find_addr(old(self).entries@, a),
                            fresh,
                        )
                    } else {
                        final(self).entries@ == old(self).entries@.push(fresh)
                    }
                },
                Change::Remove(a) => {
                    if has_addr(old(self).entries@, a) {
                        final(self).entries@ == old(self).entries@.remove(
                            find_addr(old(self).entries@, a),
                        )
                    } else {
                        final(self).entries@ == old(self).entries@
                    }
                },
            },
    {
        match c {
            Change::Insert(a, ep) => {
                let fresh = BalancerEntry { addr: a, endpoint: ep, load: PeakEwma::new() };
                let idx: usize = self.index_of(a);
                if idx < self.entries.len() {
                    self.entries[idx] = fresh;
                } else {
                    self.entries.push(fresh);
                }
            },
            Change::Remove(a) => {
                let idx: usize = self.index_of(a);
                if idx < self.entries.len() {
                    let ghost pre = self.entries@;
                    let ghost k = idx as int;
                    self.entries.remove(idx);
                    proof {
                        pre.remove_ensures(k);
                    }
                }
            },
        }
    }

    /// Choose an endpoint for a request at `now_ms` by power-of-two-choices
    /// over the samples `r1`, `r2`, and record the dispatch on its load.
    /// Fails, exactly when no endpoint is live, with a no-endpoint condition.
    pub fn dispatch(&mut self, r1: u64, r2: u64, now_ms: u64) -> (r: Result<SocketAddr, NoEndpoint>)
        requires
            old(self).wf(),
            forall|i: int|
                0 <= i < old(self).entries@.len() ==> old(self).entries@[i].load.pending
                    < MAX_PENDING,
        ensures
            final(self).wf(),
            final(self).decay_ms == old(self).decay_ms,
            r is Err <==> old(self).entries@.len() == 0,
            r is Err ==> final(self).entries@ == old(self).entries@,
            r matches Ok(addr) ==> ({
                let pick = p2c_choice(old(self).entries@, r1, r2, now_ms, old(self).decay_ms);
                let e = old(self).entries@[pick];
                &&& addr == e.addr
                &&& final(self).entries@ == old(self).entries@.update(
                    pick,
                    BalancerEntry {
                        load: PeakEwma {
                            pending: (e.load.pending + 1) as u64,
                            estimate: dispatched_estimate(e.load, now_ms, old(self).decay_ms) as u64,
                            stamp_ms: if now_ms > e.load.stamp_ms {
                                now_ms
                            } else {
                                e.load.stamp_ms
                            },
                        },
                        ..e
                    },
                )
            }),
    {
        let n: usize = self.entries.len();
        if n == 0 {
            return Err(NoEndpoint);
        }
        let i: usize = (r1 % (n as u64)) as usize;
        let j: usize = if n == 1 {
            0
        } else {
            let j0: usize = (r2 % ((n - 1) as u64)) as usize;
            if j0 >= i {
                j0 + 1
            } else {
                j0
            }
        };
        let ei: u64 = self.entries[i].load.estimate_at(now_ms, self.decay_ms);
        let ej: u64 = self.entries[j].load.estimate_at(now_ms, self.decay_ms);
        let pick: usize = if ei <= ej {
            i
        } else {
            j
        };
        let mut e: BalancerEntry = self.entries[pick];
        e.load.dispatch(now_ms, self.decay_ms);
        self.entries[pick] = e;
        Ok(e.addr)
    }

    /// Record the arrival of the first response data frame from `addr`: the
    /// endpoint's load is released; an address no longer live is ignored.
    pub fn first_byte(&mut self, addr: SocketAddr, now_ms: u64)
        requires
            old(self).wf(),
            has_addr(old(self).entries@, addr) ==> old(self).entries@[find_addr(
                old(self).entries@,
                addr,
            )].load.pending > 0,
        ensures
            final(self).wf(),
            final(self).decay_ms == old(self).decay_ms,
            if has_addr(old(self).entries@, addr) {
                let k = find_addr(old(self).entries@, addr);
                let e = old(self).entries@[k];
                final(self).entries@ == old(self).entries@.update(
                    k,
                    BalancerEntry {
                        load: PeakEwma {
                            pending: (e.load.pending - 1) as u64,
                            estimate: decayed_estimate(e.load, now_ms, old(self).decay_ms) as u64,
                            stamp_ms: if now_ms > e.load.stamp_ms {
                                now_ms
                            } else {
                                e.load.stamp_ms
                            },
                        },
                        ..e
                    },
                )
            } else {
                final(self).entries@ == old(self).entries@
            },
    {
        let idx: usize = self.index_of(addr);
        if idx < self.entries.len() {
            let mut e: BalancerEntry = self.entries[idx];
            e.load.first_byte(now_ms, self.decay_ms);
            self.entries[idx] = e;
        }
    }
}

} // verus!
