//! The backpressure stack wrapped around each key's balancer, outer to
//! inner: a fixed concurrency cap that rejects rather than queues, a
//! per-request timeout, and single-flight buffering that serializes all
//! callers behind the one driver allowed to mutate balancer state.

use vstd::prelude::*;

verus! {

/// The most in-flight requests one key admits at once.
pub const MAX_IN_FLIGHT: usize = 10_000;

/// The runtime's task scheduler, as the stack sees it: it either can or
/// cannot take the buffering stage's driving task right now.
#[derive(Debug, Clone, Copy, PartialEq, Eq, Structural, Hash)]
pub struct Executor {
    pub can_spawn: bool,
}

/// The fixed ceiling of concurrent in-flight requests on one key.
#[derive(Debug, Clone, Copy, PartialEq, Eq, Structural, Hash)]
pub struct InFlightLimit {
    /// The ceiling.
    pub max: usize,
    /// Requests admitted and not yet finished.
    pub in_flight: usize,
}

/// Whether the limit admits one more request.
pub open spec fn admits(l: InFlightLimit) -> bool {
    l.in_flight < l.max
}

impl InFlightLimit {
    /// A fresh limit with ceiling `max` and nothing in flight.
    pub fn new(max: usize) -> (r: InFlightLimit)
        ensures
            r.max == max,
            r.in_flight == 0,
    {
        InFlightLimit { max, in_flight: 0 }
    }

    /// Admit one request, or reject it immediately — never queue it. A
    /// request is admitted exactly when the in-flight count is below the
    /// ceiling; a rejection changes nothing.
    pub fn try_start(&mut self) -> (admitted: bool)
        ensures
            admitted == admits(*old(self)),
            final(self).max == old(self).max,
            admitted ==> final(self).in_flight == old(self).in_flight + 1,
            !admitted ==> *final(self) == *old(self),
    {
        if self.in_flight < self.max {
            self.in_flight = self.in_flight + 1;
            true
        } else {
            false
        }
    }

    /// Release one in-flight slot, whether the request succeeded, failed or
    /// timed out.
    pub fn finish(&mut self)
        requires
            old(self).in_flight > 0,
        ensures
            final(self).max == old(self).max,
            final(self).in_flight == old(self).in_flight - 1,
    {
        self.in_flight = self.in_flight - 1;
    }
}

/// Once the cap many requests are in flight, the next request on the key is
/// turned away at once: admission depends only on the counter, never on any
/// in-flight request's completion.
pub proof fn lemma_cap_rejects_immediately(l: InFlightLimit)
    requires
        l.in_flight == l.max,
    ensures
        !admits(l),
{
}

/// Whether a request started at `start_ms` has timed out at `now_ms` under a
/// timeout of `timeout_ms`: its deadline is start plus timeout.
pub fn timed_out(start_ms: u64, timeout_ms: u64, now_ms: u64) -> (r: bool)
    ensures
        r == (now_ms as int >= start_ms as int + timeout_ms as int),
{
    if now_ms < start_ms {
        false
    } else {
        now_ms - start_ms >= timeout_ms
    }
}

/// The single-flight buffering stage: all callers on one key wait behind one
/// driver, which alone holds the balancer while one call is in it, so the
/// balancer's mutation and choice logic is never entered reentrantly.
#[derive(Debug, Clone, Copy, PartialEq, Eq, Structural, Hash)]
pub struct Buffer {
    /// Whether the driver currently holds the balancer for a call.
    pub in_call: bool,
}

impl Buffer {
    /// Construct the buffering stage by scheduling its driving task; this
    /// fails, permanently for the key, exactly when the task cannot be
    /// scheduled.
    pub fn new(executor: &Executor) -> (r: Result<Buffer, ()>)
        ensures
            r is Ok <==> executor.can_spawn,
            r matches Ok(b) ==> !b.in_call,
    {
        if executor.can_spawn {
            Ok(Buffer { in_call: false })
        } else {
            Err(())
        }
    }

    /// Hand the balancer to one caller; everyone else keeps waiting. The
    /// caller acquires it exactly when no call is already in the balancer.
    pub fn try_acquire(&mut self) -> (acquired: bool)
        ensures
            acquired == !old(self).in_call,
            final(self).in_call,
    {
        if self.in_call {
            false
        } else {
            self.in_call = true;
            true
        }
    }

    /// The one in-flight balancer call finished; the next caller may enter.
    pub fn release(&mut self)
        requires
            old(self).in_call,
        ensures
            !final(self).in_call,
    {
        self.in_call = false;
    }
}

} // verus!
