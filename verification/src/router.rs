//! The demand-populated routing cache: one bound, backpressure-wrapped
//! balancer per routing key, created on first use and reused by every later
//! request with the same key. Eviction is an external policy and simply
//! removes an entry.

use crate::bind::BufferSpawnError;
use crate::bind::Protocol;
use crate::outbound::Destination;
use crate::outbound::Outbound;
use crate::outbound::RouteRequest;
use crate::outbound::Service;
use crate::outbound::service_matches_key;
use crate::stack::Executor;
use crate::transport::clone_bytes;
use vstd::prelude::*;

verus! {

/// Two destinations denote the same place: same name and port, or same
/// address.
pub open spec fn dst_eq(a: Destination, b: Destination) -> bool {
    match (a, b) {
        (Destination::Hostname(x), Destination::Hostname(y)) => x.host@ == y.host@ && x.port
            == y.port,
        (Destination::ImplicitOriginalDst(x), Destination::ImplicitOriginalDst(y)) => x == y,
        _ => false,
    }
}

/// Two routing keys are the same: same destination and same protocol.
pub open spec fn key_eq(a: (Destination, Protocol), b: (Destination, Protocol)) -> bool {
    dst_eq(a.0, b.0) && a.1 == b.1
}

/// Key sameness is an equivalence.
pub proof fn lemma_key_eq_equivalence(
    a: (Destination, Protocol),
    b: (Destination, Protocol),
    c: (Destination, Protocol),
)
    ensures
        key_eq(a, a),
        key_eq(a, b) == key_eq(b, a),
        key_eq(a, b) && key_eq(b, c) ==> key_eq(a, c),
{
}

/// Copy a destination.
pub fn clone_dst(d: &Destination) -> (r: Destination)
    ensures
        dst_eq(r, *d),
{
    match d {
        Destination::Hostname(n) => Destination::Hostname(
            crate::transport::DnsNameAndPort { host: clone_bytes(&n.host), port: n.port },
        ),
        Destination::ImplicitOriginalDst(a) => Destination::ImplicitOriginalDst(*a),
    }
}

/// Compare two routing keys.
pub fn key_matches(a: &(Destination, Protocol), b: &(Destination, Protocol)) -> (r: bool)
    ensures
        r == key_eq(*a, *b),
{
    if !protocol_matches(a.1, b.1) {
        return false;
    }
    match (&a.0, &b.0) {
        (Destination::Hostname(x), Destination::Hostname(y)) => x.port == y.port && bytes_eq(
            &x.host,
            &y.host,
        ),
        (Destination::ImplicitOriginalDst(x), Destination::ImplicitOriginalDst(y)) => x == y,
        _ => false,
    }
}

/// Compare two protocols.
fn protocol_matches(a: Protocol, b: Protocol) -> (r: bool)
    ensures
        r == (a == b),
{
    a == b
}

/// Compare two byte strings.
fn bytes_eq(a: &Vec<u8>, b: &Vec<u8>) -> (r: bool)
    ensures
        r <==> a@ == b@,
{
    let n: usize = a.len();
    if n != b.len() {
        return false;
    }
    let mut i: usize = 0;
    while i < n
        invariant
            i <= n,
            n == a@.len(),
            n == b@.len(),
            forall|j: int| 0 <= j < i ==> a@[j] == b@[j],
        decreases n - i,
    {
        if a[i] != b[i] {
            return false;
        }
        i = i + 1;
    }
    assert(a@ =~= b@);
    true
}

/// One cached binding: a key and its bound service.
pub struct RouteEntry {
    pub key: (Destination, Protocol),
    pub service: Service,
}

/// The index of the first entry at or after `i` whose key is `k`, or
/// `s.len()` if the key is not cached.
pub open spec fn find_route_from(s: Seq<RouteEntry>, k: (Destination, Protocol), i: int) -> int
    decreases s.len() - i,
{
    if i < 0 || i >= s.len() {
        s.len() as int
    } else if key_eq(s[i].key, k) {
        i
    } else {
        find_route_from(s, k, i + 1)
    }
}

/// The index of the entry for key `k`, or `s.len()`.
pub open spec fn find_route(s: Seq<RouteEntry>, k: (Destination, Protocol)) -> int {
    find_route_from(s, k, 0)
}

/// Whether key `k` has a cached binding.
pub open spec fn has_route(s: Seq<RouteEntry>, k: (Destination, Protocol)) -> bool {
    find_route(s, k) < s.len()
}

proof fn lemma_find_route_from(s: Seq<RouteEntry>, k: (Destination, Protocol), i: int)
    requires
        0 <= i <= s.len(),
    ensures
        i <= find_route_from(s, k, i) <= s.len(),
        find_route_from(s, k, i) < s.len() ==> key_eq(s[find_route_from(s, k, i)].key, k),
        forall|j: int| i <= j < find_route_from(s, k, i) ==> !key_eq(s[j].key, k),
    decreases s.len() - i,
{
    if i < s.len() && !key_eq(s[i].key, k) {
        lemma_find_route_from(s, k, i + 1);
    }
}

/// A cached entry's key is the key it was cached under, and no earlier entry
/// has that key.
pub proof fn lemma_find_route(s: Seq<RouteEntry>, k: (Destination, Protocol))
    ensures
        0 <= find_route(s, k) <= s.len(),
        has_route(s, k) ==> key_eq(s[find_route(s, k)].key, k),
        forall|j: int| 0 <= j < find_route(s, k) ==> !key_eq(s[j].key, k),
{
    lemma_find_route_from(s, k, 0);
}

/// Two requests with the same routing key reach the same cache entry: where
/// the cache sends one of them, it sends the other.
pub proof fn lemma_same_key_same_route(
    s: Seq<RouteEntry>,
    k1: (Destination, Protocol),
    k2: (Destination, Protocol),
)
    requires
        key_eq(k1, k2),
    ensures
        find_route(s, k1) == find_route(s, k2),
{
    lemma_same_key_same_route_from(s, k1, k2, 0);
}

proof fn lemma_same_key_same_route_from(
    s: Seq<RouteEntry>,
    k1: (Destination, Protocol),
    k2: (Destination, Protocol),
    i: int,
)
    requires
        key_eq(k1, k2),
    ensures
        find_route_from(s, k1, i) == find_route_from(s, k2, i),
    decreases s.len() - i,
{
    if 0 <= i < s.len() {
        lemma_key_eq_equivalence(s[i].key, k1, k2);
        lemma_key_eq_equivalence(s[i].key, k2, k1);
        if !key_eq(s[i].key, k1) {
            lemma_same_key_same_route_from(s, k1, k2, i + 1);
        }
    }
}

/// Two requests whose keys differ — if only in protocol — never share a
/// cached entry: each key's binding is its own.
pub proof fn lemma_distinct_keys_distinct_routes(
    s: Seq<RouteEntry>,
    k1: (Destination, Protocol),
    k2: (Destination, Protocol),
)
    requires
        !key_eq(k1, k2),
        has_route(s, k1),
        has_route(s, k2),
    ensures
        find_route(s, k1) != find_route(s, k2),
{
    lemma_find_route(s, k1);
    lemma_find_route(s, k2);
    if find_route(s, k1) == find_route(s, k2) {
        let e = s[find_route(s, k1)];
        lemma_key_eq_equivalence(e.key, k1, k2);
        lemma_key_eq_equivalence(k1, e.key, k2);
        assert(false);
    }
}

/// A request with no routing key is rejected unroutable.
pub open spec fn routable(req: RouteRequest) -> bool {
    !crate::outbound::destination_of(req, None)
}

/// Why a request could not be routed.
#[derive(Debug, Clone, Copy, PartialEq, Eq, Structural, Hash)]
pub enum RouteError {
    /// No destination could be determined: a routing failure, not a crash.
    NotRecognized,
    /// Binding the key's service failed, permanently for this key attempt.
    Bind(BufferSpawnError),
}

/// The router: computes a key per request and lazily binds or reuses one
/// service per key.
pub struct Router {
    /// Computes keys and binds services.
    pub recognize: Outbound,
    /// The demand-populated cache, keys pairwise distinct.
    pub routes: Vec<RouteEntry>,
}

impl Router {
    /// Cached keys are pairwise distinct.
    pub open spec fn wf(&self) -> bool {
        forall|i: int, j: int|
            0 <= i < j < self.routes@.len() ==> !key_eq(self.routes@[i].key, self.routes@[j].key)
    }

    /// A router starts with an empty cache.
    pub fn new(recognize: Outbound) -> (r: Router)
        ensures
            r.wf(),
            r.recognize == recognize,
            r.routes@.len() == 0,
    {
        Router { recognize, routes: Vec::new() }
    }

    /// Find the cache entry for `key`, or the cache length.
    fn index_of(&self, key: &(Destination, Protocol)) -> (r: usize)
        ensures
            r as int == find_route(self.routes@, *key),
            r <= self.routes@.len(),
            r < self.routes@.len() ==> key_eq(self.routes@[r as int].key, *key),
            forall|j: int| 0 <= j < r ==> !key_eq(self.routes@[j].key, *key),
    {
        let n: usize = self.routes.len();
        let mut i: usize = 0;
        while i < n
            invariant
                i <= n,
                n == self.routes@.len(),
                find_route(self.routes@, *key) == find_route_from(self.routes@, *key, i as int),
                forall|j: int| 0 <= j < i ==> !key_eq(self.routes@[j].key, *key),
            decreases n - i,
        {
            if key_matches(&self.routes[i].key, key) {
                assert(find_route_from(self.routes@, *key, i as int) == i as int);
                return i;
            }
            assert(find_route_from(self.routes@, *key, i as int) == find_route_from(
                self.routes@,
                *key,
                i + 1 as int,
            ));
            i = i + 1;
        }
        n
    }

    /// The service bound for `key`: at most one bind ever happens per key —
    /// a cached binding is reused untouched, and only a missing one is bound
    /// now and cached. Fails exactly when the key is unbound and the
    /// buffering stage's driving task cannot be scheduled.
    pub fn bind_route(&mut self, key: &(Destination, Protocol), executor: &Executor) -> (r: Result<
        usize,
        BufferSpawnError,
    >)
        requires
            old(self).wf(),
            old(self).routes@.len() < usize::MAX,
        ensures
            final(self).wf(),
            final(self).recognize == old(self).recognize,
            r is Err <==> (!has_route(old(self).routes@, *key) && !executor.can_spawn),
            r matches Err(e) ==> e == BufferSpawnError::Outbound && final(self).routes@ == old(
                self,
            ).routes@,
            r matches Ok(i) ==> ({
                &&& i < final(self).routes@.len()
                &&& key_eq(final(self).routes@[i as int].key, *key)
                &&& if has_route(old(self).routes@, *key) {
                    i as int == find_route(old(self).routes@, *key) && final(self).routes@ == old(
                        self,
                    ).routes@
                } else {
                    &&& i as int == old(self).routes@.len()
                    &&& final(self).routes@.len() == old(self).routes@.len() + 1
                    &&& (forall|j: int|
                        0 <= j < old(self).routes@.len() ==> final(self).routes@[j] == old(
                            self,
                        ).routes@[j])
                    &&& service_matches_key(
                        final(self).routes@[i as int].service,
                        *key,
                        old(self).recognize,
                    )
                }
            }),
    {
        let n: usize = self.routes.len();
        let i: usize = self.index_of(key);
        if i < n {
            return Ok(i);
        }
        let service: Service = match self.recognize.bind_service(key, executor) {
            Ok(s) => s,
            Err(e) => {
                return Err(e);
            },
        };
        let entry = RouteEntry { key: (clone_dst(&key.0), key.1), service };
        proof {
            lemma_key_eq_equivalence(entry.key, *key, *key);
        }
        assert(forall|j: int|
            0 <= j < self.routes@.len() ==> !key_eq(self.routes@[j].key, entry.key)) by {
            assert forall|j: int|
                0 <= j < self.routes@.len() implies !key_eq(self.routes@[j].key, entry.key) by {
                lemma_key_eq_equivalence(self.routes@[j].key, entry.key, *key);
                lemma_key_eq_equivalence(entry.key, *key, self.routes@[j].key);
            }
        }
        self.routes.push(entry);
        Ok(n)
    }

    /// Evict a key's binding: the external eviction policy ends a key's
    /// lifetime by dropping its cache entry, releasing its discovery
    /// subscription and stack with it. An uncached key is left alone.
    pub fn evict(&mut self, key: &(Destination, Protocol))
        requires
            old(self).wf(),
        ensures
            final(self).wf(),
            final(self).recognize == old(self).recognize,
            if has_route(old(self).routes@, *key) {
                final(self).routes@ == old(self).routes@.remove(
                    find_route(old(self).routes@, *key),
                )
            } else {
                final(self).routes@ == old(self).routes@
            },
    {
        let i: usize = self.index_of(key);
        if i < self.routes.len() {
            let ghost pre = self.routes@;
            let ghost k = i as int;
            self.routes.remove(i);
            proof {
                pre.remove_ensures(k);
            }
        }
    }

    /// Route one request: compute its key, then reuse or bind the key's
    /// service. An unroutable request is rejected with a routing error; a
    /// bind failure is surfaced as service-unavailable for this request.
    pub fn route(&mut self, req: &RouteRequest, executor: &Executor) -> (r: Result<
        usize,
        RouteError,
    >)
        requires
            old(self).wf(),
            old(self).routes@.len() < usize::MAX,
        ensures
            final(self).wf(),
            final(self).recognize == old(self).recognize,
            forall|j: int|
                0 <= j < old(self).routes@.len() ==> final(self).routes@[j] == old(self).routes@[j],
            old(self).routes@.len() <= final(self).routes@.len() <= old(self).routes@.len() + 1,
            r is Err ==> final(self).routes@ == old(self).routes@,
            r == Err::<usize, RouteError>(RouteError::NotRecognized) <==> !routable(*req),
            r matches Err(e) ==> (e == RouteError::NotRecognized || (e == RouteError::Bind(
                BufferSpawnError::Outbound,
            ) && !executor.can_spawn)),
            r matches Ok(i) ==> ({
                &&& i < final(self).routes@.len()
                &&& exists|k: (Destination, Protocol)|
                    crate::outbound::destination_of(*req, Some(k.0)) && k.1 == req.protocol
                        && #[trigger] key_eq(final(self).routes@[i as int].key, k)
            }),
    {
        let key: (Destination, Protocol) = match self.recognize.recognize(req) {
            Some(k) => k,
            None => {
                return Err(RouteError::NotRecognized);
            },
        };
        match self.bind_route(&key, executor) {
            Ok(i) => {
                proof {
                    lemma_key_eq_equivalence(key, key, key);
                }
                Ok(i)
            },
            Err(e) => Err(RouteError::Bind(e)),
        }
    }
}

} // verus!
