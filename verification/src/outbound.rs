//! Outbound routing: resolve each request's logical destination, compute its
//! routing key, and lazily bind one load-balanced, backpressure-wrapped
//! service per key; adapt the two destination kinds into one uniform
//! endpoint-change stream.

use crate::balance::Balancer;
use crate::balance::Change;
use crate::balance::DEFAULT_DECAY_MS;
use crate::bind::Bind;
use crate::bind::BindProtocol;
use crate::bind::BufferSpawnError;
use crate::bind::Endpoint;
use crate::bind::Protocol;
use crate::control::Resolution;
use crate::control::Resolver;
use crate::ctx::Server;
use crate::ctx::orig_dst_if_not_local_spec;
use crate::stack::Buffer;
use crate::stack::Executor;
use crate::stack::InFlightLimit;
use crate::stack::MAX_IN_FLIGHT;
use crate::transport::DnsNameAndPort;
use crate::transport::Host;
use crate::transport::HostAndPort;
use crate::transport::SocketAddr;
use crate::transport::authority_port;
use crate::transport::clone_bytes;
use crate::transport::decimal_value;
use crate::transport::has_port_part;
use crate::transport::port_seq;
use crate::transport::hp_matches;
use crate::transport::host_seq;
use crate::transport::ipv4_of;
use crate::transport::is_ipv4_seq;
use crate::transport::is_valid_authority;
use crate::transport::normalize;
use vstd::prelude::*;

verus! {

/// The port assumed when an authority names none.
pub const DEFAULT_PORT: u16 = 80;

/// A request's logical destination, the routed half of its routing key.
#[derive(Debug, Clone, PartialEq, Eq, Hash)]
pub enum Destination {
    /// Routed by name through the naming service.
    Hostname(DnsNameAndPort),
    /// Routed directly to one concrete address.
    ImplicitOriginalDst(SocketAddr),
}

/// What the routing layer reads of an already-parsed request: the URI's
/// authority and the `Host` header as raw bytes, the receiving server's
/// transport context, and the detected protocol.
#[derive(Debug, Clone, PartialEq, Eq, Hash)]
pub struct RouteRequest {
    /// The authority part of the request URI, if the URI carries one.
    pub uri_authority: Option<Vec<u8>>,
    /// The value of the `Host` header, if the request carries one.
    pub host_header: Option<Vec<u8>>,
    /// The transport context of the connection the request arrived on.
    pub server: Option<Server>,
    /// The protocol the request was detected to speak.
    pub protocol: Protocol,
}

/// The authority bytes, if they form a valid authority.
pub open spec fn valid_auth_of(v: Option<Vec<u8>>) -> Option<Seq<u8>> {
    match v {
        Some(a) => if is_valid_authority(a@) {
            Some(a@)
        } else {
            None
        },
        None => None,
    }
}

/// The authority a request is routed by: the URI's, if valid, else the
/// `Host` header's, if valid, else none.
pub open spec fn authority_source(req: RouteRequest) -> Option<Seq<u8>> {
    if valid_auth_of(req.uri_authority) is Some {
        valid_auth_of(req.uri_authority)
    } else {
        valid_auth_of(req.host_header)
    }
}

/// The destination an authority denotes: an IPv4-literal host is routed
/// directly to that address; any other host is routed by name. The port
/// defaults to `DEFAULT_PORT` where the authority names none.
pub open spec fn dst_matches_authority(d: Destination, s: Seq<u8>) -> bool {
    if is_ipv4_seq(host_seq(s)) {
        d == Destination::ImplicitOriginalDst(
            SocketAddr { ip: ipv4_of(host_seq(s)), port: authority_port(s, DEFAULT_PORT) as u16 },
        )
    } else {
        d matches Destination::Hostname(n) && n.host@ == host_seq(s) && n.port as int
            == authority_port(s, DEFAULT_PORT)
    }
}

/// What `destination` must return for `req`: the destination of the first
/// valid authority; else the connection's captured original destination if
/// present and not local; else none.
pub open spec fn destination_of(req: RouteRequest, r: Option<Destination>) -> bool {
    match authority_source(req) {
        Some(s) => r matches Some(d) && dst_matches_authority(d, s),
        None => match req.server {
            Some(sv) => (match orig_dst_if_not_local_spec(sv) {
                Some(a) => r == Some(Destination::ImplicitOriginalDst(a)),
                None => r is None,
            }),
            None => r is None,
        },
    }
}

/// The outbound router: recognizes a routing key per request and binds one
/// service per key.
#[derive(Debug, Clone, Copy, PartialEq, Eq, Structural, Hash)]
pub struct Outbound {
    /// The handle endpoints are bound through.
    pub bind: Bind,
    /// The naming-service client.
    pub discovery: Resolver,
    /// The per-request timeout of every bound service, in milliseconds.
    pub bind_timeout_ms: u64,
}

impl Outbound {
    /// Assemble the router from its collaborators.
    pub fn new(bind: Bind, discovery: Resolver, bind_timeout_ms: u64) -> (r: Outbound)
        ensures
            r.bind == bind,
            r.discovery == discovery,
            r.bind_timeout_ms == bind_timeout_ms,
    {
        Outbound { bind, discovery, bind_timeout_ms }
    }

    /// The logical host and port of the request: the URI's authority if it is
    /// valid, else the `Host` header's; the port defaults to `DEFAULT_PORT`.
    pub fn host_port(req: &RouteRequest) -> (r: Option<HostAndPort>)
        ensures
            r is Some <==> authority_source(*req) is Some,
            r matches Some(hp) ==> (authority_source(*req) matches Some(s) && hp_matches(
                hp,
                s,
                DEFAULT_PORT,
            )),
    {
        if let Some(a) = &req.uri_authority {
            if let Some(hp) = normalize(a, DEFAULT_PORT) {
                return Some(hp);
            }
        }
        match &req.host_header {
            Some(h) => normalize(h, DEFAULT_PORT),
            None => None,
        }
    }

    /// Determine the destination to use in the router, by first match: a
    /// valid URI authority, else a valid `Host` header, else the connection's
    /// captured original destination when present and not local, else none —
    /// the caller must then reject the request as unroutable.
    pub fn destination(req: &RouteRequest) -> (r: Option<Destination>)
        ensures
            destination_of(*req, r),
    {
        match Self::host_port(req) {
            Some(hp) => match hp.host {
                Host::DnsName(host) => Some(
                    Destination::Hostname(DnsNameAndPort { host, port: hp.port }),
                ),
                Host::Ip(ip) => Some(
                    Destination::ImplicitOriginalDst(SocketAddr { ip, port: hp.port }),
                ),
            },
            None => match &req.server {
                Some(sv) => match sv.orig_dst_if_not_local() {
                    Some(a) => Some(Destination::ImplicitOriginalDst(a)),
                    None => None,
                },
                None => None,
            },
        }
    }

    /// Compute the request's routing key: its destination and its protocol,
    /// so that endpoints speaking different protocols are never mixed into
    /// one pool. A request with no destination is unroutable.
    pub fn recognize(&self, req: &RouteRequest) -> (r: Option<(Destination, Protocol)>)
        ensures
            match r {
                Some(k) => destination_of(*req, Some(k.0)) && k.1 == req.protocol,
                None => destination_of(*req, None),
            },
    {
        match Self::destination(req) {
            Some(d) => Some((d, req.protocol)),
            None => None,
        }
    }

    /// Build the dynamic, load-balancing service of one key: a discovery
    /// stream for the destination, an empty balancer over it, and the
    /// backpressure stack around both. Binding never blocks: the endpoint
    /// set is populated later, change by change. It fails, permanently for
    /// this attempt, exactly when the buffering stage's driving task cannot
    /// be scheduled.
    pub fn bind_service(&self, key: &(Destination, Protocol), executor: &Executor) -> (r: Result<
        Service,
        BufferSpawnError,
    >)
        ensures
            r is Err <==> !executor.can_spawn,
            r matches Err(e) ==> e == BufferSpawnError::Outbound,
            r matches Ok(s) ==> service_matches_key(s, *key, *self),
    {
        let discovery: Discovery = match &key.0 {
            Destination::Hostname(authority) => {
                let auth = DnsNameAndPort {
                    host: clone_bytes(&authority.host),
                    port: authority.port,
                };
                Discovery::NamedSvc(self.discovery.resolve(auth, self.bind.with_protocol(key.1)))
            },
            Destination::ImplicitOriginalDst(addr) => {
                Discovery::ImplicitOriginalDst(Some((*addr, self.bind.with_protocol(key.1))))
            },
        };
        let buffer: Buffer = match Buffer::new(executor) {
            Ok(b) => b,
            Err(()) => {
                return Err(BufferSpawnError::Outbound);
            },
        };
        Ok(
            Service {
                discovery,
                balancer: Balancer::new(DEFAULT_DECAY_MS),
                buffer,
                limit: InFlightLimit::new(MAX_IN_FLIGHT),
                timeout_ms: self.bind_timeout_ms,
            },
        )
    }
}

/// The bound service of one routing key: its discovery stream, its balancer,
/// and the backpressure stack around them.
#[derive(Debug)]
pub struct Service {
    /// The uniform endpoint-change stream for the key's destination.
    pub discovery: Discovery,
    /// The live endpoint set and per-endpoint load.
    pub balancer: Balancer,
    /// Single-flight buffering in front of the balancer.
    pub buffer: Buffer,
    /// The concurrency cap.
    pub limit: InFlightLimit,
    /// The per-request timeout, in milliseconds.
    pub timeout_ms: u64,
}

/// A request admitted into a key's backpressure stack, remembering when it
/// started so its deadline can be checked.
#[derive(Debug, Clone, Copy, PartialEq, Eq, Structural, Hash)]
pub struct Ticket {
    pub start_ms: u64,
}

/// Rejected immediately by the concurrency cap — never queued.
#[derive(Debug, Clone, Copy, PartialEq, Eq, Structural, Hash)]
pub struct Rejected;

impl Service {
    /// A request enters the stack: the concurrency cap decides first and
    /// immediately. Beyond the cap the request is rejected on the spot,
    /// touching nothing; admitted, it takes one in-flight slot and carries
    /// its start time toward the timeout stage.
    pub fn start_request(&mut self, now_ms: u64) -> (r: Result<Ticket, Rejected>)
        ensures
            r is Ok <==> crate::stack::admits(old(self).limit),
            r is Err ==> *final(self) == *old(self),
            r matches Ok(t) ==> ({
                &&& t.start_ms == now_ms
                &&& final(self).limit.in_flight == old(self).limit.in_flight + 1
                &&& final(self).limit.max == old(self).limit.max
                &&& final(self).discovery == old(self).discovery
                &&& final(self).balancer == old(self).balancer
                &&& final(self).buffer == old(self).buffer
                &&& final(self).timeout_ms == old(self).timeout_ms
            }),
    {
        if self.limit.try_start() {
            Ok(Ticket { start_ms: now_ms })
        } else {
            Err(Rejected)
        }
    }

    /// Whether an admitted request has passed its deadline at `now_ms`: its
    /// start plus this key's configured timeout.
    pub fn request_timed_out(&self, t: &Ticket, now_ms: u64) -> (r: bool)
        ensures
            r == (now_ms as int >= t.start_ms as int + self.timeout_ms as int),
    {
        crate::stack::timed_out(t.start_ms, self.timeout_ms, now_ms)
    }

    /// An admitted request leaves the stack — answered, failed or timed out —
    /// and frees its in-flight slot; other requests on the key are
    /// unaffected.
    pub fn finish_request(&mut self)
        requires
            old(self).limit.in_flight > 0,
        ensures
            final(self).limit.in_flight == old(self).limit.in_flight - 1,
            final(self).limit.max == old(self).limit.max,
            final(self).discovery == old(self).discovery,
            final(self).balancer == old(self).balancer,
            final(self).buffer == old(self).buffer,
            final(self).timeout_ms == old(self).timeout_ms,
    {
        self.limit.finish();
    }
}

/// What a freshly bound service of `key` under router `o` looks like: a
/// discovery stream for exactly the key's destination and protocol, an empty
/// balancer with the default decay, an idle buffer, the full concurrency cap
/// free, and the router's timeout.
pub open spec fn service_matches_key(s: Service, key: (Destination, Protocol), o: Outbound) -> bool {
    &&& match key.0 {
        Destination::Hostname(n) => s.discovery matches Discovery::NamedSvc(res)
            && res.authority.host@ == n.host@ && res.authority.port == n.port && res.bind
            == (BindProtocol { proxy: o.bind.proxy, protocol: key.1 }),
        Destination::ImplicitOriginalDst(a) => s.discovery == Discovery::ImplicitOriginalDst(
            Some((a, BindProtocol { proxy: o.bind.proxy, protocol: key.1 })),
        ),
    }
    &&& s.balancer.wf()
    &&& s.balancer.entries@.len() == 0
    &&& s.balancer.decay_ms == DEFAULT_DECAY_MS
    &&& !s.buffer.in_call
    &&& s.limit.max == MAX_IN_FLIGHT
    &&& s.limit.in_flight == 0
    &&& s.timeout_ms == o.bind_timeout_ms
}

/// The uniform "next endpoint-set change" stream over the two destination
/// kinds: an active naming-service subscription, or one fixed address still
/// to be delivered (`Some`) or already delivered (`None`).
#[derive(Debug)]
pub enum Discovery {
    /// An active subscription for a named destination.
    NamedSvc(Resolution),
    /// A fixed address: pending delivery, or exhausted.
    ImplicitOriginalDst(Option<(SocketAddr, BindProtocol)>),
}

/// What the naming-service subscription yielded for one poll.
#[derive(Debug, Clone, Copy, PartialEq, Eq, Structural, Hash)]
pub enum NamedEvent {
    /// No change yet.
    NotReady,
    /// The service resolved and bound a new endpoint at an address.
    Insert(SocketAddr, Endpoint),
    /// An address left the set.
    Remove(SocketAddr),
    /// The subscription failed.
    Failed,
}

/// The runtime's outcome of constructing the endpoint for a fixed address.
#[derive(Debug, Clone, Copy, PartialEq, Eq, Structural, Hash)]
pub enum BindOutcome {
    Bound(Endpoint),
    Failed,
}

/// What the runtime observed for one poll of a discovery stream.
#[derive(Debug, Clone, Copy, PartialEq, Eq, Structural, Hash)]
pub enum PollEvent {
    Named(NamedEvent),
    Implicit(BindOutcome),
}

/// One poll's answer: no change yet, one ordered change, or a fatal error.
#[derive(Debug, Clone, Copy, PartialEq, Eq, Structural, Hash)]
pub enum PollResult {
    NotReady,
    Ready(Change),
    Failed(BindError),
}

/// A permanent per-key bind failure, surfaced as a service-unavailable
/// condition to the requests that triggered the bind — never process-fatal.
#[derive(Debug, Clone, Copy, PartialEq, Eq, Structural, Hash)]
pub enum BindError {
    /// Constructing the endpoint for a fixed external address failed.
    External { addr: SocketAddr },
    /// Setting up the subscription or its executor failed.
    Internal,
}

impl BindError {
    /// A short description of the failure.
    pub fn description(&self) -> (r: String)
        ensures
            *self matches BindError::External { .. } ==> r@ == "binding external service failed"@,
            *self is Internal ==> r@ == "binding internal service failed"@,
    {
        match self {
            BindError::External { .. } => "binding external service failed".to_owned(),
            BindError::Internal => "binding internal service failed".to_owned(),
        }
    }
}

/// Whether an observed event belongs to this discovery state: a subscription
/// yields named events; a fixed address yields bind outcomes, and a bound
/// endpoint must be the one built for the pending address and its protocol.
pub open spec fn event_fits(d: Discovery, e: PollEvent) -> bool {
    match (d, e) {
        (Discovery::NamedSvc(_), PollEvent::Named(_)) => true,
        (Discovery::ImplicitOriginalDst(slot), PollEvent::Implicit(out)) => match (slot, out) {
            (Some((addr, bp)), BindOutcome::Bound(ep)) => ep.addr == addr && ep.protocol
                == bp.protocol,
            _ => true,
        },
        _ => false,
    }
}

/// The discovery adapter's transition: the state after one poll and what the
/// poll yields.
pub open spec fn poll_spec(d: Discovery, e: PollEvent) -> (Discovery, PollResult) {
    match d {
        Discovery::NamedSvc(res) => (
            Discovery::NamedSvc(res),
            match e {
                PollEvent::Named(NamedEvent::NotReady) => PollResult::NotReady,
                PollEvent::Named(NamedEvent::Insert(a, ep)) => PollResult::Ready(
                    Change::Insert(a, ep),
                ),
                PollEvent::Named(NamedEvent::Remove(a)) => PollResult::Ready(Change::Remove(a)),
                PollEvent::Named(NamedEvent::Failed) => PollResult::Failed(BindError::Internal),
                PollEvent::Implicit(_) => PollResult::NotReady,
            },
        ),
        Discovery::ImplicitOriginalDst(slot) => match slot {
            None => (Discovery::ImplicitOriginalDst(None), PollResult::NotReady),
            Some((addr, bp)) => match e {
                PollEvent::Implicit(BindOutcome::Bound(ep)) => (
                    Discovery::ImplicitOriginalDst(None),
                    PollResult::Ready(Change::Insert(addr, ep)),
                ),
                PollEvent::Implicit(BindOutcome::Failed) => (
                    Discovery::ImplicitOriginalDst(None),
                    PollResult::Failed(BindError::External { addr }),
                ),
                PollEvent::Named(_) => (
                    Discovery::ImplicitOriginalDst(Some((addr, bp))),
                    PollResult::NotReady,
                ),
            },
        },
    }
}

impl Discovery {
    /// Poll for the next endpoint-set change, handing in what the runtime
    /// observed. A subscription's yield passes through, any subscription
    /// failure becoming an internal bind error. A pending fixed address is
    /// delivered as exactly one insert on success, or one external bind
    /// error on failure; either way the slot is cleared, and an exhausted
    /// slot answers not-ready forever after.
    pub fn poll(&mut self, e: PollEvent) -> (r: PollResult)
        requires
            event_fits(*old(self), e),
        ensures
            (*final(self), r) == poll_spec(*old(self), e),
    {
        match self {
            Discovery::NamedSvc(_) => match e {
                PollEvent::Named(NamedEvent::NotReady) => PollResult::NotReady,
                PollEvent::Named(NamedEvent::Insert(a, ep)) => PollResult::Ready(
                    Change::Insert(a, ep),
                ),
                PollEvent::Named(NamedEvent::Remove(a)) => PollResult::Ready(Change::Remove(a)),
                PollEvent::Named(NamedEvent::Failed) => PollResult::Failed(BindError::Internal),
                PollEvent::Implicit(_) => PollResult::NotReady,
            },
            Discovery::ImplicitOriginalDst(slot) => match *slot {
                None => PollResult::NotReady,
                Some((addr, _)) => match e {
                    PollEvent::Implicit(BindOutcome::Bound(ep)) => {
                        *slot = None;
                        PollResult::Ready(Change::Insert(addr, ep))
                    },
                    PollEvent::Implicit(BindOutcome::Failed) => {
                        *slot = None;
                        PollResult::Failed(BindError::External { addr })
                    },
                    PollEvent::Named(_) => PollResult::NotReady,
                },
            },
        }
    }
}

/// For a request routed by an authority whose host is a DNS name, the
/// destination is exactly that hostname with the authority's port; where the
/// authority names no port, exactly the default port.
pub proof fn lemma_hostname_destination(d: Destination, s: Seq<u8>)
    requires
        dst_matches_authority(d, s),
        !is_ipv4_seq(host_seq(s)),
    ensures
        d matches Destination::Hostname(n) && n.host@ == host_seq(s) && (if has_port_part(s) {
            n.port as int == decimal_value(port_seq(s))
        } else {
            n.port == DEFAULT_PORT
        }),
{
}

/// For a request lacking both a valid URI authority and a valid `Host`
/// header, the destination is the connection's captured original destination
/// exactly when one is present and not local, and none otherwise.
pub proof fn lemma_fallback_destination(req: RouteRequest, r: Option<Destination>)
    requires
        destination_of(req, r),
        authority_source(req) is None,
    ensures
        match req.server {
            Some(sv) => match orig_dst_if_not_local_spec(sv) {
                Some(a) => r == Some(Destination::ImplicitOriginalDst(a)),
                None => r is None,
            },
            None => r is None,
        },
{
}

/// An exhausted fixed-address adapter answers every further poll with
/// not-ready and never changes again: delivery is idempotent exhaustion, not
/// an error.
pub proof fn lemma_implicit_exhausted_never_ready(e: PollEvent)
    ensures
        poll_spec(Discovery::ImplicitOriginalDst(None), e) == (
            Discovery::ImplicitOriginalDst(None),
            PollResult::NotReady,
        ),
{
}

/// A fixed-address adapter emits at most one change — or one error — across
/// its entire lifetime: any poll that yields anything but not-ready leaves
/// the slot exhausted, and by the lemma above it stays so forever.
pub proof fn lemma_implicit_single_delivery(d: Discovery, e: PollEvent)
    requires
        d is ImplicitOriginalDst,
        !(poll_spec(d, e).1 is NotReady),
    ensures
        poll_spec(d, e).0 == Discovery::ImplicitOriginalDst(None),
{
}

} // verus!
