use conduit_proxy::balance::Change;
use conduit_proxy::bind::{Bind, BufferSpawnError, Endpoint, Protocol};
use conduit_proxy::control::Resolver;
use conduit_proxy::ctx::Server;
use conduit_proxy::outbound::{
    BindError, BindOutcome, Destination, Discovery, NamedEvent, Outbound, PollEvent, PollResult,
    RouteRequest,
};
use conduit_proxy::stack::{Executor, MAX_IN_FLIGHT};
use conduit_proxy::transport::{DnsNameAndPort, IpAddr, SocketAddr};

fn addr(last: u8, port: u16) -> SocketAddr {
    SocketAddr { ip: IpAddr::V4(10, 0, 0, last), port }
}

fn req(uri: Option<&str>, host: Option<&str>, server: Option<Server>) -> RouteRequest {
    RouteRequest {
        uri_authority: uri.map(|s| s.as_bytes().to_vec()),
        host_header: host.map(|s| s.as_bytes().to_vec()),
        server,
        protocol: Protocol::Http1,
    }
}

fn server_with(orig_dst: Option<SocketAddr>) -> Server {
    Server { proxy: 1, local: addr(1, 4140), remote: addr(2, 50000), orig_dst }
}

fn outbound() -> Outbound {
    Outbound::new(Bind { proxy: 1 }, Resolver, 3_000)
}

#[test]
fn destination_uses_uri_authority() {
    let d = Outbound::destination(&req(Some("svc.ns:7000"), None, None)).unwrap();
    assert_eq!(
        d,
        Destination::Hostname(DnsNameAndPort { host: b"svc.ns".to_vec(), port: 7000 })
    );
}

#[test]
fn destination_defaults_port_to_80() {
    let d = Outbound::destination(&req(Some("svc"), None, None)).unwrap();
    assert_eq!(
        d,
        Destination::Hostname(DnsNameAndPort { host: b"svc".to_vec(), port: 80 })
    );
}

#[test]
fn destination_falls_back_to_host_header() {
    let d = Outbound::destination(&req(None, Some("web:81"), None)).unwrap();
    assert_eq!(
        d,
        Destination::Hostname(DnsNameAndPort { host: b"web".to_vec(), port: 81 })
    );
}

#[test]
fn malformed_uri_authority_falls_back_to_host_header() {
    let d = Outbound::destination(&req(Some("bad//auth"), Some("web"), None)).unwrap();
    assert_eq!(
        d,
        Destination::Hostname(DnsNameAndPort { host: b"web".to_vec(), port: 80 })
    );
}

#[test]
fn ip_literal_authority_routes_directly() {
    let d = Outbound::destination(&req(Some("10.0.0.9:9090"), None, None)).unwrap();
    assert_eq!(d, Destination::ImplicitOriginalDst(addr(9, 9090)));
    let d = Outbound::destination(&req(Some("10.0.0.9"), None, None)).unwrap();
    assert_eq!(d, Destination::ImplicitOriginalDst(addr(9, 80)));
}

#[test]
fn destination_uses_orig_dst_iff_present_and_not_local() {
    let orig = addr(7, 8080);
    // Present and not local: used.
    let d = Outbound::destination(&req(None, None, Some(server_with(Some(orig)))));
    assert_eq!(d, Some(Destination::ImplicitOriginalDst(orig)));
    // Present but local: none.
    let local = server_with(None).local;
    let d = Outbound::destination(&req(None, None, Some(server_with(Some(local)))));
    assert_eq!(d, None);
    // Absent: none.
    assert_eq!(Outbound::destination(&req(None, None, Some(server_with(None)))), None);
    // No server context at all: none.
    assert_eq!(Outbound::destination(&req(None, None, None)), None);
}

#[test]
fn recognize_pairs_destination_with_protocol() {
    let o = outbound();
    let mut r = req(Some("svc:1"), None, None);
    r.protocol = Protocol::Http2;
    let (d, p) = o.recognize(&r).unwrap();
    assert_eq!(p, Protocol::Http2);
    assert_eq!(
        d,
        Destination::Hostname(DnsNameAndPort { host: b"svc".to_vec(), port: 1 })
    );
    assert!(o.recognize(&req(None, None, None)).is_none());
}

#[test]
fn bind_service_builds_the_stack() {
    let o = outbound();
    let key = (
        Destination::Hostname(DnsNameAndPort { host: b"svc".to_vec(), port: 1 }),
        Protocol::Http1,
    );
    let s = o.bind_service(&key, &Executor { can_spawn: true }).unwrap();
    match s.discovery {
        Discovery::NamedSvc(res) => {
            assert_eq!(res.authority.host, b"svc".to_vec());
            assert_eq!(res.authority.port, 1);
            assert_eq!(res.bind.protocol, Protocol::Http1);
        }
        Discovery::ImplicitOriginalDst(_) => panic!("a hostname key subscribes by name"),
    }
    assert_eq!(s.limit.max, MAX_IN_FLIGHT);
    assert_eq!(s.limit.in_flight, 0);
    assert_eq!(s.timeout_ms, 3_000);
    assert_eq!(s.balancer.entries.len(), 0);
}

#[test]
fn bind_service_fails_when_spawn_fails() {
    let o = outbound();
    let key = (Destination::ImplicitOriginalDst(addr(3, 80)), Protocol::Http1);
    let r = o.bind_service(&key, &Executor { can_spawn: false });
    assert_eq!(r.err(), Some(BufferSpawnError::Outbound));
}

#[test]
fn implicit_discovery_emits_exactly_one_insert() {
    let a = addr(3, 80);
    let o = outbound();
    let key = (Destination::ImplicitOriginalDst(a), Protocol::Http1);
    let s = o.bind_service(&key, &Executor { can_spawn: true }).unwrap();
    let mut d = s.discovery;
    let ep = Endpoint { addr: a, protocol: Protocol::Http1 };
    let first = d.poll(PollEvent::Implicit(BindOutcome::Bound(ep)));
    assert_eq!(first, PollResult::Ready(Change::Insert(a, ep)));
    // Every poll thereafter returns not-ready, indefinitely.
    for _ in 0..5 {
        assert_eq!(
            d.poll(PollEvent::Implicit(BindOutcome::Bound(ep))),
            PollResult::NotReady
        );
    }
}

#[test]
fn implicit_discovery_bind_failure_clears_the_slot() {
    let a = addr(4, 443);
    let mut d = Discovery::ImplicitOriginalDst(Some((
        a,
        Bind { proxy: 1 }.with_protocol(Protocol::Http2),
    )));
    assert_eq!(
        d.poll(PollEvent::Implicit(BindOutcome::Failed)),
        PollResult::Failed(BindError::External { addr: a })
    );
    assert_eq!(
        d.poll(PollEvent::Implicit(BindOutcome::Failed)),
        PollResult::NotReady
    );
}

#[test]
fn named_discovery_passes_subscription_events_through() {
    let o = outbound();
    let key = (
        Destination::Hostname(DnsNameAndPort { host: b"svc".to_vec(), port: 1 }),
        Protocol::Http1,
    );
    let s = o.bind_service(&key, &Executor { can_spawn: true }).unwrap();
    let mut d = s.discovery;
    let a = addr(5, 80);
    let ep = Endpoint { addr: a, protocol: Protocol::Http1 };
    assert_eq!(d.poll(PollEvent::Named(NamedEvent::NotReady)), PollResult::NotReady);
    assert_eq!(
        d.poll(PollEvent::Named(NamedEvent::Insert(a, ep))),
        PollResult::Ready(Change::Insert(a, ep))
    );
    assert_eq!(
        d.poll(PollEvent::Named(NamedEvent::Remove(a))),
        PollResult::Ready(Change::Remove(a))
    );
    // Any subscription failure becomes an internal bind error.
    assert_eq!(
        d.poll(PollEvent::Named(NamedEvent::Failed)),
        PollResult::Failed(BindError::Internal)
    );
}

#[test]
fn cap_plus_first_request_on_a_key_is_rejected_immediately() {
    let o = outbound();
    let key = (Destination::ImplicitOriginalDst(addr(8, 80)), Protocol::Http1);
    let mut s = o.bind_service(&key, &Executor { can_spawn: true }).unwrap();
    for _ in 0..MAX_IN_FLIGHT {
        assert!(s.start_request(0).is_ok());
    }
    // The (cap+1)-th concurrent request is rejected at once, not queued.
    assert!(s.start_request(0).is_err());
    assert_eq!(s.limit.in_flight, MAX_IN_FLIGHT);
    // One completion frees exactly one slot.
    s.finish_request();
    assert!(s.start_request(5).is_ok());
}

#[test]
fn request_deadline_uses_the_bound_timeout() {
    let o = outbound();
    let key = (Destination::ImplicitOriginalDst(addr(8, 80)), Protocol::Http1);
    let mut s = o.bind_service(&key, &Executor { can_spawn: true }).unwrap();
    let t = s.start_request(1_000).unwrap();
    assert!(!s.request_timed_out(&t, 3_999));
    assert!(s.request_timed_out(&t, 4_000));
    s.finish_request();
    assert_eq!(s.limit.in_flight, 0);
}

#[test]
fn bind_error_descriptions() {
    assert_eq!(
        BindError::External { addr: addr(1, 1) }.description(),
        "binding external service failed"
    );
    assert_eq!(BindError::Internal.description(), "binding internal service failed");
}
