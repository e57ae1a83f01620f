use conduit_proxy::bind::{Bind, BufferSpawnError, Protocol};
use conduit_proxy::control::Resolver;
use conduit_proxy::outbound::{Destination, Outbound, RouteRequest};
use conduit_proxy::transport::DnsNameAndPort;
use conduit_proxy::router::{RouteError, Router};
use conduit_proxy::stack::Executor;

fn req(authority: &str, protocol: Protocol) -> RouteRequest {
    RouteRequest {
        uri_authority: Some(authority.as_bytes().to_vec()),
        host_header: None,
        server: None,
        protocol,
    }
}

fn router() -> Router {
    Router::new(Outbound::new(Bind { proxy: 1 }, Resolver, 3_000))
}

const GO: Executor = Executor { can_spawn: true };

#[test]
fn identical_keys_reuse_the_same_bound_instance() {
    let mut r = router();
    let i1 = r.route(&req("svc:80", Protocol::Http1), &GO).unwrap();
    let i2 = r.route(&req("svc:80", Protocol::Http1), &GO).unwrap();
    assert_eq!(i1, i2);
    assert_eq!(r.routes.len(), 1);
}

#[test]
fn keys_differing_only_in_protocol_get_distinct_instances() {
    let mut r = router();
    let i1 = r.route(&req("svc:80", Protocol::Http1), &GO).unwrap();
    let i2 = r.route(&req("svc:80", Protocol::Http2), &GO).unwrap();
    assert_ne!(i1, i2);
    assert_eq!(r.routes.len(), 2);
    // Each later request still reaches its own instance.
    assert_eq!(r.route(&req("svc:80", Protocol::Http1), &GO).unwrap(), i1);
    assert_eq!(r.route(&req("svc:80", Protocol::Http2), &GO).unwrap(), i2);
}

#[test]
fn distinct_destinations_get_distinct_instances() {
    let mut r = router();
    let i1 = r.route(&req("svc-a:80", Protocol::Http1), &GO).unwrap();
    let i2 = r.route(&req("svc-b:80", Protocol::Http1), &GO).unwrap();
    assert_ne!(i1, i2);
    assert_eq!(r.routes.len(), 2);
}

#[test]
fn unroutable_request_is_rejected_with_a_routing_error() {
    let mut r = router();
    let nowhere = RouteRequest {
        uri_authority: None,
        host_header: None,
        server: None,
        protocol: Protocol::Http1,
    };
    assert_eq!(r.route(&nowhere, &GO), Err(RouteError::NotRecognized));
    assert_eq!(r.routes.len(), 0);
}

#[test]
fn eviction_ends_a_key_and_a_later_request_rebinds() {
    let mut r = router();
    r.route(&req("svc:80", Protocol::Http1), &GO).unwrap();
    let key = (
        Destination::Hostname(DnsNameAndPort { host: b"svc".to_vec(), port: 80 }),
        Protocol::Http1,
    );
    r.evict(&key);
    assert_eq!(r.routes.len(), 0);
    // Evicting an uncached key changes nothing.
    r.evict(&key);
    assert_eq!(r.routes.len(), 0);
    assert!(r.route(&req("svc:80", Protocol::Http1), &GO).is_ok());
    assert_eq!(r.routes.len(), 1);
}

#[test]
fn bind_failure_is_service_unavailable_not_cached() {
    let mut r = router();
    let halt = Executor { can_spawn: false };
    assert_eq!(
        r.route(&req("svc:80", Protocol::Http1), &halt),
        Err(RouteError::Bind(BufferSpawnError::Outbound))
    );
    assert_eq!(r.routes.len(), 0);
    // The failure is per attempt: a later request may bind.
    assert!(r.route(&req("svc:80", Protocol::Http1), &GO).is_ok());
    assert_eq!(r.routes.len(), 1);
}
