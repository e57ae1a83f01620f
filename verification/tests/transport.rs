use conduit_proxy::transport::{normalize, parse_ipv4, Host, IpAddr};

fn norm(s: &str) -> Option<(Host, u16)> {
    normalize(&s.as_bytes().to_vec(), 80).map(|hp| (hp.host, hp.port))
}

#[test]
fn authority_with_port_normalizes_exactly() {
    let (host, port) = norm("example.com:8080").unwrap();
    assert_eq!(host, Host::DnsName(b"example.com".to_vec()));
    assert_eq!(port, 8080);
}

#[test]
fn authority_without_port_gets_default() {
    let (host, port) = norm("example.com").unwrap();
    assert_eq!(host, Host::DnsName(b"example.com".to_vec()));
    assert_eq!(port, 80);
}

#[test]
fn malformed_authorities_are_absent() {
    assert!(norm("").is_none());
    assert!(norm(":80").is_none());
    assert!(norm("host:").is_none());
    assert!(norm("host:99999").is_none());
    assert!(norm("host:123456").is_none());
    assert!(norm("host:port").is_none());
    assert!(norm("user@host:80").is_none());
    assert!(norm("host:80:81").is_none());
    assert!(norm("[2001:db8::1]:80").is_none());
}

#[test]
fn ipv4_literal_host_is_an_address() {
    let (host, port) = norm("10.1.2.3:9000").unwrap();
    assert_eq!(host, Host::Ip(IpAddr::V4(10, 1, 2, 3)));
    assert_eq!(port, 9000);
}

#[test]
fn almost_ipv4_hosts_are_dns_names() {
    // A leading zero, an oversized octet, or a missing octet reads as a name.
    for s in ["01.2.3.4", "300.1.2.3", "1.2.3", "1.2.3.4.5", "1.2..3"] {
        match norm(s).unwrap().0 {
            Host::DnsName(name) => assert_eq!(name, s.as_bytes().to_vec()),
            Host::Ip(_) => panic!("{} should not read as an address", s),
        }
    }
}

#[test]
fn parse_ipv4_reads_octets() {
    assert_eq!(
        parse_ipv4(&b"255.0.17.9".to_vec()),
        Some(IpAddr::V4(255, 0, 17, 9))
    );
    assert_eq!(parse_ipv4(&b"256.0.0.1".to_vec()), None);
    assert_eq!(parse_ipv4(&b"example.com".to_vec()), None);
    assert_eq!(parse_ipv4(&b"0.0.0.0".to_vec()), Some(IpAddr::V4(0, 0, 0, 0)));
}

#[test]
fn port_allows_leading_zeros_within_length() {
    let (_, port) = norm("h:00080").unwrap();
    assert_eq!(port, 80);
    assert!(norm("h:000080").is_none());
}
