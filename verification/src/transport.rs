//! Addresses, hosts, and the authority grammar used to resolve destinations.
//!
//! An authority is accepted in the form `host` or `host:port`, where `host`
//! is one or more ASCII letters, digits, `-`, `.`, `_` or `~`, and `port` is
//! one to five ASCII digits with value at most 65535. A host that reads as a
//! dotted-quad IPv4 literal (four octets, each `0`..`255`, no leading zeros)
//! is classified as an IP address; any other valid host is a DNS name.
//! Anything else is malformed and treated as absent.

use vstd::prelude::*;

verus! {

/// An IP address as plain values.
#[derive(Debug, Clone, Copy, PartialEq, Eq, Structural, Hash)]
pub enum IpAddr {
    V4(u8, u8, u8, u8),
    V6(u128),
}

/// A transport address: an IP address and a port.
#[derive(Debug, Clone, Copy, PartialEq, Eq, Structural, Hash)]
pub struct SocketAddr {
    pub ip: IpAddr,
    pub port: u16,
}

/// A host from an authority: a DNS name or an IP literal.
#[derive(Debug, Clone, PartialEq, Eq, Hash)]
pub enum Host {
    DnsName(Vec<u8>),
    Ip(IpAddr),
}

/// A normalized authority: a host and an explicit port.
#[derive(Debug, Clone, PartialEq, Eq, Hash)]
pub struct HostAndPort {
    pub host: Host,
    pub port: u16,
}

/// A DNS name and a port, the key of a naming-service subscription.
#[derive(Debug, Clone, PartialEq, Eq, Hash)]
pub struct DnsNameAndPort {
    pub host: Vec<u8>,
    pub port: u16,
}

/// An ASCII decimal digit.
pub open spec fn is_digit(b: u8) -> bool {
    48 <= b <= 57
}

/// A byte allowed in a host: ASCII letters, digits, `-`, `.`, `_`, `~`.
pub open spec fn is_host_byte(b: u8) -> bool {
    ||| is_digit(b)
    ||| 97 <= b <= 122
    ||| 65 <= b <= 90
    ||| b == 45
    ||| b == 46
    ||| b == 95
    ||| b == 126
}

/// A nonempty run of host bytes.
pub open spec fn is_host_seq(s: Seq<u8>) -> bool {
    s.len() > 0 && forall|i: int| 0 <= i < s.len() ==> is_host_byte(s[i])
}

/// Every byte of `s` is a digit.
pub open spec fn all_digits(s: Seq<u8>) -> bool {
    forall|i: int| 0 <= i < s.len() ==> is_digit(s[i])
}

/// The base-10 value of a digit run.
pub open spec fn decimal_value(s: Seq<u8>) -> int
    decreases s.len(),
{
    if s.len() == 0 {
        0
    } else {
        decimal_value(s.drop_last()) * 10 + (s.last() - 48)
    }
}

/// A valid port: one to five digits with value at most 65535.
pub open spec fn is_port_seq(s: Seq<u8>) -> bool {
    1 <= s.len() <= 5 && all_digits(s) && decimal_value(s) <= 65535
}

/// A valid IPv4 octet: one to three digits, value at most 255, and no
/// leading zero.
pub open spec fn is_octet_seq(s: Seq<u8>) -> bool {
    &&& 1 <= s.len() <= 3
    &&& all_digits(s)
    &&& decimal_value(s) <= 255
    &&& (s.len() > 1 ==> s[0] != 48)
}

/// The index of the first occurrence of `b` in `s` at or after `i`, or
/// `s.len()` if there is none.
pub open spec fn first_byte_from(s: Seq<u8>, b: u8, i: int) -> int
    decreases s.len() - i,
{
    if i < 0 || i >= s.len() {
        s.len() as int
    } else if s[i] == b {
        i
    } else {
        first_byte_from(s, b, i + 1)
    }
}

/// The index of the first occurrence of `b` in `s`, or `s.len()`.
pub open spec fn first_byte(s: Seq<u8>, b: u8) -> int {
    first_byte_from(s, b, 0)
}

/// Index of the first `.` of a host.
pub open spec fn dot1(s: Seq<u8>) -> int {
    first_byte(s, 46)
}

/// Index of the second `.` of a host.
pub open spec fn dot2(s: Seq<u8>) -> int {
    first_byte_from(s, 46, dot1(s) + 1)
}

/// Index of the third `.` of a host.
pub open spec fn dot3(s: Seq<u8>) -> int {
    first_byte_from(s, 46, dot2(s) + 1)
}

/// A dotted-quad IPv4 literal: four valid octets separated by three dots.
pub open spec fn is_ipv4_seq(s: Seq<u8>) -> bool {
    &&& dot3(s) < s.len()
    &&& is_octet_seq(s.subrange(0, dot1(s)))
    &&& is_octet_seq(s.subrange(dot1(s) + 1, dot2(s)))
    &&& is_octet_seq(s.subrange(dot2(s) + 1, dot3(s)))
    &&& is_octet_seq(s.subrange(dot3(s) + 1, s.len() as int))
}

/// The address denoted by an IPv4 literal.
pub open spec fn ipv4_of(s: Seq<u8>) -> IpAddr {
    IpAddr::V4(
        decimal_value(s.subrange(0, dot1(s))) as u8,
        decimal_value(s.subrange(dot1(s) + 1, dot2(s))) as u8,
        decimal_value(s.subrange(dot2(s) + 1, dot3(s))) as u8,
        decimal_value(s.subrange(dot3(s) + 1, s.len() as int)) as u8,
    )
}

/// The host part of an authority: everything before the first `:`.
pub open spec fn host_seq(s: Seq<u8>) -> Seq<u8> {
    s.subrange(0, first_byte(s, 58))
}

/// Whether an authority carries an explicit port part.
pub open spec fn has_port_part(s: Seq<u8>) -> bool {
    first_byte(s, 58) < s.len()
}

/// The port part of an authority: everything after the first `:`.
pub open spec fn port_seq(s: Seq<u8>) -> Seq<u8> {
    s.subrange(first_byte(s, 58) + 1, s.len() as int)
}

/// A well-formed authority: a valid host, optionally followed by `:` and a
/// valid port.
pub open spec fn is_valid_authority(s: Seq<u8>) -> bool {
    is_host_seq(host_seq(s)) && (has_port_part(s) ==> is_port_seq(port_seq(s)))
}

/// The port an authority names, or the default where it names none.
pub open spec fn authority_port(s: Seq<u8>, default_port: u16) -> int {
    if has_port_part(s) {
        decimal_value(port_seq(s))
    } else {
        default_port as int
    }
}

/// 10 to the power `n`.
pub open spec fn pow10(n: nat) -> int
    decreases n,
{
    if n == 0 {
        1
    } else {
        10 * pow10((n - 1) as nat)
    }
}

/// The value of a digit run of length `n` lies in `0 .. pow10(n)`.
pub proof fn lemma_decimal_value_bound(s: Seq<u8>)
    requires
        all_digits(s),
    ensures
        0 <= decimal_value(s) < pow10(s.len()),
    decreases s.len(),
{
    if s.len() > 0 {
        assert(all_digits(s.drop_last()));
        lemma_decimal_value_bound(s.drop_last());
    }
}

/// Find the first occurrence of `b` in `s` at or after `start`.
fn find_byte_from(s: &Vec<u8>, b: u8, start: usize) -> (r: usize)
    requires
        start <= s.len(),
    ensures
        r as int == first_byte_from(s@, b, start as int),
        start <= r <= s.len(),
        r < s.len() ==> s@[r as int] == b,
        forall|j: int| start <= j < r ==> s@[j] != b,
{
    let n: usize = s.len();
    let mut i: usize = start;
    while i < n
        invariant
            start <= i <= n,
            n == s@.len(),
            first_byte_from(s@, b, start as int) == first_byte_from(s@, b, i as int),
            forall|j: int| start <= j < i ==> s@[j] != b,
        decreases n - i,
    {
        if s[i] == b {
            assert(first_byte_from(s@, b, i as int) == i as int);
            return i;
        }
        assert(first_byte_from(s@, b, i as int) == first_byte_from(s@, b, i + 1 as int));
        i = i + 1;
    }
    assert(first_byte_from(s@, b, i as int) == n as int);
    n
}

/// Parse the digit run `s[start..end]` as a base-10 number.
fn parse_decimal(s: &Vec<u8>, start: usize, end: usize) -> (r: Option<u32>)
    requires
        start <= end <= s.len(),
        end - start <= 5,
    ensures
        r is Some <==> (start < end && all_digits(s@.subrange(start as int, end as int))),
        r matches Some(v) ==> v as int == decimal_value(s@.subrange(start as int, end as int)),
{
    if start == end {
        return None;
    }
    let mut acc: u32 = 0;
    let mut i: usize = start;
    while i < end
        invariant
            start <= i <= end,
            end <= s@.len(),
            end - start <= 5,
            all_digits(s@.subrange(start as int, i as int)),
            acc as int == decimal_value(s@.subrange(start as int, i as int)),
        decreases end - i,
    {
        let b: u8 = s[i];
        if b < 48 || b > 57 {
            assert(s@.subrange(start as int, end as int)[i - start] == b);
            return None;
        }
        proof {
            let k = (i - start) as nat;
            lemma_decimal_value_bound(s@.subrange(start as int, i as int));
            assert(pow10(0nat) == 1);
            assert(pow10(1nat) == 10);
            assert(pow10(2nat) == 100);
            assert(pow10(3nat) == 1000);
            assert(pow10(4nat) == 10000);
            assert(k == 0 || k == 1 || k == 2 || k == 3 || k == 4);
            assert(acc < 10000);
        }
        let d: u32 = (b - 48) as u32;
        let next: u32 = acc * 10 + d;
        proof {
            let sub1 = s@.subrange(start as int, i + 1 as int);
            assert(sub1.drop_last() =~= s@.subrange(start as int, i as int));
            assert(sub1.last() == s@[i as int]);
            assert(all_digits(sub1)) by {
                assert(forall|j: int|
                    0 <= j < sub1.len() - 1 ==> sub1[j] == s@.subrange(start as int, i as int)[j]);
            }
        }
        acc = next;
        i = i + 1;
    }
    Some(acc)
}

/// Parse the port `s[start..end]`.
fn parse_port(s: &Vec<u8>, start: usize, end: usize) -> (r: Option<u16>)
    requires
        start <= end <= s.len(),
    ensures
        r is Some <==> is_port_seq(s@.subrange(start as int, end as int)),
        r matches Some(v) ==> v as int == decimal_value(s@.subrange(start as int, end as int)),
{
    if end - start < 1 || end - start > 5 {
        return None;
    }
    match parse_decimal(s, start, end) {
        None => None,
        Some(v) => if v <= 65535 {
            Some(v as u16)
        } else {
            None
        },
    }
}

/// Parse the octet `s[start..end]`.
fn parse_octet(s: &Vec<u8>, start: usize, end: usize) -> (r: Option<u8>)
    requires
        start <= end <= s.len(),
    ensures
        r is Some <==> is_octet_seq(s@.subrange(start as int, end as int)),
        r matches Some(v) ==> v as int == decimal_value(s@.subrange(start as int, end as int)),
{
    if end - start < 1 || end - start > 3 {
        return None;
    }
    if end - start > 1 && s[start] == 48 {
        assert(s@.subrange(start as int, end as int)[0] == 48);
        return None;
    }
    match parse_decimal(s, start, end) {
        None => None,
        Some(v) => if v <= 255 {
            Some(v as u8)
        } else {
            None
        },
    }
}

/// Classify `s` as a dotted-quad IPv4 literal and read its address.
pub fn parse_ipv4(s: &Vec<u8>) -> (r: Option<IpAddr>)
    ensures
        r is Some <==> is_ipv4_seq(s@),
        r matches Some(ip) ==> ip == ipv4_of(s@),
{
    let n: usize = s.len();
    let d1: usize = find_byte_from(s, 46, 0);
    if d1 == n {
        assert(dot2(s@) == n as int && dot3(s@) == n as int);
        return None;
    }
    let d2: usize = find_byte_from(s, 46, d1 + 1);
    if d2 == n {
        assert(dot3(s@) == n as int);
        return None;
    }
    let d3: usize = find_byte_from(s, 46, d2 + 1);
    if d3 == n {
        return None;
    }
    let o1: Option<u8> = parse_octet(s, 0, d1);
    let o2: Option<u8> = parse_octet(s, d1 + 1, d2);
    let o3: Option<u8> = parse_octet(s, d2 + 1, d3);
    let o4: Option<u8> = parse_octet(s, d3 + 1, n);
    match (o1, o2, o3, o4) {
        (Some(a), Some(b), Some(c), Some(d)) => Some(IpAddr::V4(a, b, c, d)),
        _ => None,
    }
}

/// Copy `s[start..end]` into a fresh vector.
fn copy_range(s: &Vec<u8>, start: usize, end: usize) -> (r: Vec<u8>)
    requires
        start <= end <= s.len(),
    ensures
        r@ == s@.subrange(start as int, end as int),
{
    let mut r: Vec<u8> = Vec::new();
    let mut i: usize = start;
    while i < end
        invariant
            start <= i <= end,
            end <= s@.len(),
            r@.len() == i - start,
            forall|j: int| 0 <= j < r@.len() ==> r@[j] == s@[start + j],
        decreases end - i,
    {
        r.push(s[i]);
        i = i + 1;
    }
    assert(r@ =~= s@.subrange(start as int, end as int));
    r
}

/// Check that `s[0..end]` is a nonempty run of host bytes.
fn host_ok(s: &Vec<u8>, end: usize) -> (r: bool)
    requires
        end <= s.len(),
    ensures
        r == is_host_seq(s@.subrange(0, end as int)),
{
    if end == 0 {
        return false;
    }
    let mut i: usize = 0;
    while i < end
        invariant
            i <= end,
            end <= s@.len(),
            forall|j: int| 0 <= j < i ==> is_host_byte(s@[j]),
        decreases end - i,
    {
        let b: u8 = s[i];
        let ok: bool = (48 <= b && b <= 57) || (97 <= b && b <= 122) || (65 <= b && b <= 90) || b
            == 45 || b == 46 || b == 95 || b == 126;
        if !ok {
            assert(s@.subrange(0, end as int)[i as int] == b);
            return false;
        }
        i = i + 1;
    }
    assert(forall|j: int|
        0 <= j < end ==> s@.subrange(0, end as int)[j] == s@[j] && is_host_byte(s@[j]));
    true
}

/// What normalizing the authority `s` must yield: the authority's port (or
/// the default), and its host classified as an IPv4 literal or a DNS name.
pub open spec fn hp_matches(hp: HostAndPort, s: Seq<u8>, default_port: u16) -> bool {
    &&& hp.port as int == authority_port(s, default_port)
    &&& match hp.host {
        Host::Ip(ip) => is_ipv4_seq(host_seq(s)) && ip == ipv4_of(host_seq(s)),
        Host::DnsName(name) => !is_ipv4_seq(host_seq(s)) && name@ == host_seq(s),
    }
}

/// Copy a byte string.
pub fn clone_bytes(s: &Vec<u8>) -> (r: Vec<u8>)
    ensures
        r@ == s@,
{
    let r = copy_range(s, 0, s.len());
    assert(s@.subrange(0, s@.len() as int) =~= s@);
    r
}

/// Normalize an authority to a host and a port, using `default_port` where
/// the authority names no port. A malformed authority yields `None`.
pub fn normalize(authority: &Vec<u8>, default_port: u16) -> (r: Option<HostAndPort>)
    ensures
        r is Some <==> is_valid_authority(authority@),
        r matches Some(hp) ==> hp_matches(hp, authority@, default_port),
{
    let n: usize = authority.len();
    let colon: usize = find_byte_from(authority, 58, 0);
    if !host_ok(authority, colon) {
        return None;
    }
    let port: u16 = if colon < n {
        match parse_port(authority, colon + 1, n) {
            None => {
                return None;
            },
            Some(p) => p,
        }
    } else {
        default_port
    };
    let host_bytes: Vec<u8> = copy_range(authority, 0, colon);
    match parse_ipv4(&host_bytes) {
        Some(ip) => Some(HostAndPort { host: Host::Ip(ip), port }),
        None => Some(HostAndPort { host: Host::DnsName(host_bytes), port }),
    }
}

} // verus!
