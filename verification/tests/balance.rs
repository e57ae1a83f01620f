use conduit_proxy::balance::{Balancer, Change, NoEndpoint, PeakEwma, DEFAULT_DECAY_MS, LOAD_SCALE};
use conduit_proxy::bind::{Endpoint, Protocol};
use conduit_proxy::transport::{IpAddr, SocketAddr};

fn addr(last: u8) -> SocketAddr {
    SocketAddr { ip: IpAddr::V4(10, 0, 0, last), port: 80 }
}

fn ep(last: u8) -> Endpoint {
    Endpoint { addr: addr(last), protocol: Protocol::Http2 }
}

#[test]
fn dispatch_with_no_endpoint_fails() {
    let mut b = Balancer::new(DEFAULT_DECAY_MS);
    assert_eq!(b.dispatch(1, 2, 0), Err(NoEndpoint));
}

#[test]
fn removed_endpoint_is_never_chosen_again() {
    let mut b = Balancer::new(DEFAULT_DECAY_MS);
    b.apply_change(Change::Insert(addr(1), ep(1)));
    assert_eq!(b.dispatch(0, 0, 0), Ok(addr(1)));
    b.apply_change(Change::Remove(addr(1)));
    assert_eq!(b.dispatch(0, 0, 0), Err(NoEndpoint));
}

#[test]
fn insert_replaces_endpoint_at_same_address() {
    let mut b = Balancer::new(DEFAULT_DECAY_MS);
    b.apply_change(Change::Insert(addr(1), ep(1)));
    b.apply_change(Change::Insert(addr(1), ep(1)));
    assert_eq!(b.entries.len(), 1);
}

#[test]
fn p2c_selects_lower_loaded_endpoint_in_majority_of_trials() {
    // One endpoint carries load, the other none: over many uniformly sampled
    // trials the unloaded endpoint wins the strict majority (here: all).
    let mut b = Balancer::new(DEFAULT_DECAY_MS);
    b.apply_change(Change::Insert(addr(1), ep(1)));
    // Raise endpoint 1's load: three dispatches, none released.
    for _ in 0..3 {
        assert_eq!(b.dispatch(0, 0, 0), Ok(addr(1)));
    }
    b.apply_change(Change::Insert(addr(2), ep(2)));
    let mut rng: u64 = 0x2545_f491_4f6c_dd1d;
    let mut low_wins: u32 = 0;
    let trials: u32 = 200;
    for _ in 0..trials {
        // A small xorshift generator supplies the two uniform samples.
        rng ^= rng << 13;
        rng ^= rng >> 7;
        rng ^= rng << 17;
        let r1 = rng;
        rng ^= rng << 13;
        rng ^= rng >> 7;
        rng ^= rng << 17;
        let r2 = rng;
        let mut probe = Balancer::new(DEFAULT_DECAY_MS);
        probe.apply_change(Change::Insert(addr(1), ep(1)));
        for _ in 0..3 {
            probe.dispatch(0, 0, 0).unwrap();
        }
        probe.apply_change(Change::Insert(addr(2), ep(2)));
        if probe.dispatch(r1, r2, 0) == Ok(addr(2)) {
            low_wins += 1;
        }
    }
    assert!(low_wins * 2 > trials, "lower-loaded endpoint won only {} of {}", low_wins, trials);
}

#[test]
fn load_peaks_on_dispatch_and_decays_after_release() {
    let mut l = PeakEwma::new();
    l.dispatch(0, DEFAULT_DECAY_MS);
    // One pending request: the estimate jumps to one request's weight.
    assert_eq!(l.estimate_at(0, DEFAULT_DECAY_MS), LOAD_SCALE);
    l.first_byte(0, DEFAULT_DECAY_MS);
    // Released but not yet decayed.
    assert_eq!(l.estimate_at(0, DEFAULT_DECAY_MS), LOAD_SCALE);
    // One half-life later, half the excess is gone; then a quarter remains.
    assert_eq!(l.estimate_at(DEFAULT_DECAY_MS, DEFAULT_DECAY_MS), LOAD_SCALE / 2);
    assert_eq!(l.estimate_at(2 * DEFAULT_DECAY_MS, DEFAULT_DECAY_MS), LOAD_SCALE / 4);
    // Far in the future the load has fully decayed.
    assert_eq!(l.estimate_at(100 * DEFAULT_DECAY_MS, DEFAULT_DECAY_MS), 0);
}

#[test]
fn estimate_never_sits_below_pending_level() {
    let mut l = PeakEwma::new();
    l.dispatch(0, DEFAULT_DECAY_MS);
    l.dispatch(0, DEFAULT_DECAY_MS);
    // Two pending requests: even infinitely later the estimate stays at the
    // pending level.
    assert_eq!(l.estimate_at(1_000_000_000, DEFAULT_DECAY_MS), 2 * LOAD_SCALE);
}

#[test]
fn first_byte_releases_only_the_addressed_endpoint() {
    let mut b = Balancer::new(DEFAULT_DECAY_MS);
    b.apply_change(Change::Insert(addr(1), ep(1)));
    assert_eq!(b.dispatch(0, 0, 0), Ok(addr(1)));
    assert_eq!(b.entries[0].load.pending, 1);
    // A first byte from an address no longer live is ignored.
    b.first_byte(addr(9), 0);
    assert_eq!(b.entries[0].load.pending, 1);
    b.first_byte(addr(1), 0);
    assert_eq!(b.entries[0].load.pending, 0);
}
