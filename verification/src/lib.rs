//! Outbound data-plane core of a transparent sidecar proxy.
//!
//! The library determines each intercepted request's logical destination,
//! computes a routing key, lazily binds one load-balanced, backpressure-wrapped
//! service per key, adapts two kinds of service discovery into one uniform
//! endpoint-change stream, selects endpoints with power-of-two-choices over a
//! peak-EWMA load signal, and records latencies in a fixed-bucket histogram.
//!
//! Everything here is a non-blocking, pollable state machine over plain
//! values: the surrounding runtime performs I/O (subscriptions, connections,
//! clocks, randomness) and hands the outcomes in as arguments.

pub mod balance;
pub mod bind;
pub mod control;
pub mod ctx;
pub mod latency;
pub mod outbound;
pub mod router;
pub mod stack;
pub mod transport;
