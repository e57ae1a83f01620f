//! Per-protocol endpoint binding: the handle the balancer's discovery stream
//! uses to turn a resolved address into a connectable endpoint.
//!
//! Opening the underlying connection is the runtime's work; here an endpoint
//! is the plain record of what was bound, and binding outcomes are handed
//! back in as events.

use crate::transport::SocketAddr;
use vstd::prelude::*;

verus! {

/// The protocol a request was detected to speak. Endpoints speaking
/// different protocols are never mixed into one pool.
#[derive(Debug, Clone, Copy, PartialEq, Eq, Structural, Hash)]
pub enum Protocol {
    Http1,
    Http2,
}

/// A handle for binding endpoints on behalf of one proxy instance.
#[derive(Debug, Clone, Copy, PartialEq, Eq, Structural, Hash)]
pub struct Bind {
    /// The proxy instance the bound clients belong to.
    pub proxy: u64,
}

/// A `Bind` fixed to one protocol, so a key's endpoints all speak it.
#[derive(Debug, Clone, Copy, PartialEq, Eq, Structural, Hash)]
pub struct BindProtocol {
    pub proxy: u64,
    pub protocol: Protocol,
}

impl Bind {
    /// Fix this handle to one protocol.
    pub fn with_protocol(&self, protocol: Protocol) -> (r: BindProtocol)
        ensures
            r.proxy == self.proxy,
            r.protocol == protocol,
    {
        BindProtocol { proxy: self.proxy, protocol }
    }
}

/// A bound, connectable endpoint: the record of one address bound under one
/// protocol.
#[derive(Debug, Clone, Copy, PartialEq, Eq, Structural, Hash)]
pub struct Endpoint {
    pub addr: SocketAddr,
    pub protocol: Protocol,
}

/// Constructing a key's single-flight buffering stage failed because its
/// driving task could not be scheduled: a permanent bind failure for the key.
#[derive(Debug, Clone, Copy, PartialEq, Eq, Structural, Hash)]
pub enum BufferSpawnError {
    Outbound,
}

} // verus!
