//! The naming-service client, as this core sees it: a resolver capability
//! that opens one streaming subscription per (host, port). The subscription's
//! change events arrive from the runtime; only the handle is modeled here.

use crate::bind::BindProtocol;
use crate::transport::DnsNameAndPort;
use vstd::prelude::*;

verus! {

/// A handle on the external naming service.
#[derive(Debug, Clone, Copy, PartialEq, Eq, Structural, Hash)]
pub struct Resolver;

/// An open subscription for one (host, port): every update the naming
/// service pushes becomes ordered insert/remove endpoint events.
#[derive(Debug, Clone, PartialEq, Eq, Hash)]
pub struct Resolution {
    /// The name the subscription watches.
    pub authority: DnsNameAndPort,
    /// The handle used to bind each resolved address.
    pub bind: BindProtocol,
}

impl Resolver {
    /// Open a subscription for `authority`, binding resolved addresses
    /// through `bind`. Opening never blocks and never fails; the stream is
    /// populated later, event by event.
    pub fn resolve(&self, authority: DnsNameAndPort, bind: BindProtocol) -> (r: Resolution)
        ensures
            r.authority == authority,
            r.bind == bind,
    {
        Resolution { authority, bind }
    }
}

} // verus!
