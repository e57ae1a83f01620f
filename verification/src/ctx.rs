//! Immutable per-request and per-response metadata, correlating the server
//! and client transport contexts with discovery-supplied destination labels,
//! for an external telemetry and logging subsystem.

use crate::transport::SocketAddr;
use vstd::prelude::*;

verus! {

/// Key/value tags attached to a request by an external discovery subsystem,
/// describing the resolved backend. Read-only once attached.
#[derive(Debug, Clone, PartialEq, Eq, Hash)]
pub struct DstLabels {
    pub labels: Vec<(String, String)>,
}

/// The discovery layer's live view of a client's destination labels.
#[derive(Debug, Clone, PartialEq, Eq, Hash)]
pub struct DstLabelsWatch {
    pub current: Option<DstLabels>,
}

/// Identifies the proxy server that received a connection, together with the
/// connection's captured original destination, if the platform recovered one.
#[derive(Debug, Clone, Copy, PartialEq, Eq, Structural, Hash)]
pub struct Server {
    /// The proxy instance this server side belongs to.
    pub proxy: u64,
    /// The address the connection was accepted on.
    pub local: SocketAddr,
    /// The peer that opened the connection.
    pub remote: SocketAddr,
    /// The pre-redirection destination recovered from connection metadata.
    pub orig_dst: Option<SocketAddr>,
}

/// The captured original destination of a server connection, unless it is
/// the address the proxy itself accepted the connection on.
pub open spec fn orig_dst_if_not_local_spec(s: Server) -> Option<SocketAddr> {
    match s.orig_dst {
        Some(a) => if a == s.local {
            None
        } else {
            Some(a)
        },
        None => None,
    }
}

impl Server {
    /// The captured original destination, valid only if not local.
    pub fn orig_dst_if_not_local(&self) -> (r: Option<SocketAddr>)
        ensures
            r == orig_dst_if_not_local_spec(*self),
    {
        match self.orig_dst {
            Some(a) => if a == self.local {
                None
            } else {
                Some(a)
            },
            None => None,
        }
    }
}

/// Identifies the proxy client that dispatches a request.
#[derive(Debug, Clone, PartialEq, Eq, Hash)]
pub struct Client {
    /// The proxy instance this client side belongs to.
    pub proxy: u64,
    /// The endpoint the client connects to.
    pub remote: SocketAddr,
    /// Destination labels kept live by the discovery layer, if any.
    pub dst_labels: Option<DstLabelsWatch>,
}

/// Describes a stream's request headers. Read-only after creation.
#[derive(Debug, Clone, PartialEq, Eq, Hash)]
pub struct Request {
    /// A numeric id useful for debugging and correlation.
    pub id: usize,
    pub uri: String,
    pub method: String,
    /// Identifies the proxy server that received the request.
    pub server: Server,
    /// Identifies the proxy client that dispatched the request.
    pub client: Client,
    /// Destination labels attached to the request before it reached this
    /// core, if the discovery layer provided any.
    pub dst_labels: Option<DstLabels>,
}

impl Request {
    /// Record a request's metadata. Every field is exactly what the caller
    /// handed in.
    pub fn new(
        uri: String,
        method: String,
        dst_labels: Option<DstLabels>,
        server: &Server,
        client: Client,
        id: usize,
    ) -> (r: Request)
        ensures
            r.id == id,
            r.uri == uri,
            r.method == method,
            r.server == *server,
            r.client == client,
            r.dst_labels == dst_labels,
    {
        Request { id, uri, method, server: *server, client, dst_labels }
    }

    /// The live destination-label watch of the dispatching client, if any.
    pub fn dst_labels(&self) -> (r: Option<&DstLabelsWatch>)
        ensures
            match r {
                Some(w) => self.client.dst_labels matches Some(x) && *w == x,
                None => self.client.dst_labels is None,
            },
    {
        self.client.dst_labels.as_ref()
    }
}

/// Describes a stream's response headers. Read-only after creation.
#[derive(Debug, Clone, PartialEq, Eq, Hash)]
pub struct Response {
    /// The request this response answers.
    pub request: Request,
    /// The response status code.
    pub status: u16,
}

impl Response {
    /// Record a response's metadata against its request.
    pub fn new(status: u16, request: Request) -> (r: Response)
        ensures
            r.status == status,
            r.request == request,
    {
        Response { status, request }
    }
}

} // verus!
