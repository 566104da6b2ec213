//! Plain request/response envelopes: the data the forwarding engine works on.
//! Inbound requests carry method, path-plus-query and raw body bytes; upstream
//! responses carry status, headers in order, and raw body bytes.

use vstd::prelude::*;

verus! {

/// An inbound HTTP request, reduced to what the engine reads: the method
/// name, the path together with its query string, and the raw body bytes.
/// Inbound headers are deliberately not carried: the engine does not forward
/// them.
pub struct InboundRequest {
    pub method: String,
    pub path_and_query: String,
    pub body: Vec<u8>,
}

/// The outbound request the engine asks the connection client to perform:
/// same method and body as the inbound request, aimed at a full upstream URI.
pub struct OutboundRequest {
    pub method: String,
    pub uri: String,
    pub body: Vec<u8>,
}

/// What came back from the upstream: status code, response headers as
/// name/raw-value pairs in arrival order, and the buffered body bytes.
pub struct UpstreamResponse {
    pub status: u16,
    pub headers: Vec<(String, Vec<u8>)>,
    pub body: Vec<u8>,
}

/// The response handed back to the original caller, in the same shape as an
/// upstream response.
pub struct ProxyResponse {
    pub status: u16,
    pub headers: Vec<(String, Vec<u8>)>,
    pub body: Vec<u8>,
}

/// A transport-level failure of the outbound call (connection refused,
/// timeout, reset, name resolution), reduced to its human-readable message.
pub struct TransportError {
    pub message: String,
}

} // verus!
