//! Data model: requests, responses, headers, and the error kinds of one
//! proxied call.
//!
//! Every value here is created at the start of one inbound call and discarded
//! at its end. Header names and values, URLs and bodies are byte strings.

use vstd::prelude::*;

verus! {

/// HTTP method of an inbound request.
#[derive(Clone, Copy, PartialEq, Eq, Structural, Debug)]
pub enum Method {
    Get,
    Post,
    Put,
    Delete,
    Head,
    Options,
    Patch,
}

/// The proxy forwards exactly these four methods upstream.
pub open spec fn method_supported(m: Method) -> bool {
    m == Method::Get || m == Method::Post || m == Method::Put || m == Method::Delete
}

impl Method {
    /// Whether the proxy forwards this method upstream.
    pub fn is_supported(&self) -> (r: bool)
        ensures
            r == method_supported(*self),
    {
        match self {
            Method::Get => true,
            Method::Post => true,
            Method::Put => true,
            Method::Delete => true,
            _ => false,
        }
    }
}

/// One header: a name and a value, both byte strings.
///
/// Names are matched case-insensitively but emitted with their original
/// casing, so the field keeps the bytes as they arrived.
#[derive(Debug)]
pub struct HeaderField {
    pub name: Vec<u8>,
    pub value: Vec<u8>,
}

impl HeaderField {
    pub fn new(name: Vec<u8>, value: Vec<u8>) -> (h: HeaderField)
        ensures
            h.name == name,
            h.value == value,
    {
        HeaderField { name, value }
    }
}

/// A decoded inbound request, handed to the proxy by the HTTP server
/// collaborator. Path segments are already decoded; the query string is kept
/// raw, to be passed through verbatim.
#[derive(Debug)]
pub struct InboundRequest {
    pub method: Method,
    pub path: Vec<Vec<u8>>,
    pub query: Option<Vec<u8>>,
    pub headers: Vec<HeaderField>,
    pub body: Option<Vec<u8>>,
}

/// The request the proxy sends upstream: an absolute URL, the inbound
/// method, the headers that survived the request-direction policy, and the
/// inbound body unchanged.
#[derive(Debug)]
pub struct OutboundUpstreamRequest {
    pub url: Vec<u8>,
    pub method: Method,
    pub headers: Vec<HeaderField>,
    pub body: Option<Vec<u8>>,
}

/// What the upstream answered. The status is kept as it arrived, even when
/// out of range: normalization happens on translation.
#[derive(Debug)]
pub struct UpstreamResponse {
    pub status: u16,
    pub headers: Vec<HeaderField>,
    pub body: Vec<u8>,
}

/// The response returned to the original caller.
#[derive(Debug)]
pub struct OutboundResponse {
    pub status: u16,
    pub content_type: Vec<u8>,
    pub headers: Vec<HeaderField>,
    pub body: Vec<u8>,
}

/// Why a proxied call failed. Each kind maps to one fixed outbound status.
#[derive(Clone, Copy, PartialEq, Eq, Structural, Debug)]
pub enum ProxyError {
    /// Method outside GET / POST / PUT / DELETE.
    UnsupportedMethod,
    /// Inbound body over the configured ceiling.
    PayloadTooLarge,
    /// Inbound body could not be fully read.
    BodyReadFailure,
    /// The upstream did not answer within the per-call deadline.
    UpstreamTimeout,
    /// Transport-level failure reaching the upstream.
    UpstreamUnreachable,
}

/// How a dispatch to the upstream failed, as the transport reports it.
/// The cause accompanies `Unreachable` for logging only; it never reaches
/// the outbound response.
#[derive(Debug)]
pub enum DispatchError {
    Timeout,
    Unreachable { cause: Vec<u8> },
}

} // verus!
