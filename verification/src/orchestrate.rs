//! The orchestrator of one proxied call.
//!
//! Per inbound call, a single pass with no retries:
//! received → translating the request → dispatching → translating the
//! response → responded, with an errored terminal reachable from any step.
//! The dispatch itself — the one network call — happens outside the
//! library, between [`prepare`] and [`conclude`]; both ends of the pass,
//! and the mapping of every failure onto a fixed outbound status with a
//! short diagnostic body, are here.

use vstd::prelude::*;
use crate::bytes::{ascii_bytes, ascii_seq};
use crate::config::ProxyConfig;
use crate::model::{
    DispatchError, HeaderField, InboundRequest, OutboundResponse, OutboundUpstreamRequest,
    ProxyError, UpstreamResponse,
};
use crate::policy::HeaderPolicy;
use crate::translate::{
    STATUS_BAD_GATEWAY, request_rejection, translate_request, translate_response,
    translated_request, translated_response,
};

verus! {

/// Outbound status for an unsupported method.
pub const STATUS_METHOD_NOT_ALLOWED: u16 = 405;

/// Outbound status for an over-ceiling inbound body.
pub const STATUS_PAYLOAD_TOO_LARGE: u16 = 413;

/// Outbound status when the inbound body could not be read.
pub const STATUS_INTERNAL_ERROR: u16 = 500;

/// Outbound status when the upstream missed the per-call deadline.
pub const STATUS_GATEWAY_TIMEOUT: u16 = 504;

/// The fixed outbound status of each failure kind.
pub open spec fn error_status_of(e: ProxyError) -> u16 {
    match e {
        ProxyError::UnsupportedMethod => STATUS_METHOD_NOT_ALLOWED,
        ProxyError::PayloadTooLarge => STATUS_PAYLOAD_TOO_LARGE,
        ProxyError::BodyReadFailure => STATUS_INTERNAL_ERROR,
        ProxyError::UpstreamTimeout => STATUS_GATEWAY_TIMEOUT,
        ProxyError::UpstreamUnreachable => STATUS_BAD_GATEWAY,
    }
}

/// The short diagnostic body of each failure kind. Fixed text only: no
/// internal detail ever reaches the caller.
pub open spec fn error_message_of(e: ProxyError) -> Seq<u8> {
    match e {
        ProxyError::UnsupportedMethod => ascii_seq("method not allowed"@),
        ProxyError::PayloadTooLarge => ascii_seq("payload too large"@),
        ProxyError::BodyReadFailure => ascii_seq("failed to read request body"@),
        ProxyError::UpstreamTimeout => ascii_seq("upstream timeout"@),
        ProxyError::UpstreamUnreachable => ascii_seq("upstream unreachable"@),
    }
}

/// Content type of every error response.
pub open spec fn text_plain() -> Seq<u8> {
    ascii_seq("text/plain"@)
}

/// What the outbound response of a failed call must be: the kind's fixed
/// status, its fixed diagnostic body, a plain-text content type and no
/// other headers. Nothing else — in particular nothing about the cause —
/// can reach the caller.
pub open spec fn is_error_response(e: ProxyError, r: OutboundResponse) -> bool {
    &&& r.status == error_status_of(e)
    &&& r.content_type@ == text_plain()
    &&& r.headers@ == Seq::<HeaderField>::empty()
    &&& r.body@ == error_message_of(e)
}

/// The fixed status of one failure kind.
pub fn error_status(e: &ProxyError) -> (s: u16)
    ensures
        s == error_status_of(*e),
{
    match e {
        ProxyError::UnsupportedMethod => STATUS_METHOD_NOT_ALLOWED,
        ProxyError::PayloadTooLarge => STATUS_PAYLOAD_TOO_LARGE,
        ProxyError::BodyReadFailure => STATUS_INTERNAL_ERROR,
        ProxyError::UpstreamTimeout => STATUS_GATEWAY_TIMEOUT,
        ProxyError::UpstreamUnreachable => STATUS_BAD_GATEWAY,
    }
}

/// The fixed diagnostic body of one failure kind.
pub fn error_message(e: &ProxyError) -> (m: Vec<u8>)
    ensures
        m@ == error_message_of(*e),
{
    match e {
        ProxyError::UnsupportedMethod => {
            proof {
                reveal_strlit("method not allowed");
            }
            ascii_bytes("method not allowed")
        },
        ProxyError::PayloadTooLarge => {
            proof {
                reveal_strlit("payload too large");
            }
            ascii_bytes("payload too large")
        },
        ProxyError::BodyReadFailure => {
            proof {
                reveal_strlit("failed to read request body");
            }
            ascii_bytes("failed to read request body")
        },
        ProxyError::UpstreamTimeout => {
            proof {
                reveal_strlit("upstream timeout");
            }
            ascii_bytes("upstream timeout")
        },
        ProxyError::UpstreamUnreachable => {
            proof {
                reveal_strlit("upstream unreachable");
            }
            ascii_bytes("upstream unreachable")
        },
    }
}

/// The outbound response of a failed call.
pub fn error_response(e: &ProxyError) -> (r: OutboundResponse)
    ensures
        is_error_response(*e, r),
{
    proof {
        reveal_strlit("text/plain");
    }
    let r = OutboundResponse {
        status: error_status(e),
        content_type: ascii_bytes("text/plain"),
        headers: Vec::new(),
        body: error_message(e),
    };
    proof {
        assert(r.headers@ =~= Seq::<HeaderField>::empty());
    }
    r
}

/// A failure on its way out of the proxy: the kind that decides the
/// outbound response, and diagnostic detail that is kept for logging and
/// never put on the wire.
#[derive(Debug)]
pub struct ErrorResponse {
    pub kind: ProxyError,
    pub detail: Vec<u8>,
}

impl ErrorResponse {
    pub fn new(kind: ProxyError, detail: Vec<u8>) -> (e: ErrorResponse)
        ensures
            e.kind == kind,
            e.detail == detail,
    {
        ErrorResponse { kind, detail }
    }

    /// The fixed outbound status of this failure.
    pub fn status(&self) -> (s: u16)
        ensures
            s == error_status_of(self.kind),
    {
        error_status(&self.kind)
    }

    /// The outbound response: a function of the kind alone, so the detail
    /// — stack context, connection internals — never leaks to the caller.
    pub fn to_response(&self) -> (r: OutboundResponse)
        ensures
            is_error_response(self.kind, r),
    {
        error_response(&self.kind)
    }
}

/// The failure kind of a dispatch that did not yield a response.
pub open spec fn dispatch_failure_kind(d: DispatchError) -> ProxyError {
    match d {
        DispatchError::Timeout => ProxyError::UpstreamTimeout,
        DispatchError::Unreachable { .. } => ProxyError::UpstreamUnreachable,
    }
}

/// First half of the pass: translate the inbound request, or map its
/// refusal straight to the errored terminal. On refusal no upstream
/// request exists, so no network call can follow.
pub fn prepare(req: InboundRequest, cfg: &ProxyConfig) -> (r: Result<
    OutboundUpstreamRequest,
    OutboundResponse,
>)
    ensures
        r is Ok <==> request_rejection(*cfg, req) is None,
        r is Ok ==> translated_request(*cfg, req, r->Ok_0),
        r is Err ==> is_error_response(request_rejection(*cfg, req)->Some_0, r->Err_0),
{
    match translate_request(req, cfg) {
        Result::Ok(out) => Result::Ok(out),
        Result::Err(e) => Result::Err(error_response(&e)),
    }
}

/// Second half of the pass: translate the upstream's answer, or map the
/// dispatch failure to its fixed error response — a timeout to 504, an
/// unreachable upstream to 502, either way with no upstream body.
pub fn conclude(outcome: Result<UpstreamResponse, DispatchError>, policy: &HeaderPolicy) -> (r:
    OutboundResponse)
    ensures
        outcome is Ok ==> translated_response(*policy, outcome->Ok_0, r),
        outcome is Err ==> is_error_response(dispatch_failure_kind(outcome->Err_0), r),
{
    match outcome {
        Result::Ok(up) => translate_response(up, policy),
        Result::Err(DispatchError::Timeout) => error_response(&ProxyError::UpstreamTimeout),
        Result::Err(DispatchError::Unreachable { .. }) => error_response(
            &ProxyError::UpstreamUnreachable,
        ),
    }
}

} // verus!
