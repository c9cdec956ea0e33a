//! The laws of the proxy, stated once and proved for all inputs.
//!
//! Each proof function here pins down one guarantee of the translators and
//! the orchestrator, over the same spec functions their contracts use.

use vstd::prelude::*;
use crate::bytes::lower_seq;
use crate::config::ProxyConfig;
use crate::model::{
    DispatchError, HeaderField, InboundRequest, OutboundResponse, OutboundUpstreamRequest,
    ProxyError, UpstreamResponse, method_supported,
};
use crate::orchestrate::{
    STATUS_GATEWAY_TIMEOUT, dispatch_failure_kind, error_message_of, is_error_response,
};
use crate::policy::{Direction, HeaderPolicy, is_framing_name, lemma_framing_denied};
use crate::translate::{
    QUERY_BYTE, STATUS_BAD_GATEWAY, STATUS_CEILING, STATUS_FLOOR, body_within, kept_fn,
    kept_headers, normalized_status, request_rejection, translated_request, translated_response,
    upstream_url,
};

verus! {

/// A bodyless request with a supported method is never refused.
pub proof fn lemma_no_body_accepted(cfg: ProxyConfig, req: InboundRequest)
    requires
        method_supported(req.method),
        req.body is None,
    ensures
        request_rejection(cfg, req) is None,
{
}

/// The upstream request built from a bodyless inbound request carries the
/// same method and an empty body.
pub proof fn lemma_no_body_request_preserved(
    cfg: ProxyConfig,
    req: InboundRequest,
    out: OutboundUpstreamRequest,
)
    requires
        req.body is None,
        translated_request(cfg, req, out),
    ensures
        out.method == req.method,
        out.body is None,
{
}

/// Header round-trip: a header whose name the policy does not deny crosses
/// the boundary as the very same pair — identical name, identical value —
/// in either direction.
pub proof fn lemma_header_forwarded(
    policy: HeaderPolicy,
    dir: Direction,
    hs: Seq<HeaderField>,
    i: int,
)
    requires
        0 <= i < hs.len(),
        !policy.denies(dir, hs[i].name@),
    ensures
        kept_headers(policy, dir, hs).contains(hs[i]),
{
    hs.lemma_filter_contains(kept_fn(policy, dir), i);
}

/// Header round-trip, request side: an inbound header not denied by the
/// request-direction policy appears, name and value identical, on the
/// upstream request the translator built.
pub proof fn lemma_request_header_round_trip(
    cfg: ProxyConfig,
    req: InboundRequest,
    out: OutboundUpstreamRequest,
    i: int,
)
    requires
        translated_request(cfg, req, out),
        0 <= i < req.headers@.len(),
        !cfg.policy.denies(Direction::Request, req.headers@[i].name@),
    ensures
        out.headers@.contains(req.headers@[i]),
{
    lemma_header_forwarded(cfg.policy, Direction::Request, req.headers@, i);
}

/// Header round-trip, response side: an upstream header not denied by the
/// response-direction policy appears, name and value identical, on the
/// outbound response the translator built.
pub proof fn lemma_response_header_round_trip(
    policy: HeaderPolicy,
    up: UpstreamResponse,
    r: OutboundResponse,
    i: int,
)
    requires
        translated_response(policy, up, r),
        0 <= i < up.headers@.len(),
        !policy.denies(Direction::Response, up.headers@[i].name@),
    ensures
        r.headers@.contains(up.headers@[i]),
{
    lemma_header_forwarded(policy, Direction::Response, up.headers@, i);
}

/// Deny-set enforcement: under a well-formed policy, no forwarded header —
/// in either direction, whatever the input casing — is named `host`,
/// `connection`, `content-length` or `transfer-encoding`.
pub proof fn lemma_framing_never_forwarded(
    policy: HeaderPolicy,
    dir: Direction,
    hs: Seq<HeaderField>,
    j: int,
)
    requires
        policy.wf(),
        0 <= j < kept_headers(policy, dir, hs).len(),
    ensures
        !is_framing_name(lower_seq(kept_headers(policy, dir, hs)[j].name@)),
{
    hs.lemma_filter_pred(kept_fn(policy, dir), j);
    let h = kept_headers(policy, dir, hs)[j];
    if is_framing_name(lower_seq(h.name@)) {
        lemma_framing_denied(policy, dir, h.name@);
    }
}

/// Deny-set enforcement on the translators' outputs: no header of the
/// upstream request or of the outbound response is named `host`,
/// `connection`, `content-length` or `transfer-encoding`, whatever the
/// casing it arrived in.
pub proof fn lemma_no_framing_header_leaves(
    cfg: ProxyConfig,
    req: InboundRequest,
    out: OutboundUpstreamRequest,
    up: UpstreamResponse,
    r: OutboundResponse,
)
    requires
        cfg.policy.wf(),
        translated_request(cfg, req, out),
        translated_response(cfg.policy, up, r),
    ensures
        forall|j: int|
            0 <= j < out.headers@.len() ==> !is_framing_name(
                lower_seq(#[trigger] out.headers@[j].name@),
            ),
        forall|j: int|
            0 <= j < r.headers@.len() ==> !is_framing_name(
                lower_seq(#[trigger] r.headers@[j].name@),
            ),
{
    assert forall|j: int| 0 <= j < out.headers@.len() implies !is_framing_name(
        lower_seq(#[trigger] out.headers@[j].name@),
    ) by {
        lemma_framing_never_forwarded(cfg.policy, Direction::Request, req.headers@, j);
    }
    assert forall|j: int| 0 <= j < r.headers@.len() implies !is_framing_name(
        lower_seq(#[trigger] r.headers@[j].name@),
    ) by {
        lemma_framing_never_forwarded(cfg.policy, Direction::Response, up.headers@, j);
    }
}

/// Query passthrough: a non-empty raw query string lands on the upstream
/// URL as `?` and its bytes, unchanged; the rest of the URL is what it
/// would be with no query at all.
pub proof fn lemma_query_passthrough(base: Seq<u8>, path: Seq<Vec<u8>>, q: Vec<u8>)
    requires
        q@.len() > 0,
    ensures
        upstream_url(base, path, Option::Some(q)) == upstream_url(base, path, Option::None)
            + seq![QUERY_BYTE] + q@,
{
}

/// A body of exactly the ceiling size is accepted.
pub proof fn lemma_body_at_ceiling_accepted(cfg: ProxyConfig, req: InboundRequest)
    requires
        method_supported(req.method),
        req.body is Some,
        req.body->Some_0@.len() == cfg.body_limit,
    ensures
        request_rejection(cfg, req) is None,
{
}

/// Any body over the ceiling — one byte is enough — is refused as
/// `PayloadTooLarge`. The refusal happens in translation, while no
/// upstream request exists yet, so no network call can have been made.
pub proof fn lemma_body_over_ceiling_rejected(cfg: ProxyConfig, req: InboundRequest)
    requires
        method_supported(req.method),
        req.body is Some,
        req.body->Some_0@.len() > cfg.body_limit,
    ensures
        request_rejection(cfg, req) == Option::Some(ProxyError::PayloadTooLarge),
{
}

/// A dispatch that missed the deadline concludes as 504 with the fixed
/// timeout diagnostic as its whole body — no upstream bytes, since none
/// arrived.
pub proof fn lemma_timeout_response(d: DispatchError, r: OutboundResponse)
    requires
        d is Timeout,
        is_error_response(dispatch_failure_kind(d), r),
    ensures
        r.status == STATUS_GATEWAY_TIMEOUT,
        r.body@ == error_message_of(ProxyError::UpstreamTimeout),
{
}

/// Status normalization: a status outside 100..=599 — 0 and 999 included —
/// becomes 502 on the outbound side; one inside the range is copied
/// verbatim.
pub proof fn lemma_status_normalization(s: u16)
    ensures
        s < STATUS_FLOOR || s > STATUS_CEILING ==> normalized_status(s) == STATUS_BAD_GATEWAY,
        STATUS_FLOOR <= s <= STATUS_CEILING ==> normalized_status(s) == s,
{
}

/// `body_within` is exact at the boundary: the ceiling itself passes, the
/// first byte over it fails.
pub proof fn lemma_body_within_boundary(b: Vec<u8>, limit: usize)
    ensures
        b@.len() <= limit <==> body_within(Option::Some(b), limit),
{
}

} // verus!
