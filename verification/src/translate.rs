//! The two translators.
//!
//! Request side: build the upstream URL from the fixed origin, the inbound
//! path and the raw query string (verbatim, no re-encoding), filter the
//! headers by the request-direction policy, and pass the body through —
//! after refusing unsupported methods and over-ceiling bodies.
//!
//! Response side: normalize an out-of-range status to 502, take the
//! content type from the upstream `content-type` header when present and
//! forwarded (defaulting otherwise), filter the headers by the
//! response-direction policy, and copy the body byte for byte.

use vstd::prelude::*;
use crate::bytes::{append_bytes, ascii_bytes, ascii_seq, bytes_eq, copy_bytes, lower_bytes, lower_seq};
use crate::config::ProxyConfig;
use crate::model::{
    HeaderField, InboundRequest, OutboundResponse, OutboundUpstreamRequest, ProxyError,
    UpstreamResponse, method_supported,
};
use crate::policy::{Direction, HeaderPolicy};

verus! {

/// Keeps a header iff the policy forwards its name in this direction.
pub open spec fn kept_fn(policy: HeaderPolicy, dir: Direction) -> spec_fn(HeaderField) -> bool {
    |h: HeaderField| !policy.denies(dir, h.name@)
}

/// The headers that cross the proxy in one direction, order and casing kept.
pub open spec fn kept_headers(
    policy: HeaderPolicy,
    dir: Direction,
    hs: Seq<HeaderField>,
) -> Seq<HeaderField> {
    hs.filter(kept_fn(policy, dir))
}

/// Keep the headers whose names the policy forwards; order and casing kept.
pub fn filter_headers(policy: &HeaderPolicy, dir: Direction, hs: Vec<HeaderField>) -> (r: Vec<
    HeaderField,
>)
    ensures
        r@ == kept_headers(*policy, dir, hs@),
{
    let ghost orig = hs@;
    let mut rest = hs;
    let mut out: Vec<HeaderField> = Vec::new();
    let ghost mut k: int = 0;
    proof {
        reveal(Seq::filter);
        assert(rest@ =~= orig.skip(0));
        assert(orig.take(0) =~= Seq::<HeaderField>::empty());
    }
    while rest.len() > 0
        invariant
            0 <= k <= orig.len(),
            rest@ == orig.skip(k),
            out@ == kept_headers(*policy, dir, orig.take(k)),
        decreases rest.len(),
    {
        let h = rest.remove(0);
        proof {
            assert(h == orig[k]);
            assert(rest@ =~= orig.skip(k + 1));
        }
        let keep = policy.should_forward(dir, &h.name);
        proof {
            orig.take(k).lemma_filter_push(h, kept_fn(*policy, dir));
            assert(orig.take(k + 1) =~= orig.take(k).push(h));
            k = k + 1;
        }
        if keep {
            out.push(h);
        }
    }
    proof {
        assert(orig.take(orig.len() as int) =~= orig);
    }
    out
}

/// ASCII code of `/`.
pub const SLASH_BYTE: u8 = 47;

/// ASCII code of `?`.
pub const QUERY_BYTE: u8 = 63;

/// The first `n` path segments joined with `/` (no leading separator).
pub open spec fn joined_path(segs: Seq<Vec<u8>>, n: int) -> Seq<u8>
    decreases n,
{
    if n <= 0 {
        Seq::empty()
    } else if n == 1 {
        segs[0]@
    } else {
        joined_path(segs, n - 1) + seq![SLASH_BYTE] + segs[n - 1]@
    }
}

/// The upstream URL: origin, `/`, the joined path, and — iff a non-empty
/// raw query string is present — `?` and that string, byte for byte.
pub open spec fn upstream_url(
    base: Seq<u8>,
    path: Seq<Vec<u8>>,
    query: Option<Vec<u8>>,
) -> Seq<u8> {
    let plain = base + seq![SLASH_BYTE] + joined_path(path, path.len() as int);
    match query {
        Option::Some(q) => if q@.len() > 0 {
            plain + seq![QUERY_BYTE] + q@
        } else {
            plain
        },
        Option::None => plain,
    }
}

/// Build the upstream URL.
pub fn build_url(base: &Vec<u8>, path: &Vec<Vec<u8>>, query: &Option<Vec<u8>>) -> (r: Vec<u8>)
    ensures
        r@ == upstream_url(base@, path@, *query),
{
    let mut url = copy_bytes(base);
    url.push(SLASH_BYTE);
    let mut i: usize = 0;
    while i < path.len()
        invariant
            i <= path.len(),
            url@ == base@ + seq![SLASH_BYTE] + joined_path(path@, i as int),
        decreases path.len() - i,
    {
        if i > 0 {
            url.push(SLASH_BYTE);
        }
        append_bytes(&mut url, &path[i]);
        proof {
            if i == 0 {
                assert(url@ =~= base@ + seq![SLASH_BYTE] + joined_path(path@, 1));
            } else {
                assert(url@ =~= base@ + seq![SLASH_BYTE] + joined_path(path@, i + 1));
            }
        }
        i = i + 1;
    }
    match query {
        Option::Some(q) => {
            if q.len() > 0 {
                url.push(QUERY_BYTE);
                append_bytes(&mut url, q);
                proof {
                    assert(url@ =~= upstream_url(base@, path@, *query));
                }
            }
        },
        Option::None => {},
    }
    url
}

/// Lowest well-formed HTTP status.
pub const STATUS_FLOOR: u16 = 100;

/// Highest well-formed HTTP status.
pub const STATUS_CEILING: u16 = 599;

/// Status returned in place of one the upstream malformed: 502 Bad Gateway.
pub const STATUS_BAD_GATEWAY: u16 = 502;

/// A status outside 100..=599 is never propagated: it becomes 502.
pub open spec fn normalized_status(s: u16) -> u16 {
    if STATUS_FLOOR <= s && s <= STATUS_CEILING {
        s
    } else {
        STATUS_BAD_GATEWAY
    }
}

/// Copy a well-formed status verbatim; substitute 502 for a malformed one.
pub fn normalize_status(s: u16) -> (r: u16)
    ensures
        r == normalized_status(s),
{
    if STATUS_FLOOR <= s && s <= STATUS_CEILING {
        s
    } else {
        STATUS_BAD_GATEWAY
    }
}

pub open spec fn content_type_name() -> Seq<u8> {
    ascii_seq("content-type"@)
}

/// The fallback when the upstream named no forwardable content type.
pub open spec fn default_content_type() -> Seq<u8> {
    ascii_seq("application/octet-stream"@)
}

/// The value of the first upstream header named `content-type` (matched
/// case-insensitively), if any.
pub open spec fn first_content_type(hs: Seq<HeaderField>) -> Option<Seq<u8>>
    decreases hs.len(),
{
    if hs.len() == 0 {
        Option::None
    } else if lower_seq(hs[0].name@) == content_type_name() {
        Option::Some(hs[0].value@)
    } else {
        first_content_type(hs.drop_first())
    }
}

/// The outbound content type: the upstream's, when present and forwarded
/// per policy; the default otherwise.
pub open spec fn response_content_type(policy: HeaderPolicy, hs: Seq<HeaderField>) -> Seq<u8> {
    if policy.denies(Direction::Response, content_type_name()) {
        default_content_type()
    } else {
        match first_content_type(hs) {
            Option::Some(v) => v,
            Option::None => default_content_type(),
        }
    }
}

/// `content-type` is already lowercase, so folding it changes nothing.
proof fn lemma_content_type_name_lower()
    ensures
        lower_seq(content_type_name()) == content_type_name(),
{
    reveal_strlit("content-type");
    assert(lower_seq(content_type_name()) =~= content_type_name());
}

/// Find the outbound content type among the upstream headers.
pub fn find_content_type(policy: &HeaderPolicy, hs: &Vec<HeaderField>) -> (ct: Vec<u8>)
    ensures
        ct@ == response_content_type(*policy, hs@),
{
    proof {
        reveal_strlit("content-type");
    }
    let ct_name = ascii_bytes("content-type");
    let mut i: usize = 0;
    proof {
        assert(hs@.skip(0) =~= hs@);
    }
    while i < hs.len()
        invariant
            i <= hs.len(),
            ct_name@ == content_type_name(),
            first_content_type(hs@) == first_content_type(hs@.skip(i as int)),
        decreases hs.len() - i,
    {
        let lowered = lower_bytes(&hs[i].name);
        if bytes_eq(&lowered, &ct_name) {
            proof {
                assert(hs@.skip(i as int)[0] == hs@[i as int]);
                assert(first_content_type(hs@) == Option::Some(hs@[i as int].value@));
                lemma_content_type_name_lower();
            }
            if policy.should_forward(Direction::Response, &hs[i].name) {
                return copy_bytes(&hs[i].value);
            } else {
                proof {
                    reveal_strlit("application/octet-stream");
                }
                return ascii_bytes("application/octet-stream");
            }
        }
        proof {
            assert(hs@.skip(i as int).drop_first() =~= hs@.skip(i as int + 1));
            assert(hs@.skip(i as int)[0] == hs@[i as int]);
        }
        i = i + 1;
    }
    proof {
        assert(hs@.skip(hs@.len() as int).len() == 0);
    }
    proof {
        reveal_strlit("application/octet-stream");
    }
    ascii_bytes("application/octet-stream")
}

/// Whether a body fits under the ceiling; an absent body always does.
pub open spec fn body_within(body: Option<Vec<u8>>, limit: usize) -> bool {
    match body {
        Option::Some(b) => b@.len() <= limit,
        Option::None => true,
    }
}

/// Why the request translator refuses an inbound request, if it does:
/// an unsupported method first, then an over-ceiling body.
pub open spec fn request_rejection(cfg: ProxyConfig, req: InboundRequest) -> Option<ProxyError> {
    if !method_supported(req.method) {
        Option::Some(ProxyError::UnsupportedMethod)
    } else if !body_within(req.body, cfg.body_limit) {
        Option::Some(ProxyError::PayloadTooLarge)
    } else {
        Option::None
    }
}

/// What the upstream request must be: the inbound method, the URL built
/// from origin, path and raw query, the headers that survive the
/// request-direction policy, and the inbound body unchanged.
pub open spec fn translated_request(
    cfg: ProxyConfig,
    req: InboundRequest,
    out: OutboundUpstreamRequest,
) -> bool {
    &&& out.method == req.method
    &&& out.url@ == upstream_url(cfg.base_url@, req.path@, req.query)
    &&& out.headers@ == kept_headers(cfg.policy, Direction::Request, req.headers@)
    &&& out.body == req.body
}

/// Build the upstream request from an inbound request, or refuse it.
/// Refusal happens before anything is built, hence before any network call.
pub fn translate_request(req: InboundRequest, cfg: &ProxyConfig) -> (r: Result<
    OutboundUpstreamRequest,
    ProxyError,
>)
    ensures
        r is Ok <==> request_rejection(*cfg, req) is None,
        r is Err ==> Option::Some(r->Err_0) == request_rejection(*cfg, req),
        r is Ok ==> translated_request(*cfg, req, r->Ok_0),
{
    if !req.method.is_supported() {
        return Result::Err(ProxyError::UnsupportedMethod);
    }
    match &req.body {
        Option::Some(b) => {
            if b.len() > cfg.body_limit {
                return Result::Err(ProxyError::PayloadTooLarge);
            }
        },
        Option::None => {},
    }
    let url = build_url(&cfg.base_url, &req.path, &req.query);
    let InboundRequest { method, headers, body, .. } = req;
    let headers = filter_headers(&cfg.policy, Direction::Request, headers);
    Result::Ok(OutboundUpstreamRequest { url, method, headers, body })
}

/// What the outbound response must be: the upstream status normalized, the
/// content type chosen as documented, the headers that survive the
/// response-direction policy, and the upstream body byte for byte.
pub open spec fn translated_response(
    policy: HeaderPolicy,
    up: UpstreamResponse,
    r: OutboundResponse,
) -> bool {
    &&& r.status == normalized_status(up.status)
    &&& r.content_type@ == response_content_type(policy, up.headers@)
    &&& r.headers@ == kept_headers(policy, Direction::Response, up.headers@)
    &&& r.body == up.body
}

/// Turn the upstream's answer into the outbound response. There is no
/// failure path: a malformed status is normalized, not rejected.
pub fn translate_response(resp: UpstreamResponse, policy: &HeaderPolicy) -> (r: OutboundResponse)
    ensures
        translated_response(*policy, resp, r),
{
    let status = normalize_status(resp.status);
    let content_type = find_content_type(policy, &resp.headers);
    let UpstreamResponse { headers, body, .. } = resp;
    let headers = filter_headers(policy, Direction::Response, headers);
    OutboundResponse { status, content_type, headers, body }
}

} // verus!
