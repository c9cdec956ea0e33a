use revproxy::config::ProxyConfig;
use revproxy::model::{
    DispatchError, HeaderField, InboundRequest, Method, ProxyError, UpstreamResponse,
};
use revproxy::orchestrate::{conclude, error_response, prepare, ErrorResponse};
use revproxy::translate::{normalize_status, translate_request, translate_response};

fn config() -> ProxyConfig {
    ProxyConfig::new(b"https://upstream.example".to_vec())
}

fn header(name: &[u8], value: &[u8]) -> HeaderField {
    HeaderField::new(name.to_vec(), value.to_vec())
}

fn request(method: Method) -> InboundRequest {
    InboundRequest {
        method,
        path: vec![b"users".to_vec(), b"1".to_vec()],
        query: None,
        headers: Vec::new(),
        body: None,
    }
}

#[test]
fn bodyless_request_keeps_method_and_empty_body() {
    for method in [Method::Get, Method::Post, Method::Put, Method::Delete] {
        let out = translate_request(request(method), &config()).unwrap();
        assert_eq!(out.method, method);
        assert!(out.body.is_none());
    }
}

#[test]
fn unsupported_methods_refused() {
    for method in [Method::Head, Method::Options, Method::Patch] {
        let r = translate_request(request(method), &config());
        assert!(matches!(r, Err(ProxyError::UnsupportedMethod)));
    }
}

#[test]
fn url_joins_base_and_path() {
    let out = translate_request(request(Method::Get), &config()).unwrap();
    assert_eq!(out.url, b"https://upstream.example/users/1".to_vec());
}

#[test]
fn query_passthrough_is_byte_identical() {
    let mut req = request(Method::Get);
    req.query = Some(b"a=1&b=%20".to_vec());
    let out = translate_request(req, &config()).unwrap();
    assert_eq!(out.url, b"https://upstream.example/users/1?a=1&b=%20".to_vec());
}

#[test]
fn empty_query_adds_no_separator() {
    let mut req = request(Method::Get);
    req.query = Some(Vec::new());
    let out = translate_request(req, &config()).unwrap();
    assert_eq!(out.url, b"https://upstream.example/users/1".to_vec());
}

#[test]
fn empty_path_yields_origin_root() {
    let mut req = request(Method::Get);
    req.path = Vec::new();
    let out = translate_request(req, &config()).unwrap();
    assert_eq!(out.url, b"https://upstream.example/".to_vec());
}

#[test]
fn request_headers_round_trip_when_not_denied() {
    let mut req = request(Method::Get);
    req.headers = vec![
        header(b"Accept", b"application/json"),
        header(b"Host", b"local.example"),
        header(b"X-Custom", b"v1"),
    ];
    let out = translate_request(req, &config()).unwrap();
    assert_eq!(out.headers.len(), 2);
    assert_eq!(out.headers[0].name, b"Accept".to_vec());
    assert_eq!(out.headers[0].value, b"application/json".to_vec());
    assert_eq!(out.headers[1].name, b"X-Custom".to_vec());
    assert_eq!(out.headers[1].value, b"v1".to_vec());
}

#[test]
fn framing_headers_never_forwarded_upstream_whatever_the_casing() {
    let mut req = request(Method::Get);
    req.headers = vec![
        header(b"HOST", b"a"),
        header(b"Connection", b"keep-alive"),
        header(b"content-length", b"12"),
        header(b"Transfer-Encoding", b"chunked"),
    ];
    let out = translate_request(req, &config()).unwrap();
    assert!(out.headers.is_empty());
}

#[test]
fn forwarded_headers_keep_order_and_duplicates() {
    let mut req = request(Method::Get);
    req.headers = vec![
        header(b"Set-Also", b"first"),
        header(b"Accept", b"text/html"),
        header(b"Accept", b"application/json"),
        header(b"Set-Also", b"second"),
    ];
    let out = translate_request(req, &config()).unwrap();
    let pairs: Vec<(Vec<u8>, Vec<u8>)> =
        out.headers.into_iter().map(|h| (h.name, h.value)).collect();
    assert_eq!(
        pairs,
        vec![
            (b"Set-Also".to_vec(), b"first".to_vec()),
            (b"Accept".to_vec(), b"text/html".to_vec()),
            (b"Accept".to_vec(), b"application/json".to_vec()),
            (b"Set-Also".to_vec(), b"second".to_vec()),
        ]
    );
}

#[test]
fn dot_segments_pass_through_unnormalized() {
    // the proxy is not a file server: the path is never re-interpreted
    let mut req = request(Method::Get);
    req.path = vec![b"..".to_vec(), b"x".to_vec()];
    let out = translate_request(req, &config()).unwrap();
    assert_eq!(out.url, b"https://upstream.example/../x".to_vec());
}

#[test]
fn body_at_ceiling_accepted() {
    let mut cfg = config();
    cfg.body_limit = 8;
    let mut req = request(Method::Post);
    req.body = Some(vec![7u8; 8]);
    let out = translate_request(req, &cfg).unwrap();
    assert_eq!(out.body, Some(vec![7u8; 8]));
}

#[test]
fn body_one_byte_over_ceiling_refused_before_any_dispatch() {
    let mut cfg = config();
    cfg.body_limit = 8;
    let mut req = request(Method::Post);
    req.body = Some(vec![7u8; 9]);
    let r = prepare(req, &cfg);
    // refused during translation: no upstream request exists, so nothing
    // could have been dispatched
    let resp = r.err().expect("over-ceiling body must be refused");
    assert_eq!(resp.status, 413);
}

#[test]
fn default_ceiling_is_five_mebibytes() {
    let cfg = config();
    assert_eq!(cfg.body_limit, 5 * 1024 * 1024);
    assert_eq!(cfg.timeout_ms, 30_000);
}

#[test]
fn response_headers_filtered_and_body_copied() {
    let up = UpstreamResponse {
        status: 200,
        headers: vec![
            header(b"Content-Type", b"application/json"),
            header(b"Connection", b"close"),
            header(b"X-Server", b"up1"),
        ],
        body: b"{\"name\":\"a\"}".to_vec(),
    };
    let out = translate_response(up, &config().policy);
    assert_eq!(out.status, 200);
    assert_eq!(out.content_type, b"application/json".to_vec());
    assert_eq!(out.body, b"{\"name\":\"a\"}".to_vec());
    let names: Vec<Vec<u8>> = out.headers.iter().map(|h| h.name.clone()).collect();
    assert!(names.contains(&b"Content-Type".to_vec()));
    assert!(names.contains(&b"X-Server".to_vec()));
    assert!(!names.contains(&b"Connection".to_vec()));
}

#[test]
fn missing_content_type_defaults_to_octet_stream() {
    let up = UpstreamResponse { status: 204, headers: Vec::new(), body: Vec::new() };
    let out = translate_response(up, &config().policy);
    assert_eq!(out.content_type, b"application/octet-stream".to_vec());
}

#[test]
fn denied_content_type_falls_back_to_default() {
    let mut cfg = config();
    cfg.policy.deny(revproxy::policy::Direction::Response, b"Content-Type".to_vec());
    let up = UpstreamResponse {
        status: 200,
        headers: vec![header(b"Content-Type", b"text/html")],
        body: Vec::new(),
    };
    let out = translate_response(up, &cfg.policy);
    assert_eq!(out.content_type, b"application/octet-stream".to_vec());
    assert!(out.headers.is_empty());
}

#[test]
fn malformed_statuses_become_bad_gateway() {
    assert_eq!(normalize_status(0), 502);
    assert_eq!(normalize_status(999), 502);
    assert_eq!(normalize_status(99), 502);
    assert_eq!(normalize_status(600), 502);
    assert_eq!(normalize_status(100), 100);
    assert_eq!(normalize_status(599), 599);
    assert_eq!(normalize_status(404), 404);
}

#[test]
fn malformed_upstream_status_normalized_in_translation() {
    for s in [0u16, 999] {
        let up = UpstreamResponse { status: s, headers: Vec::new(), body: Vec::new() };
        let out = translate_response(up, &config().policy);
        assert_eq!(out.status, 502);
    }
}

#[test]
fn timeout_concludes_as_gateway_timeout_with_no_upstream_body() {
    let out = conclude(Err(DispatchError::Timeout), &config().policy);
    assert_eq!(out.status, 504);
    assert_eq!(out.body, b"upstream timeout".to_vec());
    assert!(out.headers.is_empty());
}

#[test]
fn unreachable_concludes_as_bad_gateway_without_the_cause() {
    let out = conclude(
        Err(DispatchError::Unreachable { cause: b"dns failure at 10.0.0.7".to_vec() }),
        &config().policy,
    );
    assert_eq!(out.status, 502);
    assert_eq!(out.body, b"upstream unreachable".to_vec());
}

#[test]
fn every_error_kind_maps_to_its_fixed_status() {
    let cases = [
        (ProxyError::UnsupportedMethod, 405u16, b"method not allowed".to_vec()),
        (ProxyError::PayloadTooLarge, 413, b"payload too large".to_vec()),
        (ProxyError::BodyReadFailure, 500, b"failed to read request body".to_vec()),
        (ProxyError::UpstreamTimeout, 504, b"upstream timeout".to_vec()),
        (ProxyError::UpstreamUnreachable, 502, b"upstream unreachable".to_vec()),
    ];
    for (kind, status, body) in cases {
        let r = error_response(&kind);
        assert_eq!(r.status, status);
        assert_eq!(r.body, body);
        assert_eq!(r.content_type, b"text/plain".to_vec());
    }
}

#[test]
fn error_detail_never_reaches_the_response() {
    let e = ErrorResponse::new(
        ProxyError::UpstreamUnreachable,
        b"connection reset by 10.0.0.7:443".to_vec(),
    );
    assert_eq!(e.status(), 502);
    let r = e.to_response();
    assert_eq!(r.body, b"upstream unreachable".to_vec());
}

#[test]
fn end_to_end_scenario() {
    // GET /users/1?fields=name with Accept: application/json
    let req = InboundRequest {
        method: Method::Get,
        path: vec![b"users".to_vec(), b"1".to_vec()],
        query: Some(b"fields=name".to_vec()),
        headers: vec![
            header(b"Accept", b"application/json"),
            header(b"Host", b"proxy.local"),
        ],
        body: None,
    };
    let cfg = config();
    let up_req = prepare(req, &cfg).ok().expect("scenario request must pass");
    assert_eq!(up_req.method, Method::Get);
    assert_eq!(up_req.url, b"https://upstream.example/users/1?fields=name".to_vec());
    assert_eq!(up_req.headers.len(), 1);
    assert_eq!(up_req.headers[0].name, b"Accept".to_vec());
    assert_eq!(up_req.headers[0].value, b"application/json".to_vec());
    assert!(up_req.body.is_none());

    // upstream answers 200, application/json, {"name":"a"}
    let up = UpstreamResponse {
        status: 200,
        headers: vec![header(b"Content-Type", b"application/json")],
        body: b"{\"name\":\"a\"}".to_vec(),
    };
    let out = conclude(Ok(up), &cfg.policy);
    assert_eq!(out.status, 200);
    assert_eq!(out.content_type, b"application/json".to_vec());
    assert_eq!(out.body, b"{\"name\":\"a\"}".to_vec());
}
