use revproxy::policy::{Direction, HeaderPolicy};

fn baseline() -> HeaderPolicy {
    HeaderPolicy::baseline()
}

#[test]
fn framing_names_denied_in_both_directions() {
    let p = baseline();
    for name in [
        b"host".to_vec(),
        b"connection".to_vec(),
        b"content-length".to_vec(),
        b"transfer-encoding".to_vec(),
    ] {
        assert!(!p.should_forward(Direction::Request, &name));
        assert!(!p.should_forward(Direction::Response, &name));
    }
}

#[test]
fn deny_matching_ignores_casing() {
    let p = baseline();
    assert!(!p.should_forward(Direction::Request, &b"Host".to_vec()));
    assert!(!p.should_forward(Direction::Request, &b"HOST".to_vec()));
    assert!(!p.should_forward(Direction::Request, &b"host".to_vec()));
    assert!(!p.should_forward(Direction::Response, &b"Transfer-Encoding".to_vec()));
    assert!(!p.should_forward(Direction::Response, &b"CONTENT-LENGTH".to_vec()));
}

#[test]
fn ordinary_names_forwarded() {
    let p = baseline();
    assert!(p.should_forward(Direction::Request, &b"Accept".to_vec()));
    assert!(p.should_forward(Direction::Request, &b"authorization".to_vec()));
    assert!(p.should_forward(Direction::Response, &b"Content-Type".to_vec()));
    assert!(p.should_forward(Direction::Response, &b"X-Custom".to_vec()));
}

#[test]
fn extra_denied_name_applies_to_its_direction_only() {
    let mut p = baseline();
    p.deny(Direction::Request, b"X-Frame-Options".to_vec());
    assert!(!p.should_forward(Direction::Request, &b"x-frame-options".to_vec()));
    assert!(!p.should_forward(Direction::Request, &b"X-FRAME-OPTIONS".to_vec()));
    assert!(p.should_forward(Direction::Response, &b"x-frame-options".to_vec()));
    // everything denied before stays denied
    assert!(!p.should_forward(Direction::Request, &b"Host".to_vec()));
}
