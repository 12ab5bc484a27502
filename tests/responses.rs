use async_tiny::{response_text, Header, Response};

fn pairs(r: &Response) -> Vec<(String, String)> {
    r.headers().iter().map(|h| (h.name().to_string(), h.value().to_string())).collect()
}

#[test]
fn from_text_ok() {
    let r = Response::from_string("ok");
    assert_eq!(r.status(), 200);
    assert_eq!(r.body(), b"ok");
    assert!(r.headers().is_empty());
}

#[test]
fn from_data_keeps_bytes() {
    let r = Response::from_data(vec![0, 255, 7]);
    assert_eq!(r.status(), 200);
    assert_eq!(r.body(), &[0u8, 255, 7][..]);
}

#[test]
fn from_string_encodes_utf8() {
    let r = Response::from_string("é");
    assert_eq!(r.body(), &[0xc3u8, 0xa9][..]);
}

#[test]
fn status_and_string() {
    let r = Response::from_status_and_string(404, "missing");
    assert_eq!(r.status(), 404);
    assert_eq!(r.body(), b"missing");
}

#[test]
fn invalid_status_falls_back_to_ok() {
    assert_eq!(Response::from_status_and_string(42, "x").status(), 200);
    assert_eq!(Response::empty(1000).status(), 200);
    assert_eq!(Response::empty(99).status(), 200);
    assert_eq!(Response::empty(0).status(), 200);
}

#[test]
fn status_range_bounds() {
    assert_eq!(Response::empty(100).status(), 100);
    assert_eq!(Response::empty(999).status(), 999);
}

#[test]
fn empty_has_no_body() {
    let r = Response::empty(204);
    assert_eq!(r.status(), 204);
    assert!(r.body().is_empty());
    assert!(r.headers().is_empty());
}

#[test]
fn with_status_code_keeps_body_and_headers() {
    let r = Response::from_string("x")
        .with_header(Header::new("X-A", "1").unwrap())
        .with_status_code(418);
    assert_eq!(r.status(), 418);
    assert_eq!(r.body(), b"x");
    assert_eq!(pairs(&r), vec![("x-a".to_string(), "1".to_string())]);
    assert_eq!(r.with_status_code(5).status(), 200);
}

#[test]
fn with_header_replaces_same_name() {
    let r = Response::from_string("x")
        .with_header(Header::new("X-A", "1").unwrap())
        .with_header(Header::new("X-B", "2").unwrap())
        .with_header(Header::new("x-a", "3").unwrap());
    assert_eq!(
        pairs(&r),
        vec![("x-a".to_string(), "3".to_string()), ("x-b".to_string(), "2".to_string())]
    );
}

#[test]
fn with_header_adds_new_name_last() {
    let r = Response::empty(200)
        .with_header(Header::new("B", "1").unwrap())
        .with_header(Header::new("A", "2").unwrap());
    assert_eq!(
        pairs(&r),
        vec![("b".to_string(), "1".to_string()), ("a".to_string(), "2".to_string())]
    );
}

#[test]
fn with_content_type_trims_value() {
    let r = Response::from_string("<p/>").with_content_type("  text/html ");
    assert_eq!(pairs(&r), vec![("content-type".to_string(), "text/html".to_string())]);
}

#[test]
fn text_response_carries_content_type() {
    let r = response_text(503, "Service Unavailable");
    assert_eq!(r.status(), 503);
    assert_eq!(r.body(), b"Service Unavailable");
    assert_eq!(
        pairs(&r),
        vec![("content-type".to_string(), "text/plain; charset=utf-8".to_string())]
    );
}

#[test]
fn cloned_header_is_equal() {
    let h = Header::new("X-A", "1").unwrap();
    let c = h.clone();
    assert_eq!(c.name(), "x-a");
    assert_eq!(c.value(), "1");
}
