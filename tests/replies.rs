use async_tiny::{
    into_io_error, path_and_query, received_body, reply_or_error, unavailable_response, Request,
    ReplySlot, RespondError, Response,
};
use tokio::sync::oneshot;

fn request(url: &str) -> (Request, oneshot::Receiver<Response>) {
    let (tx, rx) = oneshot::channel::<Response>();
    let r = Request::new(
        http::Method::GET,
        http::HeaderMap::new(),
        url.to_string(),
        b"payload".to_vec(),
        tx,
    );
    (r, rx)
}

#[test]
fn request_exposes_its_parts() {
    let (tx, _rx) = oneshot::channel::<Response>();
    let mut headers = http::HeaderMap::new();
    headers.insert("x-a", http::HeaderValue::from_static("1"));
    let r = Request::new(http::Method::POST, headers, "/foo?bar=1".to_string(), vec![1, 2], tx);
    assert_eq!(r.url(), "/foo?bar=1");
    assert_eq!(r.method(), &http::Method::POST);
    assert_eq!(r.headers().get("X-A").unwrap(), "1");
    assert_eq!(r.body(), &[1u8, 2][..]);
}

#[test]
fn respond_twice_fails_the_second_time() {
    let (mut r, mut rx) = request("/");
    assert_eq!(r.respond(Response::from_string("first")), Ok(()));
    assert_eq!(r.respond(Response::from_string("second")), Err(RespondError::AlreadyResponded));
    let got = rx.try_recv().ok().unwrap();
    assert_eq!(got.body(), b"first");
}

#[test]
fn respond_after_connection_gone_is_channel_closed() {
    let (mut r, rx) = request("/");
    drop(rx);
    assert_eq!(r.respond(Response::from_string("lost")), Err(RespondError::ChannelClosed));
    assert_eq!(r.respond(Response::from_string("again")), Err(RespondError::AlreadyResponded));
}

#[test]
fn unanswered_request_gets_500() {
    let (mut r, mut rx) = request("/");
    r.answer_if_unanswered();
    let got = rx.try_recv().ok().unwrap();
    assert_eq!(got.status(), 500);
    assert_eq!(got.body(), b"No response");
    assert!(got.headers().is_empty());
}

#[test]
fn fallback_after_respond_changes_nothing() {
    let (mut r, mut rx) = request("/");
    r.respond(Response::empty(201)).unwrap();
    r.answer_if_unanswered();
    assert_eq!(rx.try_recv().ok().unwrap().status(), 201);
    assert!(r.respond(Response::empty(202)).is_err());
}

#[test]
fn dropped_request_makes_the_connection_answer_500() {
    let (r, mut rx) = request("/");
    drop(r);
    let reply = rx.try_recv().ok();
    let written = reply_or_error(reply);
    assert_eq!(written.status(), 500);
    assert_eq!(written.body(), b"Internal Server Error");
}

#[test]
fn answered_reply_is_written_as_is() {
    let (mut r, mut rx) = request("/foo?bar=1");
    assert_eq!(r.url(), "/foo?bar=1");
    r.respond(Response::from_string("hi")).unwrap();
    let written = reply_or_error(rx.try_recv().ok());
    assert_eq!(written.status(), 200);
    assert_eq!(written.body(), b"hi");
}

#[test]
fn closed_queue_gets_503() {
    let r = unavailable_response();
    assert_eq!(r.status(), 503);
    assert_eq!(r.body(), b"Service Unavailable");
    assert_eq!(r.headers().len(), 1);
    assert_eq!(r.headers()[0].name(), "content-type");
    assert_eq!(r.headers()[0].value(), "text/plain; charset=utf-8");
}

#[test]
fn failed_body_read_is_empty() {
    assert!(received_body(None).is_empty());
    assert_eq!(received_body(Some(vec![9, 8])), vec![9, 8]);
}

#[test]
fn url_is_path_and_query() {
    let uri: http::Uri = "http://example.com/foo?bar=1".parse().unwrap();
    assert_eq!(path_and_query(uri.path_and_query().map(|p| p.as_str()), uri.path()), "/foo?bar=1");
    let uri = http::Uri::from_static("/foo?bar=1");
    assert_eq!(path_and_query(uri.path_and_query().map(|p| p.as_str()), uri.path()), "/foo?bar=1");
    let uri: http::Uri = "/only/path".parse().unwrap();
    assert_eq!(path_and_query(uri.path_and_query().map(|p| p.as_str()), uri.path()), "/only/path");
    assert_eq!(path_and_query(None, "/p"), "/p");
    assert_eq!(path_and_query(Some("/a?b=c"), "/a"), "/a?b=c");
}

#[test]
fn io_error_is_other_with_message() {
    let e = into_io_error("invalid socket address syntax");
    assert_eq!(e.kind(), std::io::ErrorKind::Other);
    assert_eq!(e.to_string(), "invalid socket address syntax");
}

#[test]
fn new_reply_slot_is_open() {
    let (tx, _rx) = oneshot::channel::<Response>();
    assert!(ReplySlot::new(tx).check_open());
}
