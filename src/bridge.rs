//! The decisions a connection makes around each request: the URL and body it
//! hands on, and the response it writes back when the consumer answered, when
//! nobody will answer, and when the queue is closed.

use vstd::prelude::*;
use crate::header::Header;
use crate::response::{Response, ResponseView, status_or_ok};
use vstd::string::StringSliceAdditionalSpecFns;

verus! {

/// The Content-Type of the responses the bridge writes itself.
pub const TEXT_CONTENT_TYPE: &'static str = "text/plain; charset=utf-8";

/// The body of the response to a request that cannot be queued.
pub const UNAVAILABLE_TEXT: &'static str = "Service Unavailable";

/// The status of the response to a request that cannot be queued.
pub const UNAVAILABLE_STATUS: u16 = 503;

/// The body of the response to a request whose reply slot closed unanswered.
pub const INTERNAL_ERROR_TEXT: &'static str = "Internal Server Error";

/// The status of the response to a request whose reply slot closed unanswered.
pub const INTERNAL_ERROR_STATUS: u16 = 500;

/// A plain-text response with the given status and body.
pub open spec fn text_view(status: u16, body: Seq<u8>) -> ResponseView {
    ResponseView {
        status: status_or_ok(status),
        headers: seq![("content-type"@, TEXT_CONTENT_TYPE@)],
        body,
    }
}

/// A plain-text response: the status for `status` (200 if not accepted), the UTF-8
/// encoding of `text` as body, and a Content-Type header saying so.
pub fn response_text(status: u16, text: &str) -> (r: Response)
    ensures
        r@ == text_view(status, text.spec_bytes()),
{
    let base = Response::from_status_and_string(status, text);
    proof {
        reveal_strlit("content-type");
        reveal_strlit("text/plain; charset=utf-8");
    }
    match Header::new("content-type", TEXT_CONTENT_TYPE) {
        Ok(h) => {
            assert(crate::header::to_lower("content-type"@) =~= "content-type"@);
            let r = base.with_header(h);
            assert(!crate::response::has_name(Seq::empty(), h@.0));
            assert(r@.headers =~= seq![("content-type"@, TEXT_CONTENT_TYPE@)]);
            r
        },
        Err(_) => base,
    }
}

/// The response written at once for a request that could not be queued because
/// the consumer is gone.
pub fn unavailable_response() -> (r: Response)
    ensures
        r@ == text_view(UNAVAILABLE_STATUS, UNAVAILABLE_TEXT.spec_bytes()),
{
    response_text(UNAVAILABLE_STATUS, UNAVAILABLE_TEXT)
}

/// The response a connection writes once its reply slot settles: the answer if
/// one came, else a 500 because the slot closed without one.
pub fn reply_or_error(reply: Option<Response>) -> (r: Response)
    ensures
        reply matches Some(a) ==> r@ == a@,
        reply is None ==> r@ == text_view(INTERNAL_ERROR_STATUS, INTERNAL_ERROR_TEXT.spec_bytes()),
{
    match reply {
        Some(a) => a,
        None => response_text(INTERNAL_ERROR_STATUS, INTERNAL_ERROR_TEXT),
    }
}

/// The body a request carries: what was read, or nothing when reading failed.
pub fn received_body(collected: Option<Vec<u8>>) -> (r: Vec<u8>)
    ensures
        collected matches Some(b) ==> r@ == b@,
        collected is None ==> r@ == Seq::<u8>::empty(),
{
    match collected {
        Some(b) => b,
        None => Vec::new(),
    }
}

/// The URL a request exposes: the URI's path and query when it has that part,
/// else its path alone. Scheme and authority are not part of it.
pub fn path_and_query(pq_part: Option<&str>, path: &str) -> (r: String)
    ensures
        pq_part matches Some(pq) ==> r@ == pq@,
        pq_part is None ==> r@ == path@,
{
    match pq_part {
        Some(pq) => pq.to_string(),
        None => path.to_string(),
    }
}

} // verus!
