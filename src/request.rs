//! Requests handed to the consumer loop, each paired with a single-use reply slot
//! that is answered exactly once: by `respond`, or by the fallback that the owner
//! of an unanswered request runs when it lets the request go.

use vstd::prelude::*;
use crate::reply::ReplySlot;
use crate::response::{Response, ResponseView};
use vstd::string::StringSliceAdditionalSpecFns;

verus! {

#[verifier::external_type_specification]
#[verifier::external_body]
pub struct ExMethod(http::Method);

#[verifier::external_type_specification]
#[verifier::external_body]
pub struct ExHeaderValue(http::HeaderValue);

#[verifier::external_type_specification]
#[verifier::external_body]
#[verifier::reject_recursive_types(T)]
pub struct ExHeaderMap<T>(http::HeaderMap<T>);

/// Why `respond` did not deliver a response.
#[derive(Debug, PartialEq, Eq, Structural, Clone, Copy)]
pub enum RespondError {
    /// The reply slot was already used.
    AlreadyResponded,
    /// The connection waiting for the response is gone; the response is lost.
    ChannelClosed,
}

/// The text of the response that answers a request dropped without one.
pub const NO_RESPONSE_TEXT: &'static str = "No response";

/// The status of the response that answers a request dropped without one.
pub const NO_RESPONSE_STATUS: u16 = 500;

/// What the fallback hands to the reply slot.
pub open spec fn fallback_view() -> ResponseView {
    ResponseView {
        status: NO_RESPONSE_STATUS,
        headers: Seq::empty(),
        body: NO_RESPONSE_TEXT.spec_bytes(),
    }
}

/// A step that settles a request: afterwards it is answered, and an answer it
/// already had is kept.
pub open spec fn settles(before: Request, after: Request) -> bool {
    &&& after.is_answered()
    &&& before.is_answered() ==> after.answer() == before.answer()
    &&& before.wf() ==> after.wf()
}

/// A request gets exactly one response: once a step has settled it, any further
/// settling step (another `respond`, the fallback) leaves that response as it is.
pub proof fn lemma_answered_once(first: Request, second: Request, third: Request)
    requires
        first.wf(),
        settles(first, second),
        settles(second, third),
    ensures
        third.answer() is Some,
        third.answer() == second.answer(),
{
}

/// A request received on some connection, with its reply slot.
pub struct Request {
    method: http::Method,
    headers: http::HeaderMap,
    url: String,
    body: Vec<u8>,
    reply: ReplySlot,
}

impl Request {
    /// The reply slot has been used.
    pub closed spec fn is_answered(&self) -> bool {
        !self.reply.is_open()
    }

    /// A request is answered exactly when a response has been handed to its slot.
    pub open spec fn wf(&self) -> bool {
        self.is_answered() <==> self.answer() is Some
    }

    /// The response handed to the reply slot, once it has been answered.
    pub closed spec fn answer(&self) -> Option<ResponseView> {
        self.reply.sent()
    }

    pub closed spec fn method_value(&self) -> http::Method {
        self.method
    }

    pub closed spec fn header_map(&self) -> http::HeaderMap {
        self.headers
    }

    pub closed spec fn url_view(&self) -> Seq<char> {
        self.url@
    }

    pub closed spec fn body_view(&self) -> Seq<u8> {
        self.body@
    }

    /// A request that is not answered yet; its answer goes to `reply`.
    pub fn new(
        method: http::Method,
        headers: http::HeaderMap,
        url: String,
        body: Vec<u8>,
        reply: tokio::sync::oneshot::Sender<Response>,
    ) -> (r: Request)
        ensures
            r.wf(),
            !r.is_answered(),
            r.url_view() == url@,
            r.body_view() == body@,
            r.method_value() == method,
            r.header_map() == headers,
    {
        Request { method, headers, url, body, reply: ReplySlot::new(reply) }
    }

    /// The path and query, as received.
    pub fn url(&self) -> (r: &str)
        ensures
            r@ == self.url_view(),
    {
        self.url.as_str()
    }

    pub fn method(&self) -> (r: &http::Method)
        ensures
            *r == self.method_value(),
    {
        &self.method
    }

    pub fn headers(&self) -> (r: &http::HeaderMap)
        ensures
            *r == self.header_map(),
    {
        &self.headers
    }

    /// The whole body.
    pub fn body(&self) -> (r: &[u8])
        ensures
            r@ == self.body_view(),
    {
        self.body.as_slice()
    }

    /// Answers the request with `response`. The reply slot is used at most once: a
    /// second call fails with `AlreadyResponded` and changes nothing.
    pub fn respond(&mut self, response: Response) -> (r: Result<(), RespondError>)
        ensures
            old(self).is_answered() ==> r == Err::<(), RespondError>(
                RespondError::AlreadyResponded,
            ) && final(self).answer() == old(self).answer(),
            !old(self).is_answered() ==> final(self).answer() == Some(response@) && (r == Ok::<
                (),
                RespondError,
            >(()) || r == Err::<(), RespondError>(RespondError::ChannelClosed)),
            settles(*old(self), *final(self)),
            final(self).url_view() == old(self).url_view(),
            final(self).body_view() == old(self).body_view(),
    {
        if !self.reply.check_open() {
            return Err(RespondError::AlreadyResponded);
        }
        match self.reply.send(response) {
            Ok(()) => Ok(()),
            Err(_) => Err(RespondError::ChannelClosed),
        }
    }

    /// Answers the request with the fallback response (500, "No response") if
    /// nothing answered it before. The owner of a request calls this on every way
    /// out of the code that holds it, so that no request is left without an answer.
    pub fn answer_if_unanswered(&mut self)
        ensures
            !old(self).is_answered() ==> final(self).answer() == Some(fallback_view()),
            old(self).is_answered() ==> final(self).answer() == old(self).answer(),
            settles(*old(self), *final(self)),
            final(self).url_view() == old(self).url_view(),
            final(self).body_view() == old(self).body_view(),
    {
        if self.reply.check_open() {
            let fallback = Response::from_status_and_string(NO_RESPONSE_STATUS, NO_RESPONSE_TEXT);
            let _ = self.reply.send(fallback);
        }
    }
}

} // verus!
