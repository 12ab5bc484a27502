//! The reply slot: a single-use channel from the code that answers a request to
//! the connection that waits for the answer.

use vstd::prelude::*;
use crate::response::{Response, ResponseView};

verus! {

#[verifier::external_type_specification]
#[verifier::external_body]
#[verifier::reject_recursive_types(T)]
pub struct ExSender<T>(tokio::sync::oneshot::Sender<T>);

/// The single-use channel on which a request's response goes back to its
/// connection. It records the response handed to it; only sending sets that record.
pub struct ReplySlot {
    tx: Option<tokio::sync::oneshot::Sender<Response>>,
    sent: Ghost<Option<ResponseView>>,
}

impl ReplySlot {
    /// The slot has not been used yet.
    pub closed spec fn is_open(&self) -> bool {
        self.tx is Some
    }

    /// The response handed to the slot, once it has been used.
    pub closed spec fn sent(&self) -> Option<ResponseView> {
        self.sent@
    }

    /// A slot is used exactly when a response has been handed to it.
    pub open spec fn wf(&self) -> bool {
        self.is_open() <==> self.sent() is None
    }

    /// An open slot whose response goes to `tx`.
    pub fn new(tx: tokio::sync::oneshot::Sender<Response>) -> (r: ReplySlot)
        ensures
            r.is_open(),
            r.sent() is None,
    {
        ReplySlot { tx: Some(tx), sent: Ghost(None) }
    }

    /// Whether the slot has not been used yet.
    pub fn check_open(&self) -> (r: bool)
        ensures
            r == self.is_open(),
    {
        self.tx.is_some()
    }

    /// Relies on tokio's `oneshot::Sender::send`: the response goes to the receiving
    /// side, or comes back unchanged when that side is gone. Either way the sender
    /// is used up, and the slot holds the response as the one it was handed.
    #[verifier::external_body]
    pub(crate) fn send(&mut self, response: Response) -> (r: Result<(), Response>)
        requires
            old(self).is_open(),
        ensures
            !final(self).is_open(),
            final(self).sent() == Some(response@),
            r matches Err(v) ==> v@ == response@,
    {
        match self.tx.take() {
            Some(tx) => tx.send(response),
            None => Err(response),
        }
    }
}

} // verus!
