//! The challenge responder's decision core: a single-shot server that answers
//! exactly one well-known path with the key authorization, 404s everything
//! else, and stops serving after the first match or the first receive error.
//!
//! The listener itself lives outside the library; it hands each request's
//! path in and carries the chosen reply out.

use vstd::prelude::*;

verus! {

/// Whether the responder is still serving, and how it ended if not.
#[derive(Clone, Copy, PartialEq, Eq, Structural, Debug)]
pub enum ResponderState {
    /// Still accepting requests.
    Serving,
    /// The expected challenge request was observed and answered.
    DoneSuccess,
    /// The listener erred before the challenge request arrived.
    DoneFailure,
}

/// The reply chosen for one request.
pub enum HttpReply {
    /// Status 200 with the key authorization as body; serving stops.
    Challenge { body: String },
    /// Status 404; serving continues.
    NotFound,
}

/// The kind of reply, at the specification level.
#[derive(Clone, Copy, PartialEq, Eq, Structural, Debug)]
pub enum ReplyKind {
    Challenge,
    NotFound,
}

/// The single-shot challenge responder.
pub struct Responder {
    /// The well-known path the challenge fetch must use.
    pub expected_path: String,
    /// The proof-of-possession body served on a match.
    pub key_authorization: String,
    /// Whether the responder still serves.
    pub state: ResponderState,
}

/// The reply a serving responder chooses for a request path.
pub open spec fn reply_kind_spec(s: Responder, url: Seq<char>) -> ReplyKind {
    if url == s.expected_path@ {
        ReplyKind::Challenge
    } else {
        ReplyKind::NotFound
    }
}

/// The responder after a serving responder handled a request path.
pub open spec fn after_request_spec(s: Responder, url: Seq<char>) -> Responder {
    if url == s.expected_path@ {
        Responder { state: ResponderState::DoneSuccess, ..s }
    } else {
        s
    }
}

impl Responder {
    /// A fresh responder for one challenge.
    pub fn new(expected_path: String, key_authorization: String) -> (r: Responder)
        ensures
            r.expected_path@ == expected_path@,
            r.key_authorization@ == key_authorization@,
            r.state is Serving,
    {
        Responder { expected_path, key_authorization, state: ResponderState::Serving }
    }

    /// Handles one request while serving: the matching path is answered with
    /// the key authorization and ends the serving; any other path is answered
    /// not-found and serving continues.
    pub fn on_request(&mut self, url: &String) -> (r: HttpReply)
        requires
            old(self).state is Serving,
        ensures
            *final(self) == after_request_spec(*old(self), url@),
            url@ == old(self).expected_path@ ==> (r matches HttpReply::Challenge { body }
                && body@ == old(self).key_authorization@),
            url@ != old(self).expected_path@ ==> r is NotFound,
    {
        if *url == self.expected_path {
            self.state = ResponderState::DoneSuccess;
            HttpReply::Challenge { body: self.key_authorization.clone() }
        } else {
            HttpReply::NotFound
        }
    }

    /// Records a transport-level receive error: serving stops in failure.
    pub fn on_receive_error(&mut self)
        requires
            old(self).state is Serving,
        ensures
            final(self).state is DoneFailure,
            final(self).expected_path == old(self).expected_path,
            final(self).key_authorization == old(self).key_authorization,
    {
        self.state = ResponderState::DoneFailure;
    }

    /// Whether the challenge request was observed; meaningful once serving
    /// has stopped.
    pub fn observed(&self) -> (r: bool)
        ensures
            r == (self.state is DoneSuccess),
    {
        match self.state {
            ResponderState::DoneSuccess => true,
            _ => false,
        }
    }
}

/// Single-shot responder: a serving responder answers a non-matching request
/// not-found and keeps serving, answers the following matching request with
/// the challenge and stops, and — no longer serving — accepts no third
/// request (`on_request` requires a serving responder).
pub proof fn lemma_single_shot(s: Responder, miss: Seq<char>, hit: Seq<char>)
    requires
        s.state is Serving,
        miss != s.expected_path@,
        hit == s.expected_path@,
    ensures
        reply_kind_spec(s, miss) is NotFound,
        after_request_spec(s, miss).state is Serving,
        reply_kind_spec(after_request_spec(s, miss), hit) is Challenge,
        after_request_spec(after_request_spec(s, miss), hit).state is DoneSuccess,
        !(after_request_spec(after_request_spec(s, miss), hit).state is Serving),
{
}

} // verus!
