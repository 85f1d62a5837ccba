//! The correlation table: pairing every outgoing request with the one-shot
//! channel that its eventual reply resolves.
//!
//! Request ids are allocated by a strictly increasing counter starting at
//! zero and are never reused; an entry is inserted when a command is
//! dispatched and removed exactly once, when a response naming its id
//! arrives. Resolving an id with no registered waiter is not an error: the
//! entry is simply absent and every other waiter is untouched.

use vstd::prelude::*;

use crate::channels::send_reply;
use crate::message::Outcome;
use std::collections::HashMap;
use tokio::sync::oneshot;

verus! {

broadcast use vstd::std_specs::hash::group_hash_axioms;

/// One-shot destination for the reply to a single request.
pub type ResponseHandler = oneshot::Sender<Outcome>;

/// Maps each outstanding request id to its reply destination and carries the
/// next id to hand out.
pub struct HandlerJar {
    handlers: HashMap<i64, ResponseHandler>,
    next_request_id: i64,
}

impl HandlerJar {
    /// The outstanding entries: one reply destination per registered id.
    pub closed spec fn handlers_model(&self) -> Map<i64, ResponseHandler> {
        self.handlers@
    }

    /// The id the next registration will take.
    pub closed spec fn next_id(&self) -> i64 {
        self.next_request_id
    }

    /// The counter never goes below zero, and every registered id was handed
    /// out before: ids below the counter, never at or above it. This is what
    /// makes a fresh id fresh.
    pub open spec fn wf(&self) -> bool {
        &&& 0 <= self.next_id()
        &&& forall|id: i64| #[trigger]
            self.handlers_model().dom().contains(id) ==> 0 <= id < self.next_id()
    }

    /// An empty jar; ids start at zero.
    pub fn new() -> (r: HandlerJar)
        ensures
            r.handlers_model() == Map::<i64, ResponseHandler>::empty(),
            r.next_id() == 0,
            r.wf(),
    {
        HandlerJar { handlers: HashMap::new(), next_request_id: 0 }
    }

    /// The id the next registration will take, read without allocating it.
    pub fn peek_next_id(&self) -> (id: i64)
        ensures
            id == self.next_id(),
    {
        self.next_request_id
    }

    /// Hands out the current id and moves the counter past it: strictly
    /// increasing, so no two calls ever return the same id.
    pub fn next_request_id(&mut self) -> (id: i64)
        requires
            old(self).next_id() < i64::MAX,
        ensures
            id == old(self).next_id(),
            final(self).next_id() == old(self).next_id() + 1,
            final(self).handlers_model() == old(self).handlers_model(),
            old(self).wf() ==> final(self).wf() && !old(self).handlers_model().dom().contains(id),
    {
        let id = self.next_request_id;
        self.next_request_id = self.next_request_id + 1;
        proof {
            if old(self).wf() && old(self).handlers_model().dom().contains(id) {
                assert(id < old(self).next_id());
            }
        }
        id
    }

    /// Registers a reply destination under `request_id` and returns the
    /// paired receiver for the caller to wait on.
    pub fn handler(&mut self, request_id: i64) -> (rx: oneshot::Receiver<Outcome>)
        ensures
            final(self).handlers_model().dom() == old(self).handlers_model().dom().insert(
                request_id,
            ),
            forall|id: i64|
                id != request_id && #[trigger] old(self).handlers_model().dom().contains(id)
                    ==> final(self).handlers_model()[id] == old(self).handlers_model()[id],
            final(self).next_id() == old(self).next_id(),
            old(self).wf() && 0 <= request_id < old(self).next_id() ==> final(self).wf(),
    {
        let (tx, rx) = crate::channels::reply_channel();
        self.handlers.insert(request_id, tx);
        proof {
            assert(final(self).handlers_model().dom() =~= old(self).handlers_model().dom().insert(
                request_id,
            ));
        }
        rx
    }

    /// Registers a caller-supplied reply destination under `request_id`.
    pub fn register(&mut self, request_id: i64, handler: ResponseHandler)
        ensures
            final(self).handlers_model() == old(self).handlers_model().insert(
                request_id,
                handler,
            ),
            final(self).next_id() == old(self).next_id(),
            old(self).wf() && 0 <= request_id < old(self).next_id() ==> final(self).wf(),
    {
        self.handlers.insert(request_id, handler);
        proof {
            if old(self).wf() && 0 <= request_id < old(self).next_id() {
                assert forall|id: i64| #[trigger]
                    self.handlers_model().dom().contains(id) implies 0 <= id < self.next_id() by {
                    if id != request_id {
                        assert(old(self).handlers_model().dom().contains(id));
                    }
                }
            }
        }
    }

    /// Removes and returns the reply destination registered under
    /// `request_id`, if one is.
    pub fn pop_handler(&mut self, request_id: i64) -> (r: Option<ResponseHandler>)
        ensures
            final(self).handlers_model() == old(self).handlers_model().remove(request_id),
            final(self).next_id() == old(self).next_id(),
            r is Some <==> old(self).handlers_model().dom().contains(request_id),
            r is Some ==> r.unwrap() == old(self).handlers_model()[request_id],
            old(self).wf() ==> final(self).wf(),
    {
        self.handlers.remove(&request_id)
    }

    /// Fires and removes the waiter registered under `request_id`, handing
    /// it the outcome. Returns whether a waiter was registered; if none is,
    /// nothing changes but the entry's (absent) slot, so no other pending
    /// waiter is affected.
    pub fn resolve(&mut self, request_id: i64, outcome: Outcome) -> (was_registered: bool)
        ensures
            final(self).handlers_model() == old(self).handlers_model().remove(request_id),
            final(self).next_id() == old(self).next_id(),
            was_registered == old(self).handlers_model().dom().contains(request_id),
            old(self).wf() ==> final(self).wf(),
    {
        match self.pop_handler(request_id) {
            Some(tx) => {
                let _delivered = send_reply(tx, outcome);
                true
            },
            None => false,
        }
    }
}

/// Resolving an id with no registered waiter leaves the table exactly as it
/// was: every other pending waiter keeps its destination.
pub proof fn lemma_resolve_absent_id_is_harmless(m: Map<i64, ResponseHandler>, request_id: i64)
    requires
        !m.dom().contains(request_id),
    ensures
        m.remove(request_id) == m,
{
    assert(m.remove(request_id) =~= m);
}

} // verus!
