//! Model of the session's inbound request queue.
//!
//! The real queue is an unbounded multi-producer channel: many cloneable
//! sender handles, one receiver owned by the session task, non-blocking
//! sends, and a distinguishable "closed" read result — the normal
//! end-of-session signal, raised once every sender handle is gone. This
//! model holds exactly the entries that have landed in the queue and have
//! not yet been drained, in the order they landed, which is the order the
//! session drains them; the async plumbing that feeds it lives outside the
//! verified core.

use crate::request::{ReqV, Request};
use vstd::prelude::*;

verus! {

/// The inbound queue: undrained `(request, reply-channel token)` entries in
/// submission order, and whether the sending side is closed.
pub struct SessionQueue {
    items: Vec<(Request, u64)>,
    closed: bool,
}

/// Mathematical model of the inbound queue.
pub ghost struct SessionQueueV {
    pub items: Seq<(ReqV, u64)>,
    pub closed: bool,
}

impl View for SessionQueue {
    type V = SessionQueueV;

    closed spec fn view(&self) -> SessionQueueV {
        SessionQueueV {
            items: self.items@.map_values(|p: (Request, u64)| (p.0@, p.1)),
            closed: self.closed,
        }
    }
}

impl SessionQueue {
    /// A fresh, open, empty queue.
    pub fn new() -> (q: SessionQueue)
        ensures
            q@.items == Seq::<(ReqV, u64)>::empty(),
            !q@.closed,
    {
        let q = SessionQueue { items: Vec::new(), closed: false };
        proof {
            assert(q@.items =~= Seq::<(ReqV, u64)>::empty());
        }
        q
    }

    /// Submits a request together with the token of its reply channel.
    /// Never blocks and never panics: it fails exactly when the queue is
    /// closed — the session task is gone — returning the request to the
    /// caller and leaving the queue unchanged.
    pub fn send(&mut self, req: Request, reply: u64) -> (r: Result<(), Request>)
        ensures
            old(self)@.closed ==> (r matches Err(back) && back@ == req@ && final(self)@ == old(
                self,
            )@),
            !old(self)@.closed ==> r is Ok && !final(self)@.closed && final(self)@.items == old(
                self,
            )@.items.push((req@, reply)),
    {
        let ghost pre = self@;
        if self.closed {
            Err(req)
        } else {
            let ghost req_v = req@;
            self.items.push((req, reply));
            proof {
                assert(self@.items =~= pre.items.push((req_v, reply)));
            }
            Ok(())
        }
    }

    /// Closes the sending side: the signal that the last enqueuer handle was
    /// dropped. Entries already queued stay queued.
    pub fn close(&mut self)
        ensures
            final(self)@.closed,
            final(self)@.items == old(self)@.items,
    {
        self.closed = true;
    }

    /// Removes and returns the oldest undrained entry, or nothing if the
    /// queue is currently empty.
    pub fn pop_front(&mut self) -> (r: Option<(Request, u64)>)
        ensures
            final(self)@.closed == old(self)@.closed,
            old(self)@.items.len() == 0 ==> r is None && final(self)@.items == old(self)@.items,
            old(self)@.items.len() > 0 ==> (r matches Some(p) && (p.0@, p.1) == old(
                self,
            )@.items[0] && final(self)@.items == old(self)@.items.skip(1)),
    {
        let ghost pre = self@;
        if self.items.len() == 0 {
            None
        } else {
            let p = self.items.remove(0);
            proof {
                assert(self@.items =~= pre.items.skip(1));
            }
            Some(p)
        }
    }

    /// How many entries are queued and not yet drained.
    pub fn len(&self) -> (n: usize)
        ensures
            n == self@.items.len(),
    {
        self.items.len()
    }

    /// Whether the sending side is closed.
    pub fn is_closed(&self) -> (r: bool)
        ensures
            r == self@.closed,
    {
        self.closed
    }
}

} // verus!
