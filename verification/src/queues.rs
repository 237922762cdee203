//! The classified queues: three FIFO buffers, one per message kind.
//!
//! The reader worker is the sole producer (it pushes at the tail) and the
//! owner is the sole consumer (it pops from the head), so arrival order is
//! preserved within each kind.  No order is kept across kinds.  The owner is
//! expected to guard the structure with a mutual-exclusion lock held for a
//! single push or pop at a time; the contracts here describe exactly that
//! single operation.

use vstd::prelude::*;

use crate::msg::{Notification, Request, Response};

verus! {

/// The abstract contents of the three queues, head first.
#[verifier::ext_equal]
pub struct QueuesView {
    pub requests: Seq<Request>,
    pub notifications: Seq<Notification>,
    pub responses: Seq<Response>,
}

/// Three FIFO queues, one per message kind.
pub struct ClassifiedQueues {
    requests: Vec<Request>,
    notifications: Vec<Notification>,
    responses: Vec<Response>,
}

impl View for ClassifiedQueues {
    type V = QueuesView;

    closed spec fn view(&self) -> QueuesView {
        QueuesView {
            requests: self.requests@,
            notifications: self.notifications@,
            responses: self.responses@,
        }
    }
}

impl ClassifiedQueues {
    /// Three empty queues.
    pub fn new() -> (q: ClassifiedQueues)
        ensures
            q@.requests == Seq::<Request>::empty(),
            q@.notifications == Seq::<Notification>::empty(),
            q@.responses == Seq::<Response>::empty(),
    {
        ClassifiedQueues { requests: Vec::new(), notifications: Vec::new(), responses: Vec::new() }
    }

    /// Appends a request at the tail of the requests queue.
    pub fn push_request(&mut self, r: Request)
        ensures
            final(self)@.requests == old(self)@.requests.push(r),
            final(self)@.notifications == old(self)@.notifications,
            final(self)@.responses == old(self)@.responses,
    {
        self.requests.push(r);
    }

    /// Appends a notification at the tail of the notifications queue.
    pub fn push_notification(&mut self, n: Notification)
        ensures
            final(self)@.requests == old(self)@.requests,
            final(self)@.notifications == old(self)@.notifications.push(n),
            final(self)@.responses == old(self)@.responses,
    {
        self.notifications.push(n);
    }

    /// Appends a response at the tail of the responses queue.
    pub fn push_response(&mut self, r: Response)
        ensures
            final(self)@.requests == old(self)@.requests,
            final(self)@.notifications == old(self)@.notifications,
            final(self)@.responses == old(self)@.responses.push(r),
    {
        self.responses.push(r);
    }

    /// Removes and returns the request at the head, if any.
    pub fn pop_request(&mut self) -> (r: Option<Request>)
        ensures
            old(self)@.requests.len() == 0 ==> r is None && final(self)@ == old(self)@,
            old(self)@.requests.len() > 0 ==> (r == Some(old(self)@.requests[0])
                && final(self)@.requests == old(self)@.requests.drop_first()),
            final(self)@.notifications == old(self)@.notifications,
            final(self)@.responses == old(self)@.responses,
    {
        if self.requests.len() == 0 {
            None
        } else {
            Some(self.requests.remove(0))
        }
    }

    /// Removes and returns the notification at the head, if any.
    pub fn pop_notification(&mut self) -> (r: Option<Notification>)
        ensures
            old(self)@.notifications.len() == 0 ==> r is None && final(self)@ == old(self)@,
            old(self)@.notifications.len() > 0 ==> (r == Some(old(self)@.notifications[0])
                && final(self)@.notifications == old(self)@.notifications.drop_first()),
            final(self)@.requests == old(self)@.requests,
            final(self)@.responses == old(self)@.responses,
    {
        if self.notifications.len() == 0 {
            None
        } else {
            Some(self.notifications.remove(0))
        }
    }

    /// Removes and returns the response at the head, if any.
    pub fn pop_response(&mut self) -> (r: Option<Response>)
        ensures
            old(self)@.responses.len() == 0 ==> r is None && final(self)@ == old(self)@,
            old(self)@.responses.len() > 0 ==> (r == Some(old(self)@.responses[0])
                && final(self)@.responses == old(self)@.responses.drop_first()),
            final(self)@.requests == old(self)@.requests,
            final(self)@.notifications == old(self)@.notifications,
    {
        if self.responses.len() == 0 {
            None
        } else {
            Some(self.responses.remove(0))
        }
    }
}

} // verus!
