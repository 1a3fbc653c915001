//! The two bounded single-producer/single-consumer channels, held in
//! heapless's `spsc::Queue`.
use vstd::prelude::*;
use heapless::consts::{U16, U2};
use heapless::spsc::Queue;
use crate::protocol::Response;

verus! {

/// Number of synchronous replies that the response channel holds.
pub const RESPONSE_CAPACITY: usize = 2;

/// Number of unsolicited events that the notification channel holds.
pub const NOTIFICATION_CAPACITY: usize = 16;

/// Channel of synchronous command results, front first.
#[verifier::external_body]
pub struct ResponseQueue {
    inner: Queue<Response, U2>,
}

/// Channel of unsolicited link events, front first.
#[verifier::external_body]
pub struct NotificationQueue {
    inner: Queue<Response, U16>,
}

/// What the response channel holds, oldest first.
pub uninterp spec fn response_items(q: ResponseQueue) -> Seq<Response>;

/// What the notification channel holds, oldest first.
pub uninterp spec fn notification_items(q: NotificationQueue) -> Seq<Response>;

impl ResponseQueue {
    pub open spec fn view(&self) -> Seq<Response> {
        response_items(*self)
    }

    /// Relies on heapless::spsc::Queue::new: the queue starts empty.
    #[verifier::external_body]
    pub fn new() -> (q: ResponseQueue)
        ensures
            response_items(q) == Seq::<Response>::empty(),
    {
        ResponseQueue { inner: Queue::new() }
    }

    /// Relies on heapless::spsc::Queue::enqueue: with fewer than its capacity
    /// (the type-level length) of items the item goes to the back, else it is
    /// handed back and the queue is unchanged.
    #[verifier::external_body]
    pub fn enqueue(&mut self, r: Response) -> (res: Result<(), Response>)
        ensures
            response_items(*old(self)).len() < RESPONSE_CAPACITY ==> res is Ok && response_items(*final(self)) == response_items(*old(self)).push(r),
            response_items(*old(self)).len() >= RESPONSE_CAPACITY ==> res is Err && res->Err_0 == r && response_items(*final(self)) == response_items(*old(self)),
    {
        self.inner.enqueue(r)
    }

    /// Relies on heapless::spsc::Queue::dequeue: removes and returns the front
    /// item, or `None` on an empty queue.
    #[verifier::external_body]
    pub fn dequeue(&mut self) -> (res: Option<Response>)
        ensures
            response_items(*old(self)).len() == 0 ==> res is None && response_items(*final(self)) == response_items(*old(self)),
            response_items(*old(self)).len() > 0 ==> res == Some(response_items(*old(self))[0]) && response_items(*final(self)) == response_items(*old(self)).drop_first(),
    {
        self.inner.dequeue()
    }

    /// Relies on heapless::spsc::Queue::len: the number of items held.
    #[verifier::external_body]
    pub fn len(&self) -> (n: usize)
        ensures
            n == response_items(*self).len(),
    {
        self.inner.len()
    }
}

impl NotificationQueue {
    pub open spec fn view(&self) -> Seq<Response> {
        notification_items(*self)
    }

    /// Relies on heapless::spsc::Queue::new: the queue starts empty.
    #[verifier::external_body]
    pub fn new() -> (q: NotificationQueue)
        ensures
            notification_items(q) == Seq::<Response>::empty(),
    {
        NotificationQueue { inner: Queue::new() }
    }

    /// Relies on heapless::spsc::Queue::enqueue: with fewer than its capacity
    /// (the type-level length) of items the item goes to the back, else it is
    /// handed back and the queue is unchanged.
    #[verifier::external_body]
    pub fn enqueue(&mut self, r: Response) -> (res: Result<(), Response>)
        ensures
            notification_items(*old(self)).len() < NOTIFICATION_CAPACITY ==> res is Ok && notification_items(*final(self)) == notification_items(*old(self)).push(r),
            notification_items(*old(self)).len() >= NOTIFICATION_CAPACITY ==> res is Err && res->Err_0 == r && notification_items(*final(self)) == notification_items(*old(self)),
    {
        self.inner.enqueue(r)
    }

    /// Relies on heapless::spsc::Queue::dequeue: removes and returns the front
    /// item, or `None` on an empty queue.
    #[verifier::external_body]
    pub fn dequeue(&mut self) -> (res: Option<Response>)
        ensures
            notification_items(*old(self)).len() == 0 ==> res is None && notification_items(*final(self)) == notification_items(*old(self)),
            notification_items(*old(self)).len() > 0 ==> res == Some(notification_items(*old(self))[0]) && notification_items(*final(self)) == notification_items(*old(self)).drop_first(),
    {
        self.inner.dequeue()
    }

    /// Relies on heapless::spsc::Queue::len: the number of items held.
    #[verifier::external_body]
    pub fn len(&self) -> (n: usize)
        ensures
            n == notification_items(*self).len(),
    {
        self.inner.len()
    }
}

} // verus!
