//! The thread-safe message inbox.
use vstd::prelude::*;
use std::sync::Arc;
use std::sync::Condvar;
use std::sync::Mutex;

verus! {

/// The queue and its wake-up signal, shared by every handle to one inbox.
#[verifier::reject_recursive_types(M)]
struct Inbox<M> {
    queue: Mutex<Vec<M>>,
    signal: Condvar,
}

/// A concurrency-safe inbox of pending messages.
///
/// Cloning a `Mailbox` yields another handle to the same underlying inbox, so
/// any thread may post while one drainer blocks in [`Mailbox::take_all`].
/// The inbox grows without bound when producers outpace the drainer: there is
/// no backpressure and no dropped-message policy.
#[verifier::reject_recursive_types(M)]
pub struct Mailbox<M: Send> {
    inbox: Arc<Inbox<M>>,
}

impl<M: Send> Clone for Mailbox<M> {
    /// Relies on std::sync::Arc::clone: the clone is another handle to the
    /// same allocation, so as a value it equals the original.
    #[verifier::external_body]
    fn clone(&self) -> (r: Self)
        ensures
            r == *self,
    {
        Mailbox { inbox: Arc::clone(&self.inbox) }
    }
}

impl<M: Send> Mailbox<M> {
    /// Creates an empty inbox.
    pub fn new() -> Self {
        Mailbox {
            inbox: Arc::new(Inbox { queue: Mutex::new(Vec::new()), signal: Condvar::new() }),
        }
    }

    /// Appends one message atomically, then wakes one blocked drainer if any.
    ///
    /// Relies on std::sync::Mutex::lock, Vec::push and
    /// std::sync::Condvar::notify_one: the message is enqueued behind all
    /// earlier ones while the lock is held. Never blocks; panics only if the
    /// lock was poisoned by a holder that panicked.
    #[verifier::external_body]
    pub fn post(&self, m: M) {
        let mut queue = self.inbox.queue.lock().unwrap();
        queue.push(m);
        self.inbox.signal.notify_one();
    }

    /// Blocks until the inbox is non-empty, then atomically takes everything,
    /// leaving the inbox empty; the result keeps the arrival order.
    ///
    /// Relies on std::sync::Mutex::lock, std::sync::Condvar::wait and
    /// std::mem::take: waiting re-checks emptiness in a loop, so a spurious
    /// wake-up never lets an empty drain through; the swap happens under the
    /// lock, so no concurrent post is lost or delivered twice.
    #[verifier::external_body]
    pub fn take_all(&self) -> (r: Vec<M>)
        ensures
            r@.len() > 0,
    {
        let mut queue = self.inbox.queue.lock().unwrap();
        while queue.is_empty() {
            queue = self.inbox.signal.wait(queue).unwrap();
        }
        std::mem::take(&mut *queue)
    }
}

} // verus!
