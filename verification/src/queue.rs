//! Model of the bridging channel: an unbounded FIFO queue of justification
//! notifications with an attached or dropped receiving end.
//!
//! The real pipeline moves notifications over an asynchronous channel whose
//! interior is outside this library; this queue states and proves the
//! semantics that the pipeline relies on: unbounded capacity, a sender that
//! never blocks, delivery in exactly the enqueue order, and a fatal
//! `ChannelClosed` once the receiving end is gone.

use vstd::prelude::*;

use crate::errors::ChannelClosed;
use crate::notification::JustificationNotification;

verus! {

/// FIFO queue of pending notifications. `receiver_live` is whether the
/// consuming end still exists; once it is gone nothing can be enqueued
/// again.
pub struct NotificationQueue {
    pub items: Vec<JustificationNotification>,
    pub receiver_live: bool,
}

impl View for NotificationQueue {
    type V = Seq<JustificationNotification>;

    open spec fn view(&self) -> Seq<JustificationNotification> {
        self.items@
    }
}

impl NotificationQueue {
    /// Whether the consuming end still exists.
    pub open spec fn live(self) -> bool {
        self.receiver_live
    }

    /// A fresh empty channel with a live receiving end.
    pub fn new() -> (r: NotificationQueue)
        ensures
            r@ == Seq::<JustificationNotification>::empty(),
            r.live(),
    {
        NotificationQueue { items: Vec::new(), receiver_live: true }
    }

    /// Number of pending notifications.
    pub fn len(&self) -> (r: usize)
        ensures
            r == self@.len(),
    {
        self.items.len()
    }

    /// Enqueue one notification. Never blocks: while the receiving end
    /// lives the notification is appended behind everything enqueued
    /// earlier; once the receiving end is gone the send fails with the
    /// fatal `ChannelClosed` and nothing changes.
    pub fn enqueue(&mut self, n: JustificationNotification) -> (r: Result<(), ChannelClosed>)
        ensures
            old(self).live() ==> r == Ok::<(), ChannelClosed>(()) && final(self)@ == old(
                self,
            )@.push(n),
            !old(self).live() ==> r == Err::<(), ChannelClosed>(ChannelClosed) && final(self)@
                == old(self)@,
            final(self).live() == old(self).live(),
    {
        if self.receiver_live {
            self.items.push(n);
            Ok(())
        } else {
            Err(ChannelClosed)
        }
    }

    /// Take the oldest pending notification, if any: delivery happens at
    /// the front, in enqueue order.
    pub fn dequeue(&mut self) -> (r: Option<JustificationNotification>)
        ensures
            old(self)@.len() == 0 ==> r is None && final(self)@ == old(self)@,
            old(self)@.len() > 0 ==> (r matches Some(n) && n == old(self)@[0] && final(self)@
                == old(self)@.remove(0)),
            final(self).live() == old(self).live(),
    {
        if self.items.len() == 0 {
            None
        } else {
            Some(self.items.remove(0))
        }
    }

    /// Take every pending notification at once, in enqueue order: the
    /// returned vector is exactly the queue's contents, oldest first.
    pub fn drain(&mut self) -> (r: Vec<JustificationNotification>)
        ensures
            r@ == old(self)@,
            final(self)@.len() == 0,
            final(self).live() == old(self).live(),
    {
        let mut out: Vec<JustificationNotification> = Vec::new();
        proof {
            assert(out@ + self@ =~= old(self)@);
        }
        while self.items.len() > 0
            invariant
                out@ + self.items@ == old(self)@,
                self.receiver_live == old(self).receiver_live,
            decreases self.items@.len(),
        {
            let n = self.items.remove(0);
            out.push(n);
            proof {
                assert(out@ + self.items@ =~= old(self)@);
            }
        }
        proof {
            assert(out@ =~= old(self)@);
        }
        out
    }

    /// Drop the receiving end: pending notifications are lost and every
    /// later enqueue fails with `ChannelClosed`.
    pub fn close_receiver(&mut self)
        ensures
            !final(self).live(),
            final(self)@ == Seq::<JustificationNotification>::empty(),
    {
        self.receiver_live = false;
        self.items = Vec::new();
    }
}

/// Contents of the channel after notifications `xs` are enqueued behind an
/// existing backlog `s`.
pub open spec fn enqueue_all(
    s: Seq<JustificationNotification>,
    xs: Seq<JustificationNotification>,
) -> Seq<JustificationNotification> {
    s + xs
}

/// The bridging channel is FIFO: with backlog `s` already pending, the
/// k-th notification enqueued afterwards stands at delivery position
/// `|s| + k`, so consumption order equals enqueue order, with no
/// reordering and no deduplication.
pub proof fn lemma_channel_fifo(
    s: Seq<JustificationNotification>,
    xs: Seq<JustificationNotification>,
    k: int,
)
    requires
        0 <= k < xs.len(),
    ensures
        enqueue_all(s, xs).len() == s.len() + xs.len(),
        enqueue_all(s, xs)[s.len() + k] == xs[k],
{
}

} // verus!
