//! The real bridging channel: trusted declarations and wrappers around the
//! unbounded FIFO channel of `futures::channel::mpsc`.
//!
//! The channel's interior is shared between the sending and the receiving
//! task, so nothing about its contents can be stated of either end alone;
//! the verified callers state what holds of every outcome instead. The
//! channel's own documented guarantees — unbounded capacity, non-blocking
//! sends, delivery in send order — are the ones this library's
//! `NotificationQueue` model states and proves.

use futures::channel::mpsc::{TryRecvError, UnboundedReceiver, UnboundedSender};

use vstd::prelude::*;

use crate::notification::JustificationNotification;

verus! {

#[verifier::external_type_specification]
#[verifier::external_body]
#[verifier::reject_recursive_types(T)]
pub struct ExUnboundedSender<T>(UnboundedSender<T>);

#[verifier::external_type_specification]
#[verifier::external_body]
#[verifier::reject_recursive_types(T)]
pub struct ExUnboundedReceiver<T>(UnboundedReceiver<T>);

/// Relies on futures::channel::mpsc::unbounded: creates the two ends of an
/// unbounded channel; every message sent on the first end arrives on the
/// second in send order, and sending never blocks.
#[verifier::external_body]
pub fn new_justification_channel() -> (r: (
    UnboundedSender<JustificationNotification>,
    UnboundedReceiver<JustificationNotification>,
)) {
    futures::channel::mpsc::unbounded()
}

/// Relies on futures::channel::mpsc::UnboundedSender::unbounded_send: the
/// channel is always ready, so the send fails only when the receiving end
/// is gone, and then the error hands the unsent message back unchanged.
#[verifier::external_body]
pub fn send_notification(
    tx: &UnboundedSender<JustificationNotification>,
    n: JustificationNotification,
) -> (r: Result<(), JustificationNotification>)
    ensures
        r matches Err(m) ==> m == n,
{
    tx.unbounded_send(n).map_err(|e| e.into_inner())
}

/// What one receive attempt on the bridging channel produced.
pub enum ChannelPoll {
    /// The oldest pending notification.
    Message(JustificationNotification),
    /// No notification pending right now, but the sending end remains.
    Pending,
    /// The channel is closed and fully drained: the finality path is gone.
    Terminated,
}

/// Relies on futures::channel::mpsc::UnboundedReceiver::try_recv: yields
/// the oldest pending message without blocking; an empty error means no
/// message is available yet, a closed error means the channel is closed
/// and drained.
#[verifier::external_body]
pub fn poll_notification(rx: &mut UnboundedReceiver<JustificationNotification>) -> (r: ChannelPoll) {
    match rx.try_recv() {
        Ok(n) => ChannelPoll::Message(n),
        Err(TryRecvError::Empty) => ChannelPoll::Pending,
        Err(TryRecvError::Closed) => ChannelPoll::Terminated,
    }
}

} // verus!
