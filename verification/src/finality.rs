//! The bridge's return path: applying the finality task's decisions back
//! into the chain state.
//!
//! The finality task itself — the Byzantine-agreement algorithm that
//! verifies justifications — is an external collaborator. What this module
//! fixes is the contract the coordination layer depends on: notifications
//! are consumed in arrival order, a finalize call is applied only to a
//! block that is already imported, and a repeated justification for an
//! already-final block is a no-op, not an error.

use futures::channel::mpsc::UnboundedReceiver;

use vstd::prelude::*;

use crate::chain::{finalize_result, finalize_step, ChainState};
use crate::channel::{poll_notification, ChannelPoll};
use crate::metrics::{latency_between, LatencyMetrics};
use crate::notification::JustificationNotification;

verus! {

/// What applying one notification to the chain state amounted to.
#[derive(Clone, Copy, Debug, PartialEq, Eq, Structural)]
pub enum NotificationOutcome {
    /// The block is not imported yet: nothing is applied; finalization
    /// must wait for import visibility.
    AwaitingImport,
    /// The block became final now; carries the measured round-trip
    /// latency where the bridge had recorded the enqueue.
    Finalized(Option<u64>),
    /// The block was already final: no change in chain state and no
    /// error.
    AlreadyFinal,
}

/// The latency sample for a finalization at `now_ms`, where the bridge
/// recorded an enqueue timestamp for the hash.
pub open spec fn latency_sample(metrics: Map<u64, u64>, block_hash: u64, now_ms: u64) -> Option<
    u64,
> {
    if metrics.contains_key(block_hash) {
        Some(latency_between(metrics[block_hash], now_ms))
    } else {
        None
    }
}

/// Apply one justification notification to the chain state, the way the
/// finality task's finalize call reaches the chain: never before the
/// block's import, exactly once with effect, and idempotently afterwards.
/// Imported blocks are never touched.
pub fn apply_notification(
    chain: &mut ChainState,
    metrics: &LatencyMetrics,
    n: &JustificationNotification,
    now_ms: u64,
) -> (r: NotificationOutcome)
    requires
        old(chain)@.wf(),
    ensures
        final(chain)@ == finalize_step(old(chain)@, n.block_hash),
        final(chain)@.wf(),
        final(chain)@.imported == old(chain)@.imported,
        (match r {
            NotificationOutcome::AwaitingImport => !old(chain)@.imported_has(n.block_hash),
            NotificationOutcome::Finalized(l) => finalize_result(old(chain)@, n.block_hash)
                == Ok::<bool, crate::errors::FinalizeError>(true) && l == latency_sample(
                metrics@,
                n.block_hash,
                now_ms,
            ),
            NotificationOutcome::AlreadyFinal => finalize_result(old(chain)@, n.block_hash)
                == Ok::<bool, crate::errors::FinalizeError>(false),
        }),
{
    match chain.finalize(n.block_hash) {
        Err(_) => NotificationOutcome::AwaitingImport,
        Ok(false) => NotificationOutcome::AlreadyFinal,
        Ok(true) => NotificationOutcome::Finalized(
            metrics.observe_finalized(n.block_hash, now_ms),
        ),
    }
}

/// What one pump step of the finality return path produced.
#[derive(Clone, Copy, Debug, PartialEq, Eq, Structural)]
pub enum PumpOutcome {
    /// No notification pending right now; nothing changed.
    Idle,
    /// The bridging channel is closed and drained: the finality path is
    /// gone and the node must shut down.
    ChannelTerminated,
    /// The oldest pending notification was applied: its block hash and
    /// what applying it amounted to.
    Applied(u64, NotificationOutcome),
}

/// One step of the finality return path: take the oldest pending
/// notification from the bridging channel, if any, and apply it to the
/// chain state. Whatever came back from the channel, the chain state
/// stays well-formed, imported blocks are untouched, and any applied
/// finalization obeys the finalize rules for the applied hash.
pub fn pump_finality(
    chain: &mut ChainState,
    metrics: &LatencyMetrics,
    rx: &mut UnboundedReceiver<JustificationNotification>,
    now_ms: u64,
) -> (r: PumpOutcome)
    requires
        old(chain)@.wf(),
    ensures
        final(chain)@.wf(),
        final(chain)@.imported == old(chain)@.imported,
        r is Idle ==> final(chain)@ == old(chain)@,
        r is ChannelTerminated ==> final(chain)@ == old(chain)@,
        (match r {
            PumpOutcome::Applied(h, o) => final(chain)@ == finalize_step(old(chain)@, h)
                && (match o {
                NotificationOutcome::AwaitingImport => !old(chain)@.imported_has(h),
                NotificationOutcome::Finalized(l) => finalize_result(old(chain)@, h) == Ok::<
                    bool,
                    crate::errors::FinalizeError,
                >(true) && l == latency_sample(metrics@, h, now_ms),
                NotificationOutcome::AlreadyFinal => finalize_result(old(chain)@, h) == Ok::<
                    bool,
                    crate::errors::FinalizeError,
                >(false),
            }),
            _ => true,
        }),
{
    match poll_notification(rx) {
        ChannelPoll::Pending => PumpOutcome::Idle,
        ChannelPoll::Terminated => PumpOutcome::ChannelTerminated,
        ChannelPoll::Message(n) => {
            let h = n.block_hash;
            let o = apply_notification(chain, metrics, &n, now_ms);
            PumpOutcome::Applied(h, o)
        },
    }
}

} // verus!
