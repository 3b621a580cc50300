//! Justification bridge: the single point of contact for ordinary block
//! import and justification import inside the import queue.
//!
//! Ordinary block import is pure delegation to the chain state and never
//! touches finality. Justification import performs no verification: it
//! immediately enqueues a notification onto the bridging channel and
//! reports acceptance-for-processing, decoupling bursty network-driven
//! arrival from the finality task's strictly sequential consumption. A
//! failed send means the finality task is gone, which is fatal to the
//! node and surfaces as `ChannelClosed`.

use futures::channel::mpsc::UnboundedSender;

use vstd::prelude::*;

use crate::chain::{import_result, import_step, BlockRecord, ChainState};
use crate::channel::send_notification;
use crate::errors::{ChannelClosed, ImportFailure};
use crate::metrics::LatencyMetrics;
use crate::notification::JustificationNotification;

verus! {

/// The sending half of the bridging channel, with the latency registry the
/// bridge writes.
pub struct JustificationBridge {
    pub tx: UnboundedSender<JustificationNotification>,
    pub metrics: LatencyMetrics,
}

impl JustificationBridge {
    /// Wrap the sending end of the bridging channel; the latency registry
    /// starts empty.
    pub fn new(tx: UnboundedSender<JustificationNotification>) -> (r: JustificationBridge)
        ensures
            r.metrics@ == Map::<u64, u64>::empty(),
    {
        JustificationBridge { tx, metrics: LatencyMetrics::new() }
    }

    /// Ordinary block import: delegate to the chain state's import and
    /// return its verdict unchanged. Touches no finality state and no
    /// metric.
    pub fn import_block(
        &self,
        chain: &mut ChainState,
        block: BlockRecord,
        seal_valid: bool,
    ) -> (r: Result<(), ImportFailure>)
        requires
            old(chain)@.wf(),
        ensures
            r == import_result(old(chain)@, block, seal_valid),
            final(chain)@ == import_step(old(chain)@, block, seal_valid),
            final(chain)@.wf(),
            final(chain)@.finalized == old(chain)@.finalized,
    {
        chain.import_block(block, seal_valid)
    }

    /// Justification import: no verification here. Enqueue the evidence
    /// onto the bridging channel and report acceptance-for-processing —
    /// accepted, not finalized. On success the enqueue timestamp is
    /// recorded against the block hash for latency measurement; a failed
    /// send means the finality task's receiving end is gone, nothing is
    /// recorded, and the fatal `ChannelClosed` is surfaced.
    pub fn import_justification(
        &mut self,
        block_hash: u64,
        number: u64,
        justification: Vec<u8>,
        now_ms: u64,
    ) -> (r: Result<(), ChannelClosed>)
        ensures
            r is Ok && !old(self).metrics@.contains_key(block_hash) ==> final(self).metrics@
                == old(self).metrics@.insert(block_hash, now_ms),
            r is Ok && old(self).metrics@.contains_key(block_hash) ==> final(self).metrics@
                == old(self).metrics@,
            r is Err ==> final(self).metrics@ == old(self).metrics@,
            r is Err ==> r == Err::<(), ChannelClosed>(ChannelClosed),
    {
        let n = JustificationNotification { block_hash, number, justification };
        match send_notification(&self.tx, n) {
            Ok(_) => {
                self.metrics.record_enqueue(block_hash, now_ms);
                Ok(())
            },
            Err(_) => Err(ChannelClosed),
        }
    }
}

} // verus!
