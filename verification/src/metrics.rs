//! Finalization-latency metrics written by the justification bridge.
//!
//! The bridge records the enqueue timestamp of each notification, keyed by
//! the block hash it finalizes; when the finality task eventually applies
//! the finalization, the stored timestamp is matched back to measure the
//! round-trip latency. The first enqueue for a hash fixes its timestamp.

use std::collections::HashMap;

use vstd::prelude::*;

verus! {

broadcast use vstd::std_specs::hash::group_hash_axioms;

/// Per-block-hash enqueue timestamps, in milliseconds.
pub struct LatencyMetrics {
    pub enqueued_at: HashMap<u64, u64>,
}

impl View for LatencyMetrics {
    type V = Map<u64, u64>;

    open spec fn view(&self) -> Map<u64, u64> {
        self.enqueued_at@
    }
}

/// Round-trip latency from an enqueue timestamp to a finalize timestamp; a
/// clock that stepped backwards reads as zero latency.
pub open spec fn latency_between(enqueued_ms: u64, finalized_ms: u64) -> u64 {
    if finalized_ms >= enqueued_ms {
        (finalized_ms - enqueued_ms) as u64
    } else {
        0
    }
}

impl LatencyMetrics {
    /// An empty registry with no samples.
    pub fn new() -> (r: LatencyMetrics)
        ensures
            r@ == Map::<u64, u64>::empty(),
    {
        LatencyMetrics { enqueued_at: HashMap::new() }
    }

    /// Record that a notification for `block_hash` entered the channel at
    /// `now_ms`. The first enqueue for a hash fixes the timestamp; a
    /// repeated justification for the same block changes nothing.
    pub fn record_enqueue(&mut self, block_hash: u64, now_ms: u64)
        ensures
            old(self)@.contains_key(block_hash) ==> final(self)@ == old(self)@,
            !old(self)@.contains_key(block_hash) ==> final(self)@ == old(self)@.insert(
                block_hash,
                now_ms,
            ),
    {
        if !self.enqueued_at.contains_key(&block_hash) {
            self.enqueued_at.insert(block_hash, now_ms);
        }
    }

    /// Match a finalization at `now_ms` back to the enqueue of the same
    /// block hash: the round-trip latency where an enqueue was recorded,
    /// nothing where none was.
    pub fn observe_finalized(&self, block_hash: u64, now_ms: u64) -> (r: Option<u64>)
        ensures
            self@.contains_key(block_hash) ==> r == Some(
                latency_between(self@[block_hash], now_ms),
            ),
            !self@.contains_key(block_hash) ==> r is None,
    {
        match self.enqueued_at.get(&block_hash) {
            Some(t) => {
                if now_ms >= *t {
                    Some(now_ms - *t)
                } else {
                    Some(0)
                }
            },
            None => None,
        }
    }
}

} // verus!
