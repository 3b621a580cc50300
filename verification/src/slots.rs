//! Block-production wiring: slot arithmetic and the decision a single
//! production slot makes.
//!
//! The authoring algorithm itself (leader election, proposal building,
//! seal creation) is an external collaborator; this module derives the
//! slot-scoped inherent data from the wall clock and the per-block time
//! budget, and fixes how one slot's outcome affects the shared chain
//! state: a slot without authority rights is a skip, a failed proposal is
//! logged and the loop continues, and no outcome of one slot can abort the
//! next.

use vstd::prelude::*;

use crate::chain::{import_result, import_step, BlockRecord, ChainState};
use crate::errors::ImportFailure;
use crate::timing::MillisecsPerBlock;

verus! {

/// Slot-scoped inherent data: the wall-clock timestamp a slot starts from
/// and the slot index derived from it.
#[derive(Clone, Copy, Debug, PartialEq, Eq, Structural)]
pub struct InherentData {
    pub timestamp_ms: u64,
    pub slot: u64,
}

/// The slot index that a wall-clock timestamp falls into, given the
/// per-block time budget.
pub open spec fn slot_of(timestamp_ms: u64, budget_ms: u64) -> u64
    recommends
        budget_ms > 0,
{
    (timestamp_ms / budget_ms) as u64
}

/// Derive the inherent data for the slot that `timestamp_ms` falls into.
/// A zero per-block budget admits no slot arithmetic and yields nothing.
pub fn inherent_data(timestamp_ms: u64, millisecs_per_block: MillisecsPerBlock) -> (r: Option<
    InherentData,
>)
    ensures
        millisecs_per_block.0 > 0 ==> (r matches Some(d) && d.timestamp_ms == timestamp_ms
            && d.slot == slot_of(timestamp_ms, millisecs_per_block.0)),
        millisecs_per_block.0 == 0 ==> r is None,
{
    if millisecs_per_block.0 == 0 {
        None
    } else {
        Some(InherentData { timestamp_ms, slot: timestamp_ms / millisecs_per_block.0 })
    }
}

/// What one production slot amounted to.
#[derive(Clone, Copy, Debug, PartialEq, Eq, Structural)]
pub enum SlotOutcome {
    /// The local identity holds no authority rights for this slot: not an
    /// error, simply a skip.
    Skipped,
    /// The proposer produced no block this slot; recorded, and the loop
    /// continues at the next slot boundary.
    ProposalFailed,
    /// The proposed block failed import validation; local to this slot.
    ImportRejected(ImportFailure),
    /// The proposed block was imported; carries its hash.
    Imported(u64),
}

/// Run one production slot against the shared chain state: skip without
/// authority rights, record a missing proposal without effect, and submit
/// a proposed block through ordinary block import. Whatever the outcome,
/// the chain state stays well-formed and finality state is untouched, so
/// a missed or failed slot never affects subsequent slots.
pub fn run_slot(
    chain: &mut ChainState,
    is_authority: bool,
    proposal: Option<BlockRecord>,
    seal_valid: bool,
) -> (r: SlotOutcome)
    requires
        old(chain)@.wf(),
    ensures
        final(chain)@.wf(),
        final(chain)@.finalized == old(chain)@.finalized,
        !is_authority ==> r is Skipped && final(chain)@ == old(chain)@,
        is_authority && proposal is None ==> r is ProposalFailed && final(chain)@ == old(chain)@,
        is_authority ==> (proposal matches Some(b) ==> final(chain)@ == import_step(
            old(chain)@,
            b,
            seal_valid,
        ) && (match import_result(old(chain)@, b, seal_valid) {
            Ok(_) => r == SlotOutcome::Imported(b.hash),
            Err(f) => r == SlotOutcome::ImportRejected(f),
        })),
{
    if !is_authority {
        return SlotOutcome::Skipped;
    }
    match proposal {
        None => SlotOutcome::ProposalFailed,
        Some(block) => match chain.import_block(block, seal_valid) {
            Ok(_) => SlotOutcome::Imported(block.hash),
            Err(f) => SlotOutcome::ImportRejected(f),
        },
    }
}

} // verus!
