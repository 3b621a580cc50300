//! The transport envelope that carries finality evidence from the
//! justification bridge to the finality task.

use vstd::prelude::*;

verus! {

/// One unit of finality evidence in transit: the hash and number of the
/// block it finalizes, and the opaque justification bytes. Transferred
/// exactly once, in FIFO order, across the bridging channel.
#[derive(Clone, Debug, PartialEq, Eq)]
pub struct JustificationNotification {
    /// Hash of the block the evidence finalizes.
    pub block_hash: u64,
    /// Number of that block.
    pub number: u64,
    /// Opaque evidence bytes; this layer never interprets them.
    pub justification: Vec<u8>,
}

} // verus!
