//! The coordination layer's view of the shared chain state: which blocks
//! have been imported and which of them are final.
//!
//! Blocks are identified by hash and carry a number and a parent hash. A
//! block is immutable after import except for its finality status, and a
//! block is never reported final before its header is imported with its
//! parent chain intact. Repeated justifications for an already-final block
//! are a no-op, not an error.

use vstd::prelude::*;

use crate::errors::{FinalizeError, ImportFailure};

verus! {

/// What the coordination layer reads of one imported block: its identity,
/// its height, and the link to its parent.
#[derive(Clone, Copy, Debug, PartialEq, Eq, Structural)]
pub struct BlockRecord {
    pub hash: u64,
    pub number: u64,
    pub parent: u64,
}

/// Mathematical model of the chain state: the imported blocks in import
/// order, and the hashes reported final in finalization order.
pub ghost struct ChainModel {
    pub imported: Seq<BlockRecord>,
    pub finalized: Seq<u64>,
}

impl ChainModel {
    /// A block with this hash has been imported.
    pub open spec fn imported_has(self, hash: u64) -> bool {
        exists|i: int| 0 <= i < self.imported.len() && self.imported[i].hash == hash
    }

    /// This hash has been reported final.
    pub open spec fn finalized_has(self, hash: u64) -> bool {
        self.finalized.contains(hash)
    }

    /// Well-formedness: each hash is imported at most once, finalized at
    /// most once, and every finalized hash is already imported.
    pub open spec fn wf(self) -> bool {
        &&& forall|i: int, j: int|
            0 <= i < j < self.imported.len() ==> self.imported[i].hash != self.imported[j].hash
        &&& forall|i: int, j: int|
            0 <= i < j < self.finalized.len() ==> self.finalized[i] != self.finalized[j]
        &&& forall|k: int|
            0 <= k < self.finalized.len() ==> self.imported_has(#[trigger] self.finalized[k])
    }
}

/// Outcome of offering a block for import: a block with an invalid seal is
/// rejected, a non-genesis block whose parent was never imported is
/// rejected, anything else is accepted.
pub open spec fn import_result(m: ChainModel, block: BlockRecord, seal_valid: bool) -> Result<
    (),
    ImportFailure,
> {
    if !seal_valid {
        Err(ImportFailure::InvalidSeal)
    } else if block.number > 0 && !m.imported_has(block.parent) {
        Err(ImportFailure::MissingParent)
    } else {
        Ok(())
    }
}

/// Chain state after offering a block for import: an accepted new block is
/// appended; a rejected or already-imported block changes nothing, so no
/// block is ever imported twice.
pub open spec fn import_step(m: ChainModel, block: BlockRecord, seal_valid: bool) -> ChainModel {
    if import_result(m, block, seal_valid) is Ok && !m.imported_has(block.hash) {
        ChainModel { imported: m.imported.push(block), finalized: m.finalized }
    } else {
        m
    }
}

/// Outcome of a finalize request: an unimported hash is an error, an
/// already-final hash succeeds without effect, a newly final hash succeeds
/// with effect.
pub open spec fn finalize_result(m: ChainModel, hash: u64) -> Result<bool, FinalizeError> {
    if !m.imported_has(hash) {
        Err(FinalizeError::NotImported)
    } else if m.finalized_has(hash) {
        Ok(false)
    } else {
        Ok(true)
    }
}

/// Chain state after a finalize request: only a finalize request that
/// succeeds with effect changes anything, and it appends exactly the one
/// hash.
pub open spec fn finalize_step(m: ChainModel, hash: u64) -> ChainModel {
    if m.imported_has(hash) && !m.finalized_has(hash) {
        ChainModel { imported: m.imported, finalized: m.finalized.push(hash) }
    } else {
        m
    }
}

/// Importing a fresh block preserves well-formedness.
pub proof fn lemma_import_preserves_wf(m: ChainModel, block: BlockRecord, seal_valid: bool)
    requires
        m.wf(),
    ensures
        import_step(m, block, seal_valid).wf(),
{
    let n = import_step(m, block, seal_valid);
    if import_result(m, block, seal_valid) is Ok && !m.imported_has(block.hash) {
        assert forall|i: int, j: int|
            0 <= i < j < n.imported.len() implies n.imported[i].hash != n.imported[j].hash by {
            if j < m.imported.len() {
            } else {
                assert(n.imported[j] == block);
                assert(m.imported[i] == n.imported[i]);
            }
        }
        assert forall|k: int| 0 <= k < n.finalized.len() implies n.imported_has(
            #[trigger] n.finalized[k],
        ) by {
            assert(m.imported_has(m.finalized[k]));
            let w = choose|w: int| 0 <= w < m.imported.len() && m.imported[w].hash
                == m.finalized[k];
            assert(n.imported[w].hash == n.finalized[k]);
        }
    }
}

/// Finalizing preserves well-formedness.
pub proof fn lemma_finalize_preserves_wf(m: ChainModel, hash: u64)
    requires
        m.wf(),
    ensures
        finalize_step(m, hash).wf(),
{
    let n = finalize_step(m, hash);
    if m.imported_has(hash) && !m.finalized_has(hash) {
        assert forall|i: int, j: int|
            0 <= i < j < n.finalized.len() implies n.finalized[i] != n.finalized[j] by {
            if j < m.finalized.len() {
            } else {
                assert(n.finalized[j] == hash);
                assert(m.finalized.contains(m.finalized[i]));
            }
        }
        assert forall|k: int| 0 <= k < n.finalized.len() implies n.imported_has(
            #[trigger] n.finalized[k],
        ) by {
            if k < m.finalized.len() {
                assert(n.finalized[k] == m.finalized[k]);
                assert(m.imported_has(m.finalized[k]));
                let w = choose|w: int|
                    0 <= w < m.imported.len() && m.imported[w].hash == m.finalized[k];
                assert(n.imported[w].hash == n.finalized[k]);
            } else {
                assert(n.finalized[k] == hash);
                let w = choose|w: int| 0 <= w < m.imported.len() && m.imported[w].hash == hash;
                assert(n.imported[w].hash == n.finalized[k]);
            }
        }
    }
}

/// A block is never finalized before it is imported: a finalize request
/// for an unimported hash fails and leaves the chain state unchanged.
pub proof fn lemma_no_finalization_before_import(m: ChainModel, hash: u64)
    requires
        !m.imported_has(hash),
    ensures
        finalize_result(m, hash) == Err::<bool, FinalizeError>(FinalizeError::NotImported),
        finalize_step(m, hash) == m,
{
}

/// In a well-formed chain state every finalized hash has been imported, so
/// the successful import strictly precedes the finalization that depends
/// on it.
pub proof fn lemma_finalized_are_imported(m: ChainModel, hash: u64)
    requires
        m.wf(),
        m.finalized_has(hash),
    ensures
        m.imported_has(hash),
{
    let k = choose|k: int| 0 <= k < m.finalized.len() && m.finalized[k] == hash;
    assert(m.imported_has(m.finalized[k]));
}

/// Re-submitting an already-finalized block's justification is idempotent:
/// the second request changes nothing and reports success without effect.
pub proof fn lemma_finalize_idempotent(m: ChainModel, hash: u64)
    requires
        finalize_result(m, hash) is Ok,
    ensures
        finalize_result(finalize_step(m, hash), hash) == Ok::<bool, FinalizeError>(false),
        finalize_step(finalize_step(m, hash), hash) == finalize_step(m, hash),
{
    let n = finalize_step(m, hash);
    if !m.finalized_has(hash) {
        assert(n.finalized[m.finalized.len() as int] == hash);
        assert(n.finalized.contains(hash));
        let w = choose|w: int| 0 <= w < m.imported.len() && m.imported[w].hash == hash;
        assert(n.imported[w].hash == hash);
    }
}

/// One mutation of the chain state, as either task may request it: an
/// import (with the seal verdict) from block production or the import
/// queue, or a finalize from the finality task.
pub ghost enum ChainOp {
    Import(BlockRecord, bool),
    Finalize(u64),
}

/// The chain state after a whole sequence of imports and finalizations,
/// in order.
pub open spec fn run_ops(m: ChainModel, ops: Seq<ChainOp>) -> ChainModel
    decreases ops.len(),
{
    if ops.len() == 0 {
        m
    } else {
        let n = match ops[0] {
            ChainOp::Import(block, seal_valid) => import_step(m, block, seal_valid),
            ChainOp::Finalize(hash) => finalize_step(m, hash),
        };
        run_ops(n, ops.drop_first())
    }
}

/// Under any interleaving of imports and finalizations, however long, the
/// chain state stays well-formed: in particular every finalized hash has
/// been imported first, and nothing is imported or finalized twice.
pub proof fn lemma_wf_for_lifetime(m: ChainModel, ops: Seq<ChainOp>)
    requires
        m.wf(),
    ensures
        run_ops(m, ops).wf(),
    decreases ops.len(),
{
    if ops.len() > 0 {
        let n = match ops[0] {
            ChainOp::Import(block, seal_valid) => import_step(m, block, seal_valid),
            ChainOp::Finalize(hash) => finalize_step(m, hash),
        };
        match ops[0] {
            ChainOp::Import(block, seal_valid) => lemma_import_preserves_wf(m, block, seal_valid),
            ChainOp::Finalize(hash) => lemma_finalize_preserves_wf(m, hash),
        }
        lemma_wf_for_lifetime(n, ops.drop_first());
    }
}

/// Executable chain state, the coordination layer's stand-in for the chain
/// client facade's storage.
pub struct ChainState {
    pub imported: Vec<BlockRecord>,
    pub finalized: Vec<u64>,
}

impl View for ChainState {
    type V = ChainModel;

    open spec fn view(&self) -> ChainModel {
        ChainModel { imported: self.imported@, finalized: self.finalized@ }
    }
}

impl ChainState {
    /// An empty chain state: nothing imported, nothing final.
    pub fn new() -> (r: ChainState)
        ensures
            r@.imported == Seq::<BlockRecord>::empty(),
            r@.finalized == Seq::<u64>::empty(),
            r@.wf(),
    {
        ChainState { imported: Vec::new(), finalized: Vec::new() }
    }

    /// Whether a block with this hash has been imported.
    pub fn is_imported(&self, hash: u64) -> (r: bool)
        ensures
            r == self@.imported_has(hash),
    {
        let mut i: usize = 0;
        while i < self.imported.len()
            invariant
                0 <= i <= self.imported.len(),
                forall|j: int| 0 <= j < i ==> self.imported@[j].hash != hash,
            decreases self.imported.len() - i,
        {
            if self.imported[i].hash == hash {
                proof {
                    let m = self@;
                    assert(m.imported[i as int].hash == hash);
                    assert(m.imported_has(hash));
                }
                return true;
            }
            i += 1;
        }
        false
    }

    /// Whether this hash has been reported final.
    pub fn is_finalized(&self, hash: u64) -> (r: bool)
        ensures
            r == self@.finalized_has(hash),
    {
        let mut i: usize = 0;
        while i < self.finalized.len()
            invariant
                0 <= i <= self.finalized.len(),
                forall|j: int| 0 <= j < i ==> self.finalized@[j] != hash,
            decreases self.finalized.len() - i,
        {
            if self.finalized[i] == hash {
                return true;
            }
            i += 1;
        }
        false
    }

    /// Offer a block for import. Rejects an invalid seal and a missing
    /// parent chain; accepts anything else, importing the block once and
    /// never twice. Never touches finality state.
    pub fn import_block(&mut self, block: BlockRecord, seal_valid: bool) -> (r: Result<
        (),
        ImportFailure,
    >)
        requires
            old(self)@.wf(),
        ensures
            r == import_result(old(self)@, block, seal_valid),
            final(self)@ == import_step(old(self)@, block, seal_valid),
            final(self)@.wf(),
            final(self)@.finalized == old(self)@.finalized,
    {
        proof {
            lemma_import_preserves_wf(old(self)@, block, seal_valid);
        }
        if !seal_valid {
            return Err(ImportFailure::InvalidSeal);
        }
        if block.number > 0 && !self.is_imported(block.parent) {
            return Err(ImportFailure::MissingParent);
        }
        if !self.is_imported(block.hash) {
            self.imported.push(block);
        }
        Ok(())
    }

    /// Apply a finalize request for a block hash. Fails if the hash was
    /// never imported; succeeds without effect if it is already final;
    /// otherwise marks exactly this hash final. Never touches the imported
    /// blocks.
    pub fn finalize(&mut self, hash: u64) -> (r: Result<bool, FinalizeError>)
        requires
            old(self)@.wf(),
        ensures
            r == finalize_result(old(self)@, hash),
            final(self)@ == finalize_step(old(self)@, hash),
            final(self)@.wf(),
            final(self)@.imported == old(self)@.imported,
    {
        proof {
            lemma_finalize_preserves_wf(old(self)@, hash);
        }
        if !self.is_imported(hash) {
            return Err(FinalizeError::NotImported);
        }
        if self.is_finalized(hash) {
            return Ok(false);
        }
        self.finalized.push(hash);
        Ok(true)
    }
}

} // verus!
