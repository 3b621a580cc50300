//! Error taxonomy of the coordination layer.
//!
//! Startup failures are fatal and abort the node before it reaches the
//! running stage; steady-state per-block and per-justification failures are
//! local to the block or notification they concern and never stop the
//! pipeline. Losing the finality channel is fatal: without a live finality
//! task no further block can become final.

use vstd::prelude::*;

verus! {

/// A genesis-time runtime query failed: the node was started against an
/// incompatible or corrupt chain state. Fatal to node startup.
#[derive(Clone, Copy, Debug, PartialEq, Eq, Structural)]
pub enum RuntimeQueryError {
    /// The session-period query returned nothing.
    SessionPeriod,
    /// The milliseconds-per-block query returned nothing.
    MillisecsPerBlock,
}

/// A single block failed structural or seal validation on import. Local to
/// that block: subsequent blocks are unaffected.
#[derive(Clone, Copy, Debug, PartialEq, Eq, Structural)]
pub enum ImportFailure {
    /// The block's production seal did not validate.
    InvalidSeal,
    /// The block's parent has not been imported, so the parent chain is not
    /// intact.
    MissingParent,
}

/// A finalize request could not be applied to the chain state.
#[derive(Clone, Copy, Debug, PartialEq, Eq, Structural)]
pub enum FinalizeError {
    /// The block hash has never been imported; finalization must wait for
    /// import.
    NotImported,
}

/// The finality task's receiving end of the bridging channel is gone, so no
/// further justification can be delivered. Fatal to the node.
#[derive(Clone, Copy, Debug, PartialEq, Eq, Structural)]
pub struct ChannelClosed;

/// A failure while assembling the node, before it reaches the running
/// stage. Fatal: bubbles to the process exit code.
#[derive(Clone, Copy, Debug, PartialEq, Eq, Structural)]
pub enum StartupError {
    /// A sub-component (client, import queue, transaction pool, telemetry)
    /// could not be constructed.
    ComponentConstruction,
    /// The network stack could not be constructed.
    NetworkConstruction,
    /// Resolving the shared timing parameters failed.
    Timing(RuntimeQueryError),
}

} // verus!
