//! Coordination layer of a blockchain node that runs slot-based block
//! production and an asynchronous finality gadget concurrently over one
//! shared chain state.
//!
//! The library models and verifies the glue between the two consensus
//! tasks: the justification bridge that forwards finality evidence over a
//! FIFO channel, the chain-state rules that keep finalization behind
//! import, the timing parameters both tasks must agree on, and the service
//! composer's startup/shutdown state machine.

pub mod bridge;
pub mod chain;
pub mod channel;
pub mod composer;
pub mod errors;
pub mod finality;
pub mod metrics;
pub mod notification;
pub mod queue;
pub mod slots;
pub mod timing;
