//! Service composer: the startup/shutdown state machine that assembles the
//! node and owns the two consensus tasks' lifecycles.
//!
//! Stages run strictly in order — partial components, then network, then
//! the running tasks — and each stage's output is the exclusive input to
//! the next: no transition skips a stage. Any construction failure before
//! the running stage is fatal. Once running, the node leaves that stage
//! only for shutdown, triggered by a process-level signal or by the loss of
//! the finality channel.

use vstd::prelude::*;

use crate::errors::StartupError;
use crate::timing::{resolve_timing, resolve_timing_spec, TimingParams};

verus! {

/// A named peer-set protocol this layer registers on the network layer.
/// The wire framing behind each set is the network layer's concern.
#[derive(Clone, Copy, Debug, PartialEq, Eq, Structural)]
pub enum Protocol {
    /// General block and justification gossip.
    Generic,
    /// Validator-only consensus messages.
    Validator,
}

/// The peer-set protocols to register while the network stack is built,
/// in registration order: the general gossip set first, then the
/// validator-only set.
pub fn peer_set_protocols() -> (r: Vec<Protocol>)
    ensures
        r@ == seq![Protocol::Generic, Protocol::Validator],
{
    let mut protocols: Vec<Protocol> = Vec::new();
    protocols.push(Protocol::Generic);
    protocols.push(Protocol::Validator);
    proof {
        assert(protocols@ =~= seq![Protocol::Generic, Protocol::Validator]);
    }
    protocols
}

/// Lifecycle stage of the composed service.
#[derive(Clone, Copy, Debug, PartialEq, Eq, Structural)]
pub enum Stage {
    /// Nothing built yet.
    Unconfigured,
    /// Client, import queue (wrapping the justification bridge),
    /// transaction pool, select-chain strategy, telemetry and metrics
    /// exist.
    PartialComponents,
    /// The two peer-set protocols are registered and the network stack is
    /// constructed, but not yet actively dialing peers.
    NetworkStarted,
    /// Timing parameters are resolved and both consensus tasks are
    /// spawned.
    Running,
    /// Cooperative cancellation of both tasks is under way.
    ShuttingDown,
}

/// Position of a stage in the fixed startup order.
pub open spec fn stage_rank(s: Stage) -> nat {
    match s {
        Stage::Unconfigured => 0,
        Stage::PartialComponents => 1,
        Stage::NetworkStarted => 2,
        Stage::Running => 3,
        Stage::ShuttingDown => 4,
    }
}

/// An event the composer reacts to: the outcome of one construction step,
/// the genesis timing queries, or a reason to shut down.
#[derive(Clone, Copy, Debug, PartialEq, Eq, Structural)]
pub enum Event {
    /// Sub-component construction finished, successfully or not.
    PartialBuilt(bool),
    /// Network-stack construction finished, successfully or not.
    NetworkBuilt(bool),
    /// The two genesis runtime queries returned these results.
    TimingResolved(Option<u32>, Option<u64>),
    /// A process-level shutdown signal arrived.
    ShutdownSignal,
    /// The finality task's end of the bridging channel is gone.
    ChannelClosed,
}

/// The composed service's control state: its stage, and the shared timing
/// parameters once they are resolved.
#[derive(Clone, Copy, Debug, PartialEq, Eq, Structural)]
pub struct Composer {
    pub stage: Stage,
    pub timing: Option<TimingParams>,
}

impl Composer {
    /// Timing parameters exist exactly from the running stage on.
    pub open spec fn wf(self) -> bool {
        match self.stage {
            Stage::Running | Stage::ShuttingDown => self.timing is Some,
            _ => self.timing is None,
        }
    }
}

/// The composer's transition function. An event that does not belong to
/// the current stage is ignored. A failed construction or timing event
/// leaves the stage unchanged (the failure is fatal and ends the process);
/// a successful one advances to the immediately following stage; from the
/// running stage, a shutdown signal or a closed finality channel moves to
/// shutting down. Resolved timing parameters are never changed again.
pub open spec fn step(c: Composer, e: Event) -> Composer {
    match (c.stage, e) {
        (Stage::Unconfigured, Event::PartialBuilt(true)) => Composer {
            stage: Stage::PartialComponents,
            ..c
        },
        (Stage::PartialComponents, Event::NetworkBuilt(true)) => Composer {
            stage: Stage::NetworkStarted,
            ..c
        },
        (Stage::NetworkStarted, Event::TimingResolved(s, m)) => match resolve_timing_spec(s, m) {
            Ok(t) => Composer { stage: Stage::Running, timing: Some(t) },
            Err(_) => c,
        },
        (Stage::Running, Event::ShutdownSignal) => Composer { stage: Stage::ShuttingDown, ..c },
        (Stage::Running, Event::ChannelClosed) => Composer { stage: Stage::ShuttingDown, ..c },
        _ => c,
    }
}

/// What the composer reports for an event: the fatal startup error where a
/// construction or timing step failed, success everywhere else.
pub open spec fn step_result(c: Composer, e: Event) -> Result<(), StartupError> {
    match (c.stage, e) {
        (Stage::Unconfigured, Event::PartialBuilt(false)) => Err(
            StartupError::ComponentConstruction,
        ),
        (Stage::PartialComponents, Event::NetworkBuilt(false)) => Err(
            StartupError::NetworkConstruction,
        ),
        (Stage::NetworkStarted, Event::TimingResolved(s, m)) => match resolve_timing_spec(s, m) {
            Ok(_) => Ok(()),
            Err(e) => Err(StartupError::Timing(e)),
        },
        _ => Ok(()),
    }
}

/// No transition skips a stage: every event either leaves the stage as it
/// is or advances it to the immediately following one.
pub proof fn lemma_no_stage_skipped(c: Composer, e: Event)
    ensures
        step(c, e).stage == c.stage || stage_rank(step(c, e).stage) == stage_rank(c.stage) + 1,
{
}

/// Transitions preserve well-formedness: timing parameters appear exactly
/// when the running stage is reached.
pub proof fn lemma_step_preserves_wf(c: Composer, e: Event)
    requires
        c.wf(),
    ensures
        step(c, e).wf(),
{
}

/// Once resolved, the timing parameters remain constant for the process
/// lifetime: no later event changes them, whatever the underlying runtime
/// state does.
pub proof fn lemma_timing_constant_once_resolved(c: Composer, e: Event)
    requires
        c.wf(),
        c.timing is Some,
    ensures
        step(c, e).timing == c.timing,
{
}

/// The composer's state after reacting to a whole sequence of events, in
/// order.
pub open spec fn run_events(c: Composer, es: Seq<Event>) -> Composer
    decreases es.len(),
{
    if es.len() == 0 {
        c
    } else {
        run_events(step(c, es[0]), es.drop_first())
    }
}

/// Once resolved, the timing parameters remain constant for the process
/// lifetime: whatever sequence of events follows, however long, the
/// resolved values never change.
pub proof fn lemma_timing_constant_for_lifetime(c: Composer, es: Seq<Event>)
    requires
        c.wf(),
        c.timing is Some,
    ensures
        run_events(c, es).timing == c.timing,
        run_events(c, es).wf(),
    decreases es.len(),
{
    if es.len() > 0 {
        lemma_step_preserves_wf(c, es[0]);
        lemma_timing_constant_once_resolved(c, es[0]);
        lemma_timing_constant_for_lifetime(step(c, es[0]), es.drop_first());
    }
}

/// Losing the finality channel while running triggers node shutdown: the
/// very next channel-closed event moves the service to shutting down.
pub proof fn lemma_channel_closed_shuts_down(c: Composer)
    requires
        c.stage is Running,
    ensures
        step(c, Event::ChannelClosed).stage is ShuttingDown,
        step(c, Event::ChannelClosed).timing == c.timing,
{
}

impl Composer {
    /// A service with nothing built yet.
    pub fn new() -> (r: Composer)
        ensures
            r.stage is Unconfigured,
            r.timing is None,
            r.wf(),
    {
        Composer { stage: Stage::Unconfigured, timing: None }
    }

    /// React to one event, moving through the stages as `step` describes
    /// and reporting the fatal startup error where one occurred.
    pub fn handle(&mut self, e: Event) -> (r: Result<(), StartupError>)
        ensures
            *final(self) == step(*old(self), e),
            r == step_result(*old(self), e),
            old(self).wf() ==> final(self).wf(),
    {
        proof {
            if old(self).wf() {
                lemma_step_preserves_wf(*old(self), e);
            }
        }
        match (self.stage, e) {
            (Stage::Unconfigured, Event::PartialBuilt(ok)) => {
                if ok {
                    self.stage = Stage::PartialComponents;
                    Ok(())
                } else {
                    Err(StartupError::ComponentConstruction)
                }
            },
            (Stage::PartialComponents, Event::NetworkBuilt(ok)) => {
                if ok {
                    self.stage = Stage::NetworkStarted;
                    Ok(())
                } else {
                    Err(StartupError::NetworkConstruction)
                }
            },
            (Stage::NetworkStarted, Event::TimingResolved(s, m)) => {
                match resolve_timing(s, m) {
                    Ok(t) => {
                        self.stage = Stage::Running;
                        self.timing = Some(t);
                        Ok(())
                    },
                    Err(query_err) => Err(StartupError::Timing(query_err)),
                }
            },
            (Stage::Running, Event::ShutdownSignal) => {
                self.stage = Stage::ShuttingDown;
                Ok(())
            },
            (Stage::Running, Event::ChannelClosed) => {
                self.stage = Stage::ShuttingDown;
                Ok(())
            },
            _ => Ok(()),
        }
    }

    /// Read the current stage.
    pub fn stage(&self) -> (r: Stage)
        ensures
            r == self.stage,
    {
        self.stage
    }

    /// Read the resolved timing parameters, if the service has reached the
    /// running stage. Repeated reads return identical values.
    pub fn timing(&self) -> (r: Option<TimingParams>)
        ensures
            r == self.timing,
    {
        self.timing
    }
}

} // verus!
