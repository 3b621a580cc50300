//! Timing resolver: the session length and per-block time budget that both
//! consensus tasks must agree on.
//!
//! Both values are resolved exactly once, at startup, from two runtime
//! queries made against the genesis block, and are immutable afterwards. A
//! failed query is fatal to node startup and is not retried.

use vstd::prelude::*;

use crate::errors::RuntimeQueryError;

verus! {

/// Number of blocks per authority-rotation session. Fixed for the lifetime
/// of the chain instance.
#[derive(Clone, Copy, Debug, PartialEq, Eq, Structural)]
pub struct SessionPeriod(pub u32);

/// Wall-clock budget per production slot, in milliseconds. Must be stable
/// across a session or all derived slot arithmetic is invalid.
#[derive(Clone, Copy, Debug, PartialEq, Eq, Structural)]
pub struct MillisecsPerBlock(pub u64);

/// The two shared timing parameters, resolved once at startup.
#[derive(Clone, Copy, Debug, PartialEq, Eq, Structural)]
pub struct TimingParams {
    pub session_period: SessionPeriod,
    pub millisecs_per_block: MillisecsPerBlock,
}

/// What resolution returns for given genesis-query results: both values on
/// success, and the first failing query's error otherwise.
pub open spec fn resolve_timing_spec(
    session_query: Option<u32>,
    millisecs_query: Option<u64>,
) -> Result<TimingParams, RuntimeQueryError> {
    match (session_query, millisecs_query) {
        (Some(s), Some(m)) => Ok(TimingParams {
            session_period: SessionPeriod(s),
            millisecs_per_block: MillisecsPerBlock(m),
        }),
        (None, _) => Err(RuntimeQueryError::SessionPeriod),
        (Some(_), None) => Err(RuntimeQueryError::MillisecsPerBlock),
    }
}

/// Turn the results of the two genesis runtime queries into the immutable
/// timing parameters. Succeeds exactly when both queries produced a value;
/// a missing value is reported as the corresponding fatal query error.
pub fn resolve_timing(
    session_query: Option<u32>,
    millisecs_query: Option<u64>,
) -> (r: Result<TimingParams, RuntimeQueryError>)
    ensures
        r == resolve_timing_spec(session_query, millisecs_query),
{
    match (session_query, millisecs_query) {
        (Some(s), Some(m)) => Ok(TimingParams {
            session_period: SessionPeriod(s),
            millisecs_per_block: MillisecsPerBlock(m),
        }),
        (None, _) => Err(RuntimeQueryError::SessionPeriod),
        (Some(_), None) => Err(RuntimeQueryError::MillisecsPerBlock),
    }
}

impl TimingParams {
    /// Read the session period. Depends on the resolved value alone, so
    /// repeated reads return identical values.
    pub fn session_period(&self) -> (r: SessionPeriod)
        ensures
            r == self.session_period,
    {
        self.session_period
    }

    /// Read the per-block time budget. Depends on the resolved value alone,
    /// so repeated reads return identical values.
    pub fn millisecs_per_block(&self) -> (r: MillisecsPerBlock)
        ensures
            r == self.millisecs_per_block,
    {
        self.millisecs_per_block
    }
}

} // verus!
