//! Pieces shared across aircraft systems: the per-tick update context, the
//! rising-edge delay gate and the engine state the generators consume.
//!
//! Time is carried in whole milliseconds.

use vstd::prelude::*;

verus! {

/// Context for one simulation tick: the time that elapsed since the previous
/// tick, in milliseconds.
#[derive(Clone, Copy, Debug)]
pub struct UpdateContext {
    pub delta_ms: u64,
}

impl UpdateContext {
    pub fn new(delta_ms: u64) -> (r: UpdateContext)
        ensures
            r.delta_ms == delta_ms,
    {
        UpdateContext { delta_ms }
    }
}

/// The delay logic gate delays the true result of a given expression by the
/// given amount of time. False results are output immediately.
#[derive(Clone, Copy, Debug)]
pub struct DelayedTrueLogicGate {
    pub delay_ms: u64,
    pub expression_result: bool,
    pub true_duration_ms: u64,
}

impl DelayedTrueLogicGate {
    pub fn new(delay_ms: u64) -> (r: DelayedTrueLogicGate)
        ensures
            r.delay_ms == delay_ms,
            !r.expression_result,
            r.true_duration_ms == 0,
    {
        DelayedTrueLogicGate { delay_ms, expression_result: false, true_duration_ms: 0 }
    }

    /// The accumulated duration after a tick: it grows by `delta_ms` only
    /// when the expression was already true before the tick and still is,
    /// so the tick in which the expression first becomes true contributes
    /// nothing. Accumulation saturates at `u64::MAX`, far beyond any delay.
    pub open spec fn next_true_duration(self, delta_ms: u64, expression_result: bool) -> u64 {
        if self.expression_result && expression_result {
            if self.true_duration_ms + delta_ms > u64::MAX {
                u64::MAX
            } else {
                (self.true_duration_ms + delta_ms) as u64
            }
        } else {
            0
        }
    }

    /// The whole gate state after a tick.
    pub open spec fn updated(self, delta_ms: u64, expression_result: bool) -> DelayedTrueLogicGate {
        DelayedTrueLogicGate {
            delay_ms: self.delay_ms,
            expression_result,
            true_duration_ms: self.next_true_duration(delta_ms, expression_result),
        }
    }

    pub fn update(&mut self, context: &UpdateContext, expression_result: bool)
        ensures
            *final(self) == old(self).updated(context.delta_ms, expression_result),
            !old(self).expression_result ==> final(self).true_duration_ms == 0,
    {
        // The delta of the tick in which the expression becomes true is not
        // included: the previous sample was still false then.
        if self.expression_result && expression_result {
            self.true_duration_ms = if self.true_duration_ms <= u64::MAX - context.delta_ms {
                self.true_duration_ms + context.delta_ms
            } else {
                u64::MAX
            };
        } else {
            self.true_duration_ms = 0;
        }

        self.expression_result = expression_result;
    }

    pub open spec fn spec_output(&self) -> bool {
        self.expression_result && self.delay_ms <= self.true_duration_ms
    }

    #[verifier::when_used_as_spec(spec_output)]
    pub fn output(&self) -> (r: bool)
        ensures
            r == self.spec_output(),
    {
        if self.expression_result && self.delay_ms <= self.true_duration_ms {
            true
        } else {
            false
        }
    }
}

/// An engine, supplying only its N2 (high-pressure spool speed) in tenths of
/// a percent.
#[derive(Clone, Copy, Debug)]
pub struct Engine {
    pub n2: u32,
}

impl Engine {
    pub fn new() -> (r: Engine)
        ensures
            r.n2 == 0,
    {
        Engine { n2: 0 }
    }
}

} // verus!
