//! Duty-cycle ramp planning.
//!
//! A ramp is an ordered, finite sequence of [`RampStep`]s: duty-cycle
//! targets applied to one or more PWM channels at a fixed cadence. This
//! module builds the step sequences (monotone ramps up and down, one percent
//! per step, covering the duty fractions `i/100` and `1 - i/100`) and
//! models the execution discipline of running one: every step applied in
//! order, a mid-ramp hardware failure aborting the rest, and the channel
//! released exactly once on every exit path. The caller performs the actual
//! hardware writes and the per-step holds; channels driven from the same
//! plan receive identical values at identical steps.

use vstd::prelude::*;

verus! {

/// One step of a duty-cycle ramp: the target duty cycle in whole percent
/// (`0..=100`, where 100 is a fully-on channel) and how many milliseconds
/// that value is held before advancing.
#[derive(Clone, Copy, PartialEq, Eq, Structural, Debug)]
pub struct RampStep {
    pub duty_percent: u8,
    pub hold_ms: u64,
}

/// An upward ramp: one step per whole percent from `from` to `to`
/// inclusive, each held for `hold_ms` milliseconds. The sequence is
/// non-decreasing, starts at `from` and ends at `to`.
pub fn ramp_up(from: u8, to: u8, hold_ms: u64) -> (steps: Vec<RampStep>)
    requires
        from <= to <= 100,
    ensures
        steps@.len() == to - from + 1,
        forall|i: int| 0 <= i < steps@.len() ==> steps@[i].duty_percent == from + i,
        forall|i: int| 0 <= i < steps@.len() ==> steps@[i].hold_ms == hold_ms,
        forall|i: int, j: int| 0 <= i <= j < steps@.len()
            ==> steps@[i].duty_percent <= steps@[j].duty_percent,
        steps@.first().duty_percent == from,
        steps@.last().duty_percent == to,
{
    let count: usize = (to - from) as usize + 1;
    let mut steps: Vec<RampStep> = Vec::new();
    let mut i: usize = 0;
    while i < count
        invariant
            from <= to <= 100,
            count == to - from + 1,
            i <= count,
            steps@.len() == i,
            forall|k: int| 0 <= k < steps@.len() ==> steps@[k].duty_percent == from + k,
            forall|k: int| 0 <= k < steps@.len() ==> steps@[k].hold_ms == hold_ms,
        decreases count - i,
    {
        steps.push(RampStep { duty_percent: from + i as u8, hold_ms });
        i = i + 1;
    }
    steps
}

/// A downward ramp: one step per whole percent from `from` down to `to`
/// inclusive, each held for `hold_ms` milliseconds. The sequence is
/// non-increasing, starts at `from` and ends at `to`.
pub fn ramp_down(from: u8, to: u8, hold_ms: u64) -> (steps: Vec<RampStep>)
    requires
        to <= from <= 100,
    ensures
        steps@.len() == from - to + 1,
        forall|i: int| 0 <= i < steps@.len() ==> steps@[i].duty_percent == from - i,
        forall|i: int| 0 <= i < steps@.len() ==> steps@[i].hold_ms == hold_ms,
        forall|i: int, j: int| 0 <= i <= j < steps@.len()
            ==> steps@[i].duty_percent >= steps@[j].duty_percent,
        steps@.first().duty_percent == from,
        steps@.last().duty_percent == to,
{
    let count: usize = (from - to) as usize + 1;
    let mut steps: Vec<RampStep> = Vec::new();
    let mut i: usize = 0;
    while i < count
        invariant
            to <= from <= 100,
            count == from - to + 1,
            i <= count,
            steps@.len() == i,
            forall|k: int| 0 <= k < steps@.len() ==> steps@[k].duty_percent == from - k,
            forall|k: int| 0 <= k < steps@.len() ==> steps@[k].hold_ms == hold_ms,
        decreases count - i,
    {
        steps.push(RampStep { duty_percent: from - i as u8, hold_ms });
        i = i + 1;
    }
    steps
}

/// Why a ramp operation failed.
#[derive(Clone, Copy, PartialEq, Eq, Structural, Debug)]
pub enum RampError {
    /// The PWM channel could not be claimed or configured.
    HardwareUnavailable,
    /// A hardware write failed mid-ramp; the remaining steps were skipped
    /// and the channel was left at the last successfully applied value.
    RampAborted,
}

/// The observable outcome of running one ramp over one channel: the duty
/// values actually applied, in order; whether the run completed or aborted;
/// and how many times the channel was released afterwards.
pub struct RampRun {
    pub applied: Vec<u8>,
    pub outcome: Result<(), RampError>,
    pub releases: u64,
}

/// How many steps of a plan of length `len` are applied when the hardware
/// write fails at step `fail_at`: all of them if no failure falls within the
/// plan, else exactly the steps before the failing one.
pub open spec fn steps_applied(len: int, fail_at: Option<usize>) -> int {
    match fail_at {
        Some(k) => if k < len {
            k as int
        } else {
            len
        },
        None => len,
    }
}

/// Runs a ramp over a channel whose hardware write fails at step `fail_at`
/// (if that falls within the plan), following the executor's discipline:
/// steps are applied in order until the first failure, a failure aborts the
/// remainder and surfaces as [`RampError::RampAborted`] with the channel
/// left at the last applied value, and the channel is released exactly once
/// on every exit path — completion and abort alike.
pub fn run_ramp_model(steps: &Vec<RampStep>, fail_at: Option<usize>) -> (run: RampRun)
    ensures
        run.releases == 1,
        run.applied@.len() == steps_applied(steps@.len() as int, fail_at),
        forall|k: int| 0 <= k < run.applied@.len()
            ==> run.applied@[k] == steps@[k].duty_percent,
        run.outcome is Err <==> steps_applied(steps@.len() as int, fail_at) < steps@.len(),
        run.outcome is Err ==> run.outcome == Err::<(), RampError>(RampError::RampAborted),
        run.outcome is Ok ==> run.outcome == Ok::<(), RampError>(()),
{
    let cut: usize = match fail_at {
        Some(k) => if k < steps.len() {
            k
        } else {
            steps.len()
        },
        None => steps.len(),
    };
    let mut applied: Vec<u8> = Vec::new();
    let mut i: usize = 0;
    while i < cut
        invariant
            cut <= steps@.len(),
            i <= cut,
            applied@.len() == i,
            forall|k: int| 0 <= k < applied@.len()
                ==> applied@[k] == steps@[k].duty_percent,
        decreases cut - i,
    {
        applied.push(steps[i].duty_percent);
        i = i + 1;
    }
    let outcome: Result<(), RampError> = if cut < steps.len() {
        Err(RampError::RampAborted)
    } else {
        Ok(())
    };
    RampRun { applied, outcome, releases: 1 }
}

/// Runs one ramp over `channel_count` channels driven from the same plan,
/// with the hardware write failing at step `fail_at` (if within the plan).
///
/// Its contract is the lock-step guarantee: every channel receives exactly
/// the same duty values, the same abort decision, and is released exactly
/// once — no channel runs ahead of or lags behind the shared plan.
pub fn run_ramp_lockstep_model(
    channel_count: usize,
    steps: &Vec<RampStep>,
    fail_at: Option<usize>,
) -> (runs: Vec<RampRun>)
    ensures
        runs@.len() == channel_count,
        forall|c: int| 0 <= c < runs@.len() ==> runs@[c].releases == 1,
        forall|c: int| 0 <= c < runs@.len()
            ==> runs@[c].applied@.len() == steps_applied(steps@.len() as int, fail_at),
        forall|c: int, k: int| 0 <= c < runs@.len() && 0 <= k < runs@[c].applied@.len()
            ==> runs@[c].applied@[k] == steps@[k].duty_percent,
        forall|c1: int, c2: int| 0 <= c1 < runs@.len() && 0 <= c2 < runs@.len()
            ==> runs@[c1].applied@ =~= runs@[c2].applied@,
        forall|c1: int, c2: int| 0 <= c1 < runs@.len() && 0 <= c2 < runs@.len()
            ==> runs@[c1].outcome == runs@[c2].outcome,
{
    let mut runs: Vec<RampRun> = Vec::new();
    let mut c: usize = 0;
    while c < channel_count
        invariant
            c <= channel_count,
            runs@.len() == c,
            forall|i: int| 0 <= i < runs@.len() ==> runs@[i].releases == 1,
            forall|i: int| 0 <= i < runs@.len()
                ==> runs@[i].applied@.len() == steps_applied(steps@.len() as int, fail_at),
            forall|i: int, k: int| 0 <= i < runs@.len() && 0 <= k < runs@[i].applied@.len()
                ==> runs@[i].applied@[k] == steps@[k].duty_percent,
            forall|i: int| 0 <= i < runs@.len()
                ==> (runs@[i].outcome is Err
                    <==> steps_applied(steps@.len() as int, fail_at) < steps@.len()),
            forall|i: int| 0 <= i < runs@.len() && runs@[i].outcome is Err
                ==> runs@[i].outcome == Err::<(), RampError>(RampError::RampAborted),
            forall|i: int| 0 <= i < runs@.len() && runs@[i].outcome is Ok
                ==> runs@[i].outcome == Ok::<(), RampError>(()),
        decreases channel_count - c,
    {
        runs.push(run_ramp_model(steps, fail_at));
        c = c + 1;
    }
    proof {
        assert forall|c1: int, c2: int|
            0 <= c1 < runs@.len() && 0 <= c2 < runs@.len() implies runs@[c1].applied@
            =~= runs@[c2].applied@ by {
            assert(runs@[c1].applied@.len() == runs@[c2].applied@.len());
        }
        assert forall|c1: int, c2: int|
            0 <= c1 < runs@.len() && 0 <= c2 < runs@.len()
            implies runs@[c1].outcome == runs@[c2].outcome by {
            if runs@[c1].outcome is Err {
                assert(runs@[c2].outcome is Err);
            }
        }
    }
    runs
}

} // verus!
