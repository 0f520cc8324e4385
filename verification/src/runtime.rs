//! The control scheduler's per-tick arithmetic and configuration state.
//!
//! Each tick the policy produces a raw target vector. The scheduler issues
//! `slowdown_factor` sub-step commands that interpolate linearly from the
//! previous baseline to that target, each scaled by the magnitude factor,
//! and then adopts the raw (unthrottled) target as the next tick's baseline
//! so the policy's own trajectory stays continuous independent of the
//! throttle. The shell that owns the timers and the policy handle performs
//! the waiting and dispatch; every decision about the command values is made
//! here.

use vstd::prelude::*;

use crate::fixed::{div_trunc, abs_int, MICRO, VALUE_LIMIT};
use crate::fixed;

verus! {

/// Milliseconds by which a feedback read is triggered before the next
/// command tick, to account for the asynchronicity of the bus receive
/// buffer. The tick period must exceed this offset.
pub const TRIGGER_READ_BEFORE_MS: u64 = 2;

/// Every element of `s` lies in `[-limit, limit]`.
pub open spec fn all_within(s: Seq<i64>, limit: int) -> bool {
    forall|j: int| 0 <= j < s.len() ==> -limit <= #[trigger] s[j] <= limit
}

/// The sub-step `i` of `n` between `prev` and `target`: the exact value of
/// `prev * (1 - i/n) + target * (i/n)` in micro-units, truncated toward zero.
pub open spec fn substep_spec(prev: int, target: int, i: int, n: int) -> int
    recommends
        1 <= i <= n,
{
    div_trunc(prev * (n - i) + target * i, n)
}

/// A sub-step command after the magnitude throttle `ppm` (parts per million)
/// is applied to its absolute value.
pub open spec fn throttled_substep_spec(prev: int, target: int, i: int, n: int, ppm: int) -> int
    recommends
        1 <= i <= n,
        0 <= ppm <= MICRO,
{
    div_trunc(substep_spec(prev, target, i, n) * ppm, MICRO as int)
}

/// The last sub-step of a tick lands exactly on the raw target, whatever
/// the baseline and the slowdown factor: together with the baseline rule —
/// the next tick interpolates from the raw target — the commanded
/// trajectory is continuous from tick to tick.
pub proof fn lemma_final_substep_reaches_target(prev: int, target: int, n: int)
    requires
        n >= 1,
    ensures
        substep_spec(prev, target, n, n) == target,
{
    assert(prev * (n - n) == 0) by (nonlinear_arith);
    if target >= 0 {
        assert((target * n) / n == target) by (nonlinear_arith)
            requires
                n >= 1,
                target >= 0,
        ;
    } else {
        assert(-(target * n) == (-target) * n) by (nonlinear_arith);
        assert(((-target) * n) / n == -target) by (nonlinear_arith)
            requires
                n >= 1,
                target < 0,
        ;
    }
}

/// A magnitude factor of one is the identity: the throttle changes no
/// command until it is lowered.
pub proof fn lemma_full_magnitude_is_identity(prev: int, target: int, i: int, n: int)
    requires
        1 <= i <= n,
    ensures
        throttled_substep_spec(prev, target, i, n, MICRO as int) == substep_spec(
            prev,
            target,
            i,
            n,
        ),
{
    let s = substep_spec(prev, target, i, n);
    if s >= 0 {
        assert((s * MICRO) / (MICRO as int) == s) by (nonlinear_arith)
            requires
                s >= 0,
                MICRO == 1_000_000,
        ;
    } else {
        assert(-(s * MICRO) == (-s) * MICRO) by (nonlinear_arith);
        assert(((-s) * MICRO) / (MICRO as int) == -s) by (nonlinear_arith)
            requires
                s < 0,
                MICRO == 1_000_000,
        ;
    }
}

/// Linear interpolation at sub-step `i` of `n`, truncating toward zero.
pub fn substep_command(prev: i64, target: i64, i: u32, n: u32) -> (r: i64)
    requires
        1 <= i <= n,
        -VALUE_LIMIT <= prev <= VALUE_LIMIT,
        -VALUE_LIMIT <= target <= VALUE_LIMIT,
    ensures
        r as int == substep_spec(prev as int, target as int, i as int, n as int),
        -VALUE_LIMIT <= r <= VALUE_LIMIT,
{
    proof {
        assert(abs_int(prev as int * (n - i)) <= VALUE_LIMIT * (n - i)) by (nonlinear_arith)
            requires
                -VALUE_LIMIT <= prev <= VALUE_LIMIT,
                0 <= n - i,
        ;
        assert(abs_int(target as int * i as int) <= VALUE_LIMIT * i) by (nonlinear_arith)
            requires
                -VALUE_LIMIT <= target <= VALUE_LIMIT,
                0 <= i,
        ;
        assert(VALUE_LIMIT * (n - i) + VALUE_LIMIT * i == VALUE_LIMIT * n) by (nonlinear_arith);
    }
    let num: i128 = (prev as i128) * ((n - i) as i128) + (target as i128) * (i as i128);
    assert(abs_int(num as int) <= VALUE_LIMIT * n);
    let q: i128 = fixed::div_trunc_i128(num, n as u64);
    proof {
        fixed::lemma_div_trunc_bound(num as int, n as int, VALUE_LIMIT as int);
    }
    q as i64
}

/// The interpolation baseline captured from a live actuator snapshot before
/// the loop's first tick: the position of each state, in order, with zero
/// standing in for a joint whose feedback had no position yet. Taking the
/// baseline from live state rather than a default pose avoids a command
/// discontinuity on the first tick.
pub fn initial_baseline(states: &Vec<crate::actuators::ActuatorState>) -> (r: Vec<i64>)
    requires
        crate::provider::positions_bounded(states@),
    ensures
        r.len() == states.len(),
        forall|i: int|
            0 <= i < states.len() ==> #[trigger] r[i] == (if states[i].position is Some {
                states[i].position->Some_0
            } else {
                0
            }),
        all_within(r@, VALUE_LIMIT as int),
{
    let mut r: Vec<i64> = Vec::new();
    let mut i: usize = 0;
    while i < states.len()
        invariant
            0 <= i <= states.len(),
            crate::provider::positions_bounded(states@),
            r.len() == i,
            forall|k: int|
                0 <= k < i ==> #[trigger] r[k] == (if states[k].position is Some {
                    states[k].position->Some_0
                } else {
                    0
                }),
            all_within(r@, VALUE_LIMIT as int),
        decreases states.len() - i,
    {
        match states[i].position {
            Some(p) => {
                r.push(p);
            },
            None => {
                r.push(0);
            },
        }
        i = i + 1;
    }
    r
}

/// Configuration and lifecycle state of the fixed-period control scheduler.
///
/// `dt_ms` is the tick period in milliseconds, `slowdown_factor` the number
/// of interpolated sub-steps per policy step, `magnitude_factor_ppm` the
/// magnitude throttle in parts per million, and `running` the cooperative
/// stop flag that the loop checks at sub-step granularity.
#[derive(Clone, Copy, Debug, PartialEq, Eq, Structural)]
pub struct ModelRuntime {
    pub dt_ms: u64,
    pub slowdown_factor: u32,
    pub magnitude_factor_ppm: u32,
    pub keyboard_enabled: bool,
    pub running: bool,
}

impl ModelRuntime {
    /// The configuration invariants: at least one sub-step per tick, a
    /// throttle of at most one, and a tick period that exceeds the
    /// feedback pre-trigger offset.
    pub open spec fn wf(self) -> bool {
        &&& self.slowdown_factor >= 1
        &&& self.magnitude_factor_ppm <= MICRO
        &&& self.dt_ms > TRIGGER_READ_BEFORE_MS
    }

    /// A new scheduler with the default slowdown factor of one sub-step and
    /// an unthrottled magnitude. The tick period must exceed the feedback
    /// pre-trigger offset.
    pub fn new(dt: u64, keyboard_enabled: bool) -> (r: ModelRuntime)
        requires
            dt > TRIGGER_READ_BEFORE_MS,
        ensures
            r.wf(),
            r.dt_ms == dt,
            r.slowdown_factor == 1,
            r.magnitude_factor_ppm == MICRO,
            r.keyboard_enabled == keyboard_enabled,
            !r.running,
    {
        ModelRuntime {
            dt_ms: dt,
            slowdown_factor: 1,
            magnitude_factor_ppm: MICRO as u32,
            keyboard_enabled,
            running: false,
        }
    }

    /// Sets the number of sub-steps per tick; it must be at least one.
    pub fn set_slowdown_factor(&mut self, slowdown_factor: u32)
        requires
            slowdown_factor >= 1,
        ensures
            *final(self) == (ModelRuntime { slowdown_factor, ..*old(self) }),
    {
        self.slowdown_factor = slowdown_factor;
    }

    /// Sets the magnitude throttle; it must lie in `[0, 1]`, given in parts
    /// per million.
    pub fn set_magnitude_factor(&mut self, magnitude_factor_ppm: u32)
        requires
            magnitude_factor_ppm <= MICRO,
        ensures
            *final(self) == (ModelRuntime { magnitude_factor_ppm, ..*old(self) }),
    {
        self.magnitude_factor_ppm = magnitude_factor_ppm;
    }

    /// Marks the loop as running; the shell that spawns the loop performs
    /// this transition exactly once per start.
    pub fn start(&mut self)
        ensures
            *final(self) == (ModelRuntime { running: true, ..*old(self) }),
    {
        self.running = true;
    }

    /// Requests a cooperative stop: the current iteration finishes, pending
    /// writes are not cancelled.
    pub fn stop(&mut self)
        ensures
            *final(self) == (ModelRuntime { running: false, ..*old(self) }),
    {
        self.running = false;
    }

    /// The commands of one tick, together with the next tick's baseline.
    ///
    /// Entry `k` of the first component is the command vector of sub-step
    /// `k + 1`: the linear interpolation from `baseline` to `target` at
    /// `(k + 1) / slowdown_factor`, scaled by the magnitude factor. The
    /// second component is the next baseline, which is the raw `target`
    /// itself, never the throttled command.
    pub fn tick_commands(&self, baseline: &Vec<i64>, target: &Vec<i64>) -> (r: (
        Vec<Vec<i64>>,
        Vec<i64>,
    ))
        requires
            self.wf(),
            baseline.len() == target.len(),
            all_within(baseline@, VALUE_LIMIT as int),
            all_within(target@, VALUE_LIMIT as int),
        ensures
            r.0.len() == self.slowdown_factor,
            forall|k: int|
                0 <= k < r.0.len() ==> (#[trigger] r.0[k]).len() == target.len(),
            forall|k: int, j: int|
                0 <= k < r.0.len() && 0 <= j < target.len() ==> #[trigger] r.0[k][j]
                    == throttled_substep_spec(
                    baseline[j] as int,
                    target[j] as int,
                    k + 1,
                    self.slowdown_factor as int,
                    self.magnitude_factor_ppm as int,
                ),
            r.1@ == target@,
    {
        let n: u32 = self.slowdown_factor;
        let ppm: u32 = self.magnitude_factor_ppm;
        let mut cmds: Vec<Vec<i64>> = Vec::new();
        let mut k: u32 = 0;
        while k < n
            invariant
                0 <= k <= n,
                n >= 1,
                ppm <= MICRO,
                baseline.len() == target.len(),
                all_within(baseline@, VALUE_LIMIT as int),
                all_within(target@, VALUE_LIMIT as int),
                cmds.len() == k,
                forall|kk: int|
                    0 <= kk < cmds.len() ==> (#[trigger] cmds[kk]).len() == target.len(),
                forall|kk: int, j: int|
                    0 <= kk < cmds.len() && 0 <= j < target.len() ==> #[trigger] cmds[kk][j]
                        == throttled_substep_spec(
                        baseline[j] as int,
                        target[j] as int,
                        kk + 1,
                        n as int,
                        ppm as int,
                    ),
            decreases n - k,
        {
            let i: u32 = k + 1;
            let mut cmd: Vec<i64> = Vec::new();
            let mut j: usize = 0;
            while j < target.len()
                invariant
                    0 <= j <= target.len(),
                    1 <= i <= n,
                    ppm <= MICRO,
                    baseline.len() == target.len(),
                    all_within(baseline@, VALUE_LIMIT as int),
                    all_within(target@, VALUE_LIMIT as int),
                    cmd.len() == j,
                    forall|jj: int|
                        0 <= jj < cmd.len() ==> #[trigger] cmd[jj] == throttled_substep_spec(
                            baseline[jj] as int,
                            target[jj] as int,
                            i as int,
                            n as int,
                            ppm as int,
                        ),
                decreases target.len() - j,
            {
                let interp: i64 = substep_command(baseline[j], target[j], i, n);
                let scaled: i64 = fixed::scale_by_ppm(interp, ppm);
                cmd.push(scaled);
                j = j + 1;
            }
            cmds.push(cmd);
            k = k + 1;
        }
        let mut next_baseline: Vec<i64> = Vec::new();
        let mut j: usize = 0;
        while j < target.len()
            invariant
                0 <= j <= target.len(),
                next_baseline@ == target@.subrange(0, j as int),
            decreases target.len() - j,
        {
            next_baseline.push(target[j]);
            proof {
                assert(next_baseline@ =~= target@.subrange(0, j + 1));
            }
            j = j + 1;
        }
        proof {
            assert(next_baseline@ =~= target@);
        }
        (cmds, next_baseline)
    }
}

} // verus!
