//! Coordinated dual-stepper motion: a discrete two-axis rate interpolation
//! that paces two independently-stepped axes so a move starts and finishes
//! on both axes together, whatever their step counts.
//!
//! On a shared pulse clock the dominant axis (the one needing more steps)
//! pulses every tick; the subordinate axis accumulates its rate ratio per
//! tick and pulses whenever the accumulator crosses the ratio denominator,
//! consuming exactly one pending step per crossing.  The hardware lines
//! themselves belong to the caller, which latches the direction outputs
//! once at move start and emits one electrical pulse per scheduled step.

use vstd::prelude::*;

use crate::step_position::StepPosition;
use crate::step_position::spec_total_steps;

verus! {

/// A per-axis step rate as an exact rational, `numerator / denominator`,
/// always in `[0, 1]`.
#[derive(Clone, Copy, PartialEq, Eq, Structural, Debug)]
pub struct StepRatio {
    pub numerator: u64,
    pub denominator: u64,
}

/// The rate ratio of an axis that must make `own_steps` steps while the
/// other axis makes `other_steps`: `min(1, own_steps / max(other_steps, 1))`
/// as an exact rational.  The axis with fewer steps is throttled by the
/// ratio of the two counts; the axis with more steps runs unthrottled.
pub open spec fn spec_axis_ratio(own_steps: u64, other_steps: u64) -> StepRatio {
    let den: u64 = if other_steps >= 1 {
        other_steps
    } else {
        1
    };
    let num: u64 = if own_steps <= den {
        own_steps
    } else {
        den
    };
    StepRatio { numerator: num, denominator: den }
}

/// Computes an axis's rate ratio, `min(1, own_steps / max(other_steps, 1))`.
pub fn axis_ratio(own_steps: u64, other_steps: u64) -> (r: StepRatio)
    ensures
        r == spec_axis_ratio(own_steps, other_steps),
        r.denominator >= 1,
        r.numerator <= r.denominator,
        own_steps >= other_steps && own_steps >= 1 ==> r.numerator == r.denominator,
        own_steps <= other_steps ==> r.numerator == own_steps,
{
    let denominator = if other_steps >= 1 {
        other_steps
    } else {
        1
    };
    let numerator = if own_steps <= denominator {
        own_steps
    } else {
        denominator
    };
    StepRatio { numerator, denominator }
}

/// The denominator an axis gets when the other axis needs `other` steps.
pub open spec fn den_of(other: int) -> int {
    if other >= 1 {
        other
    } else {
        1
    }
}

/// The numerator an axis gets when it needs `own` steps and the other `other`.
pub open spec fn num_of(own: int, other: int) -> int {
    if own <= den_of(other) {
        own
    } else {
        den_of(other)
    }
}

/// The driver of one coordinated move: direction lines latched from the
/// delta's signs, the two pending step counts, and the rate interpolation
/// state of both axes.
pub struct StepperPair {
    pub primary_forward: bool,
    pub secondary_forward: bool,
    pub primary_remaining: u64,
    pub secondary_remaining: u64,
    pub primary_ratio: StepRatio,
    pub secondary_ratio: StepRatio,
    pub primary_accumulator: u64,
    pub secondary_accumulator: u64,
    pub primary_total: Ghost<u64>,
    pub secondary_total: Ghost<u64>,
    pub ticks: Ghost<nat>,
}

/// Rate-interpolation invariant of one axis after `ticks` shared clock
/// ticks: the steps emitted so far and the accumulator remainder together
/// account exactly for `ticks` accumulations of the axis ratio.
pub open spec fn axis_wf(total: u64, ratio: StepRatio, remaining: u64, acc: u64, ticks: nat) -> bool {
    &&& remaining <= total
    &&& acc < ratio.denominator
    &&& ratio.denominator * (total - remaining) + acc == ticks * ratio.numerator
}

impl StepperPair {
    /// Well-formedness: ratios derived from the two commanded step counts,
    /// both counts within the step type, and both axes' interpolation
    /// state consistent with the shared tick count.
    pub open spec fn wf(self) -> bool {
        &&& self.primary_total@ <= i64::MAX
        &&& self.secondary_total@ <= i64::MAX
        &&& self.primary_ratio == spec_axis_ratio(self.primary_total@, self.secondary_total@)
        &&& self.secondary_ratio == spec_axis_ratio(self.secondary_total@, self.primary_total@)
        &&& axis_wf(
            self.primary_total@,
            self.primary_ratio,
            self.primary_remaining,
            self.primary_accumulator,
            self.ticks@,
        )
        &&& axis_wf(
            self.secondary_total@,
            self.secondary_ratio,
            self.secondary_remaining,
            self.secondary_accumulator,
            self.ticks@,
        )
    }

    /// True when both axes have emitted their full step count.
    pub open spec fn spec_done(self) -> bool {
        self.primary_remaining == 0 && self.secondary_remaining == 0
    }

    /// Ticks a whole move takes: the larger of the two step counts.
    pub open spec fn spec_move_ticks(self) -> int {
        vstd::math::max(self.primary_total@ as int, self.secondary_total@ as int)
    }

    /// Prepares a coordinated move for a signed per-axis step delta.  The
    /// direction lines are set once from the delta's signs and held for the
    /// whole move; a zero delta is complete immediately, so no pulse and no
    /// direction change is ever issued for it.
    pub fn new(delta: &StepPosition) -> (r: StepperPair)
        requires
            spec_total_steps(*delta) <= i64::MAX,
        ensures
            r.wf(),
            r.primary_total@ == vstd::math::abs(delta.primary_steps as int),
            r.secondary_total@ == vstd::math::abs(delta.secondary_steps as int),
            r.primary_remaining == r.primary_total@,
            r.secondary_remaining == r.secondary_total@,
            r.primary_forward == (delta.primary_steps >= 0),
            r.secondary_forward == (delta.secondary_steps >= 0),
            r.ticks@ == 0,
            r.spec_done() <==> spec_total_steps(*delta) == 0,
    {
        let primary_total: u64 = if delta.primary_steps < 0 {
            (-delta.primary_steps) as u64
        } else {
            delta.primary_steps as u64
        };
        let secondary_total: u64 = if delta.secondary_steps < 0 {
            (-delta.secondary_steps) as u64
        } else {
            delta.secondary_steps as u64
        };
        StepperPair {
            primary_forward: delta.primary_steps >= 0,
            secondary_forward: delta.secondary_steps >= 0,
            primary_remaining: primary_total,
            secondary_remaining: secondary_total,
            primary_ratio: axis_ratio(primary_total, secondary_total),
            secondary_ratio: axis_ratio(secondary_total, primary_total),
            primary_accumulator: 0,
            secondary_accumulator: 0,
            primary_total: Ghost(primary_total),
            secondary_total: Ghost(secondary_total),
            ticks: Ghost(0nat),
        }
    }

    /// True when both axes have completed their commanded steps.
    pub fn is_done(&self) -> (r: bool)
        ensures
            r == self.spec_done(),
    {
        self.primary_remaining == 0 && self.secondary_remaining == 0
    }

    /// One shared pulse-clock tick.  Each axis accumulates its ratio and
    /// pulses when the accumulator crosses the denominator, consuming one
    /// pending step; the dominant axis therefore pulses on every tick until
    /// it finishes, and an axis with no commanded steps never pulses.
    pub fn tick(&mut self) -> (pulses: (bool, bool))
        requires
            old(self).wf(),
            !old(self).spec_done(),
        ensures
            final(self).wf(),
            final(self).primary_total == old(self).primary_total,
            final(self).secondary_total == old(self).secondary_total,
            final(self).primary_ratio == old(self).primary_ratio,
            final(self).secondary_ratio == old(self).secondary_ratio,
            final(self).primary_forward == old(self).primary_forward,
            final(self).secondary_forward == old(self).secondary_forward,
            final(self).ticks@ == old(self).ticks@ + 1,
            final(self).ticks@ <= final(self).spec_move_ticks(),
            pulses.0 == (old(self).primary_accumulator + old(self).primary_ratio.numerator
                >= old(self).primary_ratio.denominator),
            pulses.1 == (old(self).secondary_accumulator + old(self).secondary_ratio.numerator
                >= old(self).secondary_ratio.denominator),
            pulses.0 ==> final(self).primary_remaining == old(self).primary_remaining - 1,
            !pulses.0 ==> final(self).primary_remaining == old(self).primary_remaining,
            pulses.1 ==> final(self).secondary_remaining == old(self).secondary_remaining - 1,
            !pulses.1 ==> final(self).secondary_remaining == old(self).secondary_remaining,
            old(self).primary_remaining > 0 && old(self).primary_ratio.numerator
                == old(self).primary_ratio.denominator ==> pulses.0,
            old(self).secondary_remaining > 0 && old(self).secondary_ratio.numerator
                == old(self).secondary_ratio.denominator ==> pulses.1,
            old(self).primary_total@ == 0 ==> !pulses.0,
            old(self).secondary_total@ == 0 ==> !pulses.1,
    {
        proof {
            lemma_pair_progress(*old(self));
        }
        let pulse_primary: bool;
        let acc0 = self.primary_accumulator + self.primary_ratio.numerator;
        if acc0 >= self.primary_ratio.denominator {
            self.primary_accumulator = acc0 - self.primary_ratio.denominator;
            self.primary_remaining = self.primary_remaining - 1;
            pulse_primary = true;
        } else {
            self.primary_accumulator = acc0;
            pulse_primary = false;
        }
        let pulse_secondary: bool;
        let acc1 = self.secondary_accumulator + self.secondary_ratio.numerator;
        if acc1 >= self.secondary_ratio.denominator {
            self.secondary_accumulator = acc1 - self.secondary_ratio.denominator;
            self.secondary_remaining = self.secondary_remaining - 1;
            pulse_secondary = true;
        } else {
            self.secondary_accumulator = acc1;
            pulse_secondary = false;
        }
        self.ticks = Ghost(self.ticks@ + 1);
        proof {
            lemma_tick_preserves_axis(
                old(self).primary_total@,
                old(self).primary_ratio,
                old(self).primary_remaining,
                old(self).primary_accumulator,
                old(self).ticks@,
                self.primary_remaining,
                self.primary_accumulator,
            );
            lemma_tick_preserves_axis(
                old(self).secondary_total@,
                old(self).secondary_ratio,
                old(self).secondary_remaining,
                old(self).secondary_accumulator,
                old(self).ticks@,
                self.secondary_remaining,
                self.secondary_accumulator,
            );
            lemma_pair_progress(*self);
        }
        (pulse_primary, pulse_secondary)
    }
}

/// One accumulate-and-maybe-pulse step preserves an axis's interpolation
/// invariant, provided the axis had a pending step whenever it crossed.
proof fn lemma_tick_preserves_axis(
    total: u64,
    ratio: StepRatio,
    remaining: u64,
    acc: u64,
    ticks: nat,
    new_remaining: u64,
    new_acc: u64,
)
    requires
        ratio.denominator >= 1,
        ratio.numerator <= ratio.denominator,
        axis_wf(total, ratio, remaining, acc, ticks),
        acc + ratio.numerator >= ratio.denominator ==> remaining >= 1 && new_remaining
            == remaining - 1 && new_acc == acc + ratio.numerator - ratio.denominator,
        acc + ratio.numerator < ratio.denominator ==> new_remaining == remaining && new_acc == acc
            + ratio.numerator,
    ensures
        axis_wf(total, ratio, new_remaining, new_acc, ticks + 1),
{
    let den = ratio.denominator as int;
    let num = ratio.numerator as int;
    let e = total - remaining;
    let new_e = total - new_remaining;
    assert(den * new_e + new_acc == (ticks + 1) * num) by (nonlinear_arith)
        requires
            den * e + acc == ticks * num,
            acc + num >= den ==> new_e == e + 1 && new_acc == acc + num - den,
            acc + num < den ==> new_e == e && new_acc == acc + num,
    {
    }
}

/// The coupled-progress facts of a well-formed pair: the dominant axis has
/// pulsed on every tick so far, an axis that has finished its (nonzero)
/// step count means the whole move has finished, and a finished move took
/// exactly `max` ticks, so both axes end at the same tick.
proof fn lemma_pair_progress(p: StepperPair)
    requires
        p.wf(),
    ensures
        p.primary_total@ >= p.secondary_total@ && p.primary_total@ > 0 ==> p.ticks@
            == p.primary_total@ - p.primary_remaining && p.primary_accumulator == 0,
        p.secondary_total@ >= p.primary_total@ && p.secondary_total@ > 0 ==> p.ticks@
            == p.secondary_total@ - p.secondary_remaining && p.secondary_accumulator == 0,
        p.primary_total@ > 0 && p.primary_remaining == 0 ==> p.spec_done(),
        p.secondary_total@ > 0 && p.secondary_remaining == 0 ==> p.spec_done(),
        p.primary_total@ == 0 ==> p.primary_accumulator == 0,
        p.secondary_total@ == 0 ==> p.secondary_accumulator == 0,
        !p.spec_done() ==> p.ticks@ < p.spec_move_ticks(),
        p.spec_done() && p.spec_move_ticks() > 0 ==> p.ticks@ == p.spec_move_ticks(),
{
    let s0 = p.primary_total@ as int;
    let s1 = p.secondary_total@ as int;
    let e0 = s0 - p.primary_remaining;
    let e1 = s1 - p.secondary_remaining;
    let a0 = p.primary_accumulator as int;
    let a1 = p.secondary_accumulator as int;
    let t = p.ticks@ as int;
    lemma_axis_pair_math(s0, s1, e0, e1, a0, a1, t);
}

/// The arithmetic core of the coordination proof, on mathematical integers:
/// from both axes' interpolation equations at a shared tick count follow
/// the dominant axis's lockstep with the clock and the simultaneous finish.
proof fn lemma_axis_pair_math(s0: int, s1: int, e0: int, e1: int, a0: int, a1: int, t: int)
    requires
        0 <= e0 <= s0,
        0 <= e1 <= s1,
        0 <= t,
        0 <= a0 < den_of(s1),
        0 <= a1 < den_of(s0),
        den_of(s1) * e0 + a0 == t * num_of(s0, s1),
        den_of(s0) * e1 + a1 == t * num_of(s1, s0),
    ensures
        s0 >= s1 && s0 > 0 ==> e0 == t && a0 == 0,
        s1 >= s0 && s1 > 0 ==> e1 == t && a1 == 0,
        s0 > 0 && e0 == s0 ==> e1 == s1 && t == vstd::math::max(s0, s1),
        s1 > 0 && e1 == s1 ==> e0 == s0 && t == vstd::math::max(s0, s1),
        s0 == 0 ==> a0 == 0,
        s1 == 0 ==> a1 == 0,
        !(e0 == s0 && e1 == s1) ==> t < vstd::math::max(s0, s1),
{
    if s0 == 0 {
        assert(num_of(s0, s1) == 0);
        assert(t * 0 == 0) by (nonlinear_arith);
        assert(e0 == 0);
        assert(a0 == 0);
    }
    if s1 == 0 {
        assert(num_of(s1, s0) == 0);
        assert(t * 0 == 0) by (nonlinear_arith);
        assert(e1 == 0);
        assert(a1 == 0);
    }
    if s0 >= s1 && s0 > 0 {
        // primary is dominant: its ratio is den/den, so it pulses every tick
        assert(num_of(s0, s1) == den_of(s1));
        assert(e0 == t && a0 == 0) by (nonlinear_arith)
            requires
                den_of(s1) >= 1,
                0 <= a0 < den_of(s1),
                den_of(s1) * e0 + a0 == t * den_of(s1),
                0 <= e0,
                0 <= t,
        {
        }
    }
    if s1 >= s0 && s1 > 0 {
        assert(num_of(s1, s0) == den_of(s0));
        assert(e1 == t && a1 == 0) by (nonlinear_arith)
            requires
                den_of(s0) >= 1,
                0 <= a1 < den_of(s0),
                den_of(s0) * e1 + a1 == t * den_of(s0),
                0 <= e1,
                0 <= t,
        {
        }
    }
    if s0 > 0 && e0 == s0 {
        if s0 >= s1 {
            // t == s0 from the dominant clause; the subordinate then holds
            // den * e1 + a1 == s0 * s1 with den == s0, forcing e1 == s1
            assert(e1 == s1) by (nonlinear_arith)
                requires
                    s0 >= 1,
                    s0 >= s1 >= 0,
                    0 <= a1 < den_of(s0),
                    den_of(s0) * e1 + a1 == t * num_of(s1, s0),
                    t == s0,
                    0 <= e1 <= s1,
            {
            }
        } else {
            // secondary is dominant, so e1 == t and t <= s1; the primary's
            // equation s1 * s0 + a0 == t * s0 forces t >= s1
            assert(t == s1 && e1 == s1) by (nonlinear_arith)
                requires
                    s1 > s0 >= 1,
                    0 <= a0 < den_of(s1),
                    den_of(s1) * e0 + a0 == t * num_of(s0, s1),
                    e0 == s0,
                    e1 == t,
                    a1 == 0,
                    0 <= e1 <= s1,
            {
            }
        }
    }
    if s1 > 0 && e1 == s1 {
        if s1 >= s0 {
            assert(e0 == s0) by (nonlinear_arith)
                requires
                    s1 >= 1,
                    s1 >= s0 >= 0,
                    0 <= a0 < den_of(s1),
                    den_of(s1) * e0 + a0 == t * num_of(s0, s1),
                    t == s1,
                    0 <= e0 <= s0,
            {
            }
        } else {
            assert(t == s0 && e0 == s0) by (nonlinear_arith)
                requires
                    s0 > s1 >= 1,
                    0 <= a1 < den_of(s0),
                    den_of(s0) * e1 + a1 == t * num_of(s1, s0),
                    e1 == s1,
                    e0 == t,
                    a0 == 0,
                    0 <= e0 <= s0,
            {
            }
        }
    }
}

/// Drives a prepared move to completion on the shared pulse clock and
/// reports what happened: the pulse counts per axis and the tick count.
/// Both axes emit exactly their commanded step magnitude, and the move
/// spans exactly `max` of the two magnitudes in ticks — the axis needing
/// more steps paces the move, and both finish on the same final tick.
pub fn run_move(delta: &StepPosition) -> (r: (u64, u64, u64))
    requires
        spec_total_steps(*delta) <= i64::MAX,
    ensures
        r.0 == vstd::math::abs(delta.primary_steps as int),
        r.1 == vstd::math::abs(delta.secondary_steps as int),
        r.2 == vstd::math::max(
            vstd::math::abs(delta.primary_steps as int) as int,
            vstd::math::abs(delta.secondary_steps as int) as int,
        ),
{
    let mut pair = StepperPair::new(delta);
    let mut primary_pulses: u64 = 0;
    let mut secondary_pulses: u64 = 0;
    let mut ticks: u64 = 0;
    while !pair.is_done()
        invariant
            pair.wf(),
            pair.primary_total@ == vstd::math::abs(delta.primary_steps as int),
            pair.secondary_total@ == vstd::math::abs(delta.secondary_steps as int),
            primary_pulses == pair.primary_total@ - pair.primary_remaining,
            secondary_pulses == pair.secondary_total@ - pair.secondary_remaining,
            ticks == pair.ticks@,
            pair.ticks@ <= pair.spec_move_ticks(),
        decreases pair.spec_move_ticks() - pair.ticks@,
    {
        proof {
            lemma_pair_progress(pair);
        }
        let (pulse_primary, pulse_secondary) = pair.tick();
        if pulse_primary {
            primary_pulses = primary_pulses + 1;
        }
        if pulse_secondary {
            secondary_pulses = secondary_pulses + 1;
        }
        ticks = ticks + 1;
    }
    proof {
        lemma_pair_progress(pair);
    }
    (primary_pulses, secondary_pulses, ticks)
}

} // verus!
