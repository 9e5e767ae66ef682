//! Inverse kinematics: from a polar target, reduced to joint angles, to an
//! absolute dual-axis step position.
//!
//! The motion core works in exact integer microdegrees.  The caller's front
//! end performs the one transcendental step that needs floating point: it
//! scales the commanded angle `theta` (radians) to microdegrees and derives
//! the elbow angle of the two-link arm from the normalized radius `rho` via
//! the law of cosines, `elbow = degrees(acos((0.5 - rho^2) * 2))`, rejecting
//! `rho` outside `[0, 1]` before it reaches this module.  Everything after
//! that point — coordinate-frame negation, the shared-pulley offset, the
//! differential coupling and the degree-to-microstep scaling — is verified
//! here.

use vstd::prelude::*;

use crate::step_position::StepPosition;

verus! {

/// Microsteps issued to a motor per full motor step.
pub const MICRO_STEPS: i64 = 16;

/// Teeth on the main (joint) pulley.
pub const MAIN_PULLEY_TEETH: i64 = 90;

/// Teeth on the motor pulley.
pub const MOTOR_PULLEY_TEETH: i64 = 16;

/// The stepper's native resolution, in tenths of a degree per full step
/// (1.8 degrees per full step).
pub const TENTH_DEGREES_PER_FULL_STEP: i64 = 18;

/// Microsteps per degree of joint rotation, derived from the belt reduction
/// and the motor's native resolution:
/// `MICRO_STEPS * MAIN_PULLEY_TEETH * 10 / (MOTOR_PULLEY_TEETH *
/// TENTH_DEGREES_PER_FULL_STEP)`, an exact division.
pub const STEPS_PER_DEGREE: i64 = 50;

/// Scale of the angle representation.
pub const MICRODEGREES_PER_DEGREE: i64 = 1_000_000;

/// Microdegrees per microstep, `MICRODEGREES_PER_DEGREE / STEPS_PER_DEGREE`
/// (one step is 0.02 degrees).
pub const MICRODEGREES_PER_STEP: i64 = 20_000;

/// Half a turn in microdegrees.
pub const HALF_TURN_MICRODEGREES: i64 = 180_000_000;

/// Largest commanded angle magnitude the converter accepts, in microdegrees
/// (a million degrees; far beyond any realistic command, but needed so the
/// scaled products provably fit in the step type).
pub const THETA_LIMIT_MICRODEGREES: i64 = 1_000_000_000_000;

/// A polar target reduced to joint angles, in integer microdegrees.
///
/// `theta_microdegrees` is the commanded end-effector angle converted to
/// degrees; `elbow_microdegrees` is the law-of-cosines elbow opening derived
/// from the normalized radius, in `[0, 180]` degrees (`0` at `rho = 0`,
/// `180` at `rho = 1`).
#[derive(Clone, Copy, PartialEq, Eq, Structural, Debug)]
pub struct TargetAngles {
    pub theta_microdegrees: i64,
    pub elbow_microdegrees: i64,
}

/// The target angles the converter accepts: a bounded commanded angle and an
/// elbow within the geometric range of the two-link arm.
pub open spec fn valid_target(t: TargetAngles) -> bool {
    &&& -THETA_LIMIT_MICRODEGREES <= t.theta_microdegrees <= THETA_LIMIT_MICRODEGREES
    &&& 0 <= t.elbow_microdegrees <= HALF_TURN_MICRODEGREES
}

/// The home pose: `theta = 0`, `rho = 0` (elbow fully folded).
pub open spec fn home_angles() -> TargetAngles {
    TargetAngles { theta_microdegrees: 0, elbow_microdegrees: 0 }
}

/// `num / den` rounded to the nearest integer, halves away from zero.
pub open spec fn round_to_nearest(num: int, den: int) -> int
    recommends
        den > 0,
{
    if num >= 0 {
        (num + den / 2) / den
    } else {
        -((-num + den / 2) / den)
    }
}

/// Secondary (outer) joint angle in microdegrees: the elbow bend measured
/// from the folded pose, `180 degrees - elbow`.
pub open spec fn spec_secondary_microdegrees(t: TargetAngles) -> int {
    HALF_TURN_MICRODEGREES - t.elbow_microdegrees
}

/// Primary-axis step target.  The commanded angle is negated (positive
/// commanded angle maps to negative joint rotation) and the inner joint
/// counter-rotates by half the secondary angle to compensate for the pulley
/// coupling; the doubled numerator keeps that halving exact.
pub open spec fn spec_primary_steps(t: TargetAngles) -> int {
    round_to_nearest(
        -2 * t.theta_microdegrees - spec_secondary_microdegrees(t),
        2 * MICRODEGREES_PER_STEP as int,
    )
}

/// Secondary-axis step target: the secondary angle in steps, plus the
/// primary step count to undo the differential coupling between the two
/// motors.
pub open spec fn spec_secondary_steps(t: TargetAngles) -> int {
    round_to_nearest(spec_secondary_microdegrees(t), MICRODEGREES_PER_STEP as int)
        + spec_primary_steps(t)
}

/// The converter as a single value: the absolute dual-axis step position of
/// a target.
pub open spec fn spec_target_step_position(t: TargetAngles) -> StepPosition {
    StepPosition {
        primary_steps: spec_primary_steps(t) as i64,
        secondary_steps: spec_secondary_steps(t) as i64,
    }
}

/// The step position of the home pose.
pub open spec fn home_step_position() -> StepPosition {
    spec_target_step_position(home_angles())
}

/// Largest primary-axis magnitude the converter can produce.
pub const PRIMARY_STEP_BOUND: i64 = 50_004_500;

/// Largest secondary-axis magnitude the converter can produce.
pub const SECONDARY_STEP_BOUND: i64 = 50_013_500;

/// A step position the arm can actually be commanded to (the image of the
/// converter over its accepted inputs, widened to simple bounds).
pub open spec fn reachable_position(p: StepPosition) -> bool {
    &&& -PRIMARY_STEP_BOUND <= p.primary_steps <= PRIMARY_STEP_BOUND
    &&& -SECONDARY_STEP_BOUND <= p.secondary_steps <= SECONDARY_STEP_BOUND
}

/// Whether the converter accepts a target, as an executable check for
/// callers that receive targets from outside.
pub fn valid_target_check(t: &TargetAngles) -> (r: bool)
    ensures
        r == valid_target(*t),
{
    -THETA_LIMIT_MICRODEGREES <= t.theta_microdegrees && t.theta_microdegrees
        <= THETA_LIMIT_MICRODEGREES && 0 <= t.elbow_microdegrees && t.elbow_microdegrees
        <= HALF_TURN_MICRODEGREES
}

/// `num / den` rounded to nearest, halves away from zero.
fn div_round_nearest(num: i64, den: i64) -> (r: i64)
    requires
        0 < den <= 1_000_000_000,
        -i64::MAX + den <= num <= i64::MAX - den,
    ensures
        r == round_to_nearest(num as int, den as int),
{
    if num >= 0 {
        (num + den / 2) / den
    } else {
        -((-num + den / 2) / den)
    }
}

/// Converts a polar target, reduced to joint angles, into the absolute
/// dual-axis step position that places the end effector there.  Pure and
/// total over the accepted angle range.
pub fn get_target_step_position(position: &TargetAngles) -> (r: StepPosition)
    requires
        valid_target(*position),
    ensures
        r == spec_target_step_position(*position),
        r.primary_steps == spec_primary_steps(*position),
        r.secondary_steps == spec_secondary_steps(*position),
        reachable_position(r),
{
    let secondary_microdegrees = HALF_TURN_MICRODEGREES - position.elbow_microdegrees;
    let doubled_theta = position.theta_microdegrees + position.theta_microdegrees;
    let doubled_primary = -doubled_theta - secondary_microdegrees;
    assert(doubled_primary == -2 * position.theta_microdegrees - secondary_microdegrees);
    let primary_steps = div_round_nearest(doubled_primary, 2 * MICRODEGREES_PER_STEP);
    let secondary_only_steps = div_round_nearest(secondary_microdegrees, MICRODEGREES_PER_STEP);
    proof {
        lemma_round_to_nearest_bound(doubled_primary as int, 2 * MICRODEGREES_PER_STEP as int,
            2 * THETA_LIMIT_MICRODEGREES + HALF_TURN_MICRODEGREES);
        lemma_round_to_nearest_bound(secondary_microdegrees as int, MICRODEGREES_PER_STEP as int,
            HALF_TURN_MICRODEGREES as int);
    }
    StepPosition {
        primary_steps,
        secondary_steps: secondary_only_steps + primary_steps,
    }
}

/// Rounding a quotient of bounded magnitude yields a result of bounded
/// magnitude: `|num| <= bound` gives `|round(num / den)| <= (bound + den/2) / den`.
proof fn lemma_round_to_nearest_bound(num: int, den: int, bound: int)
    requires
        0 < den,
        0 <= bound,
        -bound <= num <= bound,
    ensures
        -((bound + den / 2) / den) <= round_to_nearest(num, den) <= (bound + den / 2) / den,
{
    if num >= 0 {
        vstd::arithmetic::div_mod::lemma_div_is_ordered(num + den / 2, bound + den / 2, den);
        vstd::arithmetic::div_mod::lemma_div_pos_is_pos(num + den / 2, den);
    } else {
        vstd::arithmetic::div_mod::lemma_div_is_ordered(-num + den / 2, bound + den / 2, den);
        vstd::arithmetic::div_mod::lemma_div_pos_is_pos(-num + den / 2, den);
    }
}

/// Law: the converter is deterministic — it is a pure function of the target
/// alone, so equal targets always yield identical step positions (no hidden
/// state).
pub proof fn lemma_converter_deterministic(a: TargetAngles, b: TargetAngles)
    requires
        a == b,
    ensures
        spec_primary_steps(a) == spec_primary_steps(b),
        spec_secondary_steps(a) == spec_secondary_steps(b),
{
}

/// Law: the fully-extended pose `rho = 1` (elbow at 180 degrees) at
/// `theta = 0` coincides with the zero step position under this geometry —
/// accepted hardware behavior that must be preserved.
pub proof fn lemma_full_extension_is_origin()
    ensures
        spec_primary_steps(
            TargetAngles { theta_microdegrees: 0, elbow_microdegrees: HALF_TURN_MICRODEGREES },
        ) == 0,
        spec_secondary_steps(
            TargetAngles { theta_microdegrees: 0, elbow_microdegrees: HALF_TURN_MICRODEGREES },
        ) == 0,
{
}

/// The step position of the home pose (`theta = 0`, `rho = 0`): the folded
/// arm stands half a turn of the secondary joint away from the zero pose,
/// so home is not the zero step position.
pub proof fn lemma_home_step_position()
    ensures
        spec_primary_steps(home_angles()) == -4500,
        spec_secondary_steps(home_angles()) == 4500,
{
}

} // verus!
