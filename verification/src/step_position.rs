//! Absolute and relative two-axis step counts.

use vstd::prelude::*;

verus! {

/// An absolute (current position) or relative (delta) count of motor
/// microsteps per joint axis.  Values are exact integers: no fractional
/// steps exist anywhere in the motion core.
#[derive(Clone, Copy, PartialEq, Eq, Structural, Debug)]
pub struct StepPosition {
    pub primary_steps: i64,
    pub secondary_steps: i64,
}

/// Sum of the absolute values of both components, as a mathematical integer.
pub open spec fn spec_total_steps(p: StepPosition) -> int {
    vstd::math::abs(p.primary_steps as int) + vstd::math::abs(p.secondary_steps as int) as int
}

/// `a - b`, component-wise, as mathematical integers (no wrap-around).
pub open spec fn spec_delta(a: StepPosition, b: StepPosition) -> StepPosition {
    StepPosition {
        primary_steps: (a.primary_steps - b.primary_steps) as i64,
        secondary_steps: (a.secondary_steps - b.secondary_steps) as i64,
    }
}

/// True when the component-wise difference `a - b` fits in the step type.
pub open spec fn delta_fits(a: StepPosition, b: StepPosition) -> bool {
    &&& i64::MIN <= a.primary_steps - b.primary_steps <= i64::MAX
    &&& i64::MIN <= a.secondary_steps - b.secondary_steps <= i64::MAX
}

/// The zero position or zero delta.
pub open spec fn zero_position() -> StepPosition {
    StepPosition { primary_steps: 0, secondary_steps: 0 }
}

impl StepPosition {
    /// Total step magnitude of both axes.  Used only as a no-op test (zero
    /// means no movement is needed), never as a move-duration proxy.
    pub fn get_total_steps(&self) -> (r: i64)
        requires
            spec_total_steps(*self) <= i64::MAX,
        ensures
            r == spec_total_steps(*self),
            r >= 0,
    {
        let primary_total_steps = if self.primary_steps < 0 {
            -self.primary_steps
        } else {
            self.primary_steps
        };
        let secondary_total_steps = if self.secondary_steps < 0 {
            -self.secondary_steps
        } else {
            self.secondary_steps
        };
        primary_total_steps + secondary_total_steps
    }

    /// Component-wise difference `self - other`; always `self - other`,
    /// never the reverse.
    pub fn delta(&self, other: &StepPosition) -> (r: StepPosition)
        requires
            delta_fits(*self, *other),
        ensures
            r == spec_delta(*self, *other),
            r.primary_steps == self.primary_steps - other.primary_steps,
            r.secondary_steps == self.secondary_steps - other.secondary_steps,
    {
        StepPosition {
            primary_steps: self.primary_steps - other.primary_steps,
            secondary_steps: self.secondary_steps - other.secondary_steps,
        }
    }
}

/// Law: a delta is the exact component-wise difference, and taking the delta
/// of a delta against the zero position changes nothing.
pub proof fn lemma_delta_correct(a: StepPosition, b: StepPosition)
    requires
        delta_fits(a, b),
    ensures
        spec_delta(a, b).primary_steps == a.primary_steps - b.primary_steps,
        spec_delta(a, b).secondary_steps == a.secondary_steps - b.secondary_steps,
        spec_delta(spec_delta(a, b), zero_position()) == spec_delta(a, b),
{
}

/// Law: a delta of zero total magnitude means the two positions are equal.
pub proof fn lemma_zero_delta_means_equal(a: StepPosition, b: StepPosition)
    requires
        delta_fits(a, b),
        spec_total_steps(spec_delta(a, b)) == 0,
    ensures
        a == b,
{
}

} // verus!
