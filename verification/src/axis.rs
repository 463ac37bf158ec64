//! Exact fixed-point representation of normalised control-axis values.
//!
//! Every value flowing through the control pipeline is a rational number:
//! stick positions are `v / 32768` (negative side) or `v / 32767`
//! (non-negative side), trigger positions are `v / 1023`, d-pad positions are
//! `-1`, `0` or `1`, and the deadzone threshold is `3 / 20`.  All of these are
//! exact multiples of `1 / AXIS_ONE`, so a normalised value is stored as a
//! single scaled integer and every computation in the pipeline is exact.

use vstd::prelude::*;

verus! {

/// One full deflection, in scaled units: the common denominator of all
/// normalised values (`32768 * 32767 * 33`, divisible by 32768, 32767 and
/// 1023).
pub const AXIS_ONE: i64 = 32768 * 32767 * 33;

/// Scaled value of `1 / 32767`, the divisor for non-negative stick values.
pub const STICK_STEP_NON_NEGATIVE: i64 = 32768 * 33;

/// Scaled value of `1 / 32768`, the divisor for negative stick values.
pub const STICK_STEP_NEGATIVE: i64 = 32767 * 33;

/// Scaled value of `1 / 1023`, the divisor for trigger values.
pub const TRIGGER_STEP: i64 = 32768 * 1057;

/// A normalised control-axis value in `[-1, 1]`, stored as
/// `scaled / AXIS_ONE`.
#[derive(Clone, Copy, Debug, PartialEq, Eq, Structural)]
pub struct AxisValue {
    pub scaled: i64,
}

impl AxisValue {
    /// The value lies within the nominal `[-1, 1]` range.
    pub open spec fn is_valid(self) -> bool {
        -AXIS_ONE <= self.scaled <= AXIS_ONE
    }

    /// The value lies within `[0, 1]`, the trigger range.
    pub open spec fn is_valid_non_negative(self) -> bool {
        0 <= self.scaled <= AXIS_ONE
    }

    /// The neutral value `0`.
    pub fn zero() -> (v: AxisValue)
        ensures
            v.scaled == 0,
    {
        AxisValue { scaled: 0 }
    }

    /// The value `1` (full positive deflection).
    pub fn one() -> (v: AxisValue)
        ensures
            v.scaled == AXIS_ONE,
    {
        AxisValue { scaled: AXIS_ONE }
    }

    /// The value `-1` (full negative deflection).
    pub fn negative_one() -> (v: AxisValue)
        ensures
            v.scaled == -AXIS_ONE,
    {
        AxisValue { scaled: -AXIS_ONE }
    }
}

/// The scale is the common denominator it is claimed to be.
pub proof fn lemma_axis_scale_consistent()
    ensures
        AXIS_ONE == 32767 * STICK_STEP_NON_NEGATIVE,
        AXIS_ONE == 32768 * STICK_STEP_NEGATIVE,
        AXIS_ONE == 1023 * TRIGGER_STEP,
{
}

} // verus!
