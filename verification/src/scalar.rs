//! Scalar shader parameters in the unit interval, carried as thousandths.
//!
//! Metalness, roughness, occlusion, emission, height and fog density are
//! all values in `[0, 1]`. The pipeline stores them in integer thousandths
//! so that clamped animation steps are exact.

use vstd::prelude::*;

verus! {

/// The number of thousandths that stands for the value `1.0`.
pub const UNIT_ONE: u32 = 1000;

/// A scalar in the unit interval `[0, 1]`, held in thousandths.
#[derive(Clone, Copy, Debug, PartialEq, Eq, Structural)]
pub struct UnitScalar {
    /// Thousandths of the unit value; at most [`UNIT_ONE`].
    pub raw: u32,
}

impl UnitScalar {
    /// A value of this type is meaningful only while it stays in range.
    pub open spec fn wf(self) -> bool {
        self.raw <= UNIT_ONE
    }

    /// The scalar `0.0`.
    pub fn zero() -> (r: UnitScalar)
        ensures
            r.raw == 0,
            r.wf(),
    {
        UnitScalar { raw: 0 }
    }

    /// The scalar `1.0`.
    pub fn one() -> (r: UnitScalar)
        ensures
            r.raw == UNIT_ONE,
            r.wf(),
    {
        UnitScalar { raw: UNIT_ONE }
    }

    /// Builds a scalar from thousandths; rejects anything above `1.0`.
    pub fn from_thousandths(raw: u32) -> (r: Option<UnitScalar>)
        ensures
            raw <= UNIT_ONE ==> r == Some(UnitScalar { raw }),
            raw > UNIT_ONE ==> r is None,
    {
        if raw <= UNIT_ONE {
            Some(UnitScalar { raw })
        } else {
            None
        }
    }

    /// Moves the scalar up by `step` thousandths, clamping at `1.0`.
    pub fn step_up(self, step: u32) -> (r: UnitScalar)
        requires
            self.wf(),
        ensures
            r.wf(),
            r.raw == if self.raw + step > UNIT_ONE { UNIT_ONE as int } else { self.raw + step },
            self.raw <= r.raw,
    {
        if step > UNIT_ONE - self.raw {
            UnitScalar { raw: UNIT_ONE }
        } else {
            UnitScalar { raw: self.raw + step }
        }
    }

    /// Moves the scalar down by `step` thousandths, clamping at `0.0`.
    pub fn step_down(self, step: u32) -> (r: UnitScalar)
        requires
            self.wf(),
        ensures
            r.wf(),
            r.raw == if self.raw >= step { self.raw - step } else { 0int },
            r.raw <= self.raw,
    {
        if self.raw >= step {
            UnitScalar { raw: self.raw - step }
        } else {
            UnitScalar { raw: 0 }
        }
    }
}

} // verus!
