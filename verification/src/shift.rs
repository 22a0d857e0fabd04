//! The displacement that keeps a log-normal model usable when an input is
//! negative.
//!
//! Where the smallest of future price, strike price and rate lies below zero,
//! both prices are moved up by its absolute value and a fixed margin. What is
//! decided here is whether that happens and from which absolute value; the sum
//! itself is floating-point work of the caller.

use vstd::prelude::*;
use crate::inputs::Inputs;
use crate::single::Single;

verus! {

/// The margin beyond the zero crossing: the pattern of `0.01`.
pub const SHIFT_MARGIN_BITS: u32 = 0x3c23_d70a;

/// What is to be added to future and strike price.
#[derive(Debug, Clone, Copy, PartialEq, Eq, Structural)]
pub enum Shift {
    /// Nothing: both prices are used as they are.
    Zero,
    /// The absolute value held here, plus the margin.
    Beyond(Single),
}

impl Inputs {
    /// The displacement that the three inputs call for, whether or not it is
    /// switched on: none unless the smallest of them is below zero. A smallest
    /// value of exactly zero, of either sign, calls for none.
    pub open spec fn spec_needed_shift(self) -> Shift {
        if self.spec_lowest().below_zero() {
            Shift::Beyond(self.spec_lowest().spec_abs())
        } else {
            Shift::Zero
        }
    }

    /// The displacement that is applied: the needed one where it is switched
    /// on, else none.
    pub open spec fn spec_shift(self) -> Shift {
        if self.shifted {
            self.spec_needed_shift()
        } else {
            Shift::Zero
        }
    }

    pub fn needed_shift(&self) -> (s: Shift)
        ensures
            s == self.spec_needed_shift(),
    {
        let m = self.lowest();
        if m.negative() {
            Shift::Beyond(m.abs())
        } else {
            Shift::Zero
        }
    }

    pub fn shift(&self) -> (s: Shift)
        ensures
            s == self.spec_shift(),
    {
        if self.shifted {
            self.needed_shift()
        } else {
            Shift::Zero
        }
    }
}

/// The margin as a value.
pub fn shift_margin() -> (m: Single)
    ensures
        m.bits == SHIFT_MARGIN_BITS,
        m.is_finite(),
        m.above_zero(),
{
    Single::from_bits(SHIFT_MARGIN_BITS)
}

/// Inputs of which none is below zero are never displaced: switching the
/// displacement on changes nothing for them.
pub proof fn lemma_no_shift_without_negative_input(inputs: Inputs)
    requires
        !inputs.f.below_zero(),
        !inputs.k.below_zero(),
        !inputs.r.below_zero(),
    ensures
        inputs.spec_needed_shift() == Shift::Zero,
        (Inputs { shifted: true, ..inputs }).spec_shift() == (Inputs {
            shifted: false,
            ..inputs
        }).spec_shift(),
{
}

/// A displacement starts from the distance to zero of the lowest input: a
/// number above zero, taken from one of the three inputs, below which no input
/// that is a number lies.
pub proof fn lemma_shift_reaches_lowest(inputs: Inputs, base: Single)
    requires
        inputs.spec_needed_shift() == Shift::Beyond(base),
    ensures
        base == inputs.spec_lowest().spec_abs(),
        base.above_zero(),
        inputs.spec_lowest() == inputs.f || inputs.spec_lowest() == inputs.k
            || inputs.spec_lowest() == inputs.r,
        !inputs.f.is_nan() ==> inputs.spec_lowest().le(inputs.f),
        !inputs.k.is_nan() ==> inputs.spec_lowest().le(inputs.k),
        !inputs.r.is_nan() ==> inputs.spec_lowest().le(inputs.r),
{
}

} // verus!
