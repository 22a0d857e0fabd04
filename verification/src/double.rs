//! Double-precision IEEE-754 values, held as bit patterns, as far as the
//! rules need them: to judge what the rational solver hands back.

use vstd::prelude::*;

verus! {

/// The weight of the sign bit.
pub const DOUBLE_SIGN_BIT: u64 = 0x8000_0000_0000_0000;

/// The pattern of positive infinity.
pub const DOUBLE_INFINITY_BITS: u64 = 0x7ff0_0000_0000_0000;

/// A double-precision value, identified by its bit pattern.
#[derive(Debug, Clone, Copy, PartialEq, Eq, Structural)]
pub struct Double {
    pub bits: u64,
}

impl Double {
    /// The pattern without its sign bit.
    pub open spec fn magnitude(self) -> nat {
        (self.bits % DOUBLE_SIGN_BIT) as nat
    }

    pub open spec fn sign_set(self) -> bool {
        self.bits >= DOUBLE_SIGN_BIT
    }

    pub open spec fn is_nan(self) -> bool {
        self.magnitude() > DOUBLE_INFINITY_BITS
    }

    pub open spec fn is_infinite(self) -> bool {
        self.magnitude() == DOUBLE_INFINITY_BITS
    }

    pub open spec fn is_finite(self) -> bool {
        self.magnitude() < DOUBLE_INFINITY_BITS
    }

    /// `self < 0.0`: a number with the sign bit set that is not negative zero.
    pub open spec fn below_zero(self) -> bool {
        !self.is_nan() && self.sign_set() && self.magnitude() > 0
    }

    pub fn from_bits(bits: u64) -> (v: Double)
        ensures
            v.bits == bits,
    {
        Double { bits }
    }

    pub fn to_bits(&self) -> (bits: u64)
        ensures
            bits == self.bits,
    {
        self.bits
    }

    fn magnitude_bits(&self) -> (m: u64)
        ensures
            m == self.magnitude(),
    {
        if self.bits >= DOUBLE_SIGN_BIT {
            self.bits - DOUBLE_SIGN_BIT
        } else {
            self.bits
        }
    }

    pub fn nan(&self) -> (b: bool)
        ensures
            b == self.is_nan(),
    {
        self.magnitude_bits() > DOUBLE_INFINITY_BITS
    }

    pub fn infinite(&self) -> (b: bool)
        ensures
            b == self.is_infinite(),
    {
        self.magnitude_bits() == DOUBLE_INFINITY_BITS
    }

    pub fn finite(&self) -> (b: bool)
        ensures
            b == self.is_finite(),
    {
        self.magnitude_bits() < DOUBLE_INFINITY_BITS
    }

    pub fn negative(&self) -> (b: bool)
        ensures
            b == self.below_zero(),
    {
        let m: u64 = self.magnitude_bits();
        self.bits >= DOUBLE_SIGN_BIT && 0 < m && m <= DOUBLE_INFINITY_BITS
    }
}

/// Every pattern is of exactly one kind.
pub proof fn lemma_double_kinds(v: Double)
    ensures
        v.is_finite() || v.is_infinite() || v.is_nan(),
        !(v.is_finite() && v.is_infinite()),
        !(v.is_finite() && v.is_nan()),
        !(v.is_infinite() && v.is_nan()),
{
}

} // verus!
