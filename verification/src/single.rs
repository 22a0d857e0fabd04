//! Single-precision IEEE-754 values, held as bit patterns.
//!
//! Every decision the pricing rules take on a number (is it a number at all,
//! is it finite, is it below zero, which of two is smaller) depends only on the
//! sign bit and on the remaining thirty-one bits read as an unsigned integer.
//! This module states those decisions over integers and proves the executable
//! tests against them.

use vstd::arithmetic::mul::{lemma_mul_inequality, lemma_mul_strict_inequality};
use vstd::arithmetic::power2::{
    lemma_pow2_pos, lemma_pow2_strictly_increases, lemma_pow2_unfold, pow2,
};
use vstd::prelude::*;

verus! {

/// The weight of the lowest exponent bit: the fraction takes the bits below it.
pub const FRACTION_SPAN: u32 = 0x80_0000;

/// The weight of the sign bit.
pub const SIGN_BIT: u32 = 0x8000_0000;

/// The pattern of positive infinity: all exponent bits set, no fraction bit.
pub const INFINITY_BITS: u32 = 0x7f80_0000;

/// A single-precision value, identified by its bit pattern.
///
/// `==` on this type compares patterns: two not-a-number values with the same
/// pattern are equal, and the two zeros are different.
#[derive(Debug, Clone, Copy, PartialEq, Eq, Structural)]
pub struct Single {
    pub bits: u32,
}

impl Single {
    /// The pattern without its sign bit.
    pub open spec fn magnitude(self) -> nat {
        (self.bits % SIGN_BIT) as nat
    }

    /// Whether the sign bit is set (true of `-0.0` and of some not-a-number patterns too).
    pub open spec fn sign_set(self) -> bool {
        self.bits >= SIGN_BIT
    }

    pub open spec fn is_nan(self) -> bool {
        self.magnitude() > INFINITY_BITS
    }

    pub open spec fn is_infinite(self) -> bool {
        self.magnitude() == INFINITY_BITS
    }

    pub open spec fn is_finite(self) -> bool {
        self.magnitude() < INFINITY_BITS
    }

    /// Either zero.
    pub open spec fn is_zero(self) -> bool {
        self.magnitude() == 0
    }

    /// The exponent field: 0 for zeros and subnormal numbers, 255 for
    /// infinities and values that are not numbers.
    pub open spec fn exponent_field(self) -> nat {
        self.magnitude() / (FRACTION_SPAN as nat)
    }

    /// The fraction field.
    pub open spec fn fraction_field(self) -> nat {
        self.magnitude() % (FRACTION_SPAN as nat)
    }

    /// The significand as an integer: the fraction, with the implicit
    /// leading bit in front of it unless the number is subnormal.
    pub open spec fn significand(self) -> nat {
        if self.exponent_field() == 0 {
            self.fraction_field()
        } else {
            FRACTION_SPAN as nat + self.fraction_field()
        }
    }

    /// The absolute value of a finite number, counted in units of the
    /// smallest positive number, two to the power of -149.
    pub open spec fn units(self) -> nat {
        if self.exponent_field() == 0 {
            self.significand()
        } else {
            self.significand() * pow2((self.exponent_field() - 1) as nat)
        }
    }

    /// The number that a finite pattern stands for, in the same units.
    pub open spec fn value(self) -> int {
        if self.sign_set() {
            -(self.units() as int)
        } else {
            self.units() as int
        }
    }

    /// The place of a number on the line of integers: patterns of
    /// non-negative numbers grow with the number, those of negative numbers
    /// grow as the number falls. Both zeros stand at 0. Meaningful where
    /// `!self.is_nan()`.
    pub open spec fn rank(self) -> int {
        if self.sign_set() {
            -(self.magnitude() as int)
        } else {
            self.magnitude() as int
        }
    }

    /// `self < other` as the numbers compare: false when either is not a number.
    pub open spec fn lt(self, other: Single) -> bool {
        !self.is_nan() && !other.is_nan() && self.rank() < other.rank()
    }

    /// `self <= other` as the numbers compare: false when either is not a number.
    pub open spec fn le(self, other: Single) -> bool {
        !self.is_nan() && !other.is_nan() && self.rank() <= other.rank()
    }

    /// `self < 0.0`.
    pub open spec fn below_zero(self) -> bool {
        !self.is_nan() && self.rank() < 0
    }

    /// `self > 0.0`.
    pub open spec fn above_zero(self) -> bool {
        !self.is_nan() && self.rank() > 0
    }

    /// The value with the sign bit cleared.
    pub open spec fn spec_abs(self) -> Single {
        Single { bits: self.magnitude() as u32 }
    }

    /// The value with the sign bit flipped.
    pub open spec fn spec_negated(self) -> Single {
        if self.sign_set() {
            Single { bits: (self.bits - SIGN_BIT) as u32 }
        } else {
            Single { bits: (self.bits + SIGN_BIT) as u32 }
        }
    }

    /// The smaller of two values, where a value that is not a number loses
    /// against one that is. Of two zeros, and of two values that are both not
    /// numbers, the first is taken.
    pub open spec fn spec_min(self, other: Single) -> Single {
        if self.is_nan() {
            other
        } else if other.is_nan() {
            self
        } else if other.rank() < self.rank() {
            other
        } else {
            self
        }
    }

    pub fn from_bits(bits: u32) -> (v: Single)
        ensures
            v.bits == bits,
    {
        Single { bits }
    }

    pub fn to_bits(&self) -> (bits: u32)
        ensures
            bits == self.bits,
    {
        self.bits
    }

    /// Positive zero.
    pub fn zero() -> (v: Single)
        ensures
            v.bits == 0,
            v.is_zero(),
            !v.sign_set(),
    {
        Single { bits: 0 }
    }

    fn magnitude_bits(&self) -> (m: u32)
        ensures
            m == self.magnitude(),
            m < SIGN_BIT,
    {
        if self.bits >= SIGN_BIT {
            self.bits - SIGN_BIT
        } else {
            self.bits
        }
    }

    fn rank_value(&self) -> (r: i64)
        ensures
            r == self.rank(),
            -(SIGN_BIT as int) < r < SIGN_BIT as int,
    {
        let m: i64 = self.magnitude_bits() as i64;
        if self.bits >= SIGN_BIT {
            -m
        } else {
            m
        }
    }

    pub fn has_sign(&self) -> (b: bool)
        ensures
            b == self.sign_set(),
    {
        self.bits >= SIGN_BIT
    }

    pub fn nan(&self) -> (b: bool)
        ensures
            b == self.is_nan(),
    {
        self.magnitude_bits() > INFINITY_BITS
    }

    pub fn infinite(&self) -> (b: bool)
        ensures
            b == self.is_infinite(),
    {
        self.magnitude_bits() == INFINITY_BITS
    }

    pub fn finite(&self) -> (b: bool)
        ensures
            b == self.is_finite(),
    {
        self.magnitude_bits() < INFINITY_BITS
    }

    pub fn less_than(&self, other: &Single) -> (b: bool)
        ensures
            b == self.lt(*other),
    {
        !self.nan() && !other.nan() && self.rank_value() < other.rank_value()
    }

    pub fn at_most(&self, other: &Single) -> (b: bool)
        ensures
            b == self.le(*other),
    {
        !self.nan() && !other.nan() && self.rank_value() <= other.rank_value()
    }

    pub fn negative(&self) -> (b: bool)
        ensures
            b == self.below_zero(),
    {
        !self.nan() && self.rank_value() < 0
    }

    pub fn positive(&self) -> (b: bool)
        ensures
            b == self.above_zero(),
    {
        !self.nan() && self.rank_value() > 0
    }

    /// The absolute value: the same pattern with the sign bit cleared.
    pub fn abs(&self) -> (v: Single)
        ensures
            v == self.spec_abs(),
            !v.sign_set(),
            v.magnitude() == self.magnitude(),
    {
        Single { bits: self.magnitude_bits() }
    }

    /// The negation: the same pattern with the sign bit flipped.
    pub fn negated(&self) -> (v: Single)
        ensures
            v == self.spec_negated(),
            v.sign_set() != self.sign_set(),
            v.magnitude() == self.magnitude(),
    {
        if self.bits >= SIGN_BIT {
            Single { bits: self.bits - SIGN_BIT }
        } else {
            Single { bits: self.bits + SIGN_BIT }
        }
    }

    /// The smaller of two values; one that is not a number loses.
    pub fn min(&self, other: &Single) -> (v: Single)
        ensures
            v == self.spec_min(*other),
    {
        if self.nan() {
            *other
        } else if other.nan() {
            *self
        } else if other.rank_value() < self.rank_value() {
            *other
        } else {
            *self
        }
    }
}

/// Of two patterns without sign, the larger stands for the larger number.
pub proof fn lemma_units_grow_with_magnitude(a: Single, b: Single)
    requires
        a.magnitude() < b.magnitude(),
    ensures
        a.units() < b.units(),
{
    let span = FRACTION_SPAN as nat;
    let (ea, eb) = (a.exponent_field(), b.exponent_field());
    assert(ea <= eb);
    if ea == eb {
        assert(a.significand() < b.significand());
        if ea > 0 {
            let scale = pow2((ea - 1) as nat);
            lemma_pow2_pos((ea - 1) as nat);
            lemma_mul_strict_inequality(
                a.significand() as int,
                b.significand() as int,
                scale as int,
            );
        }
    } else {
        let scale_b = pow2((eb - 1) as nat);
        lemma_pow2_pos((eb - 1) as nat);
        lemma_mul_inequality(span as int, b.significand() as int, scale_b as int);
        assert(span * scale_b <= b.units());
        if ea == 0 {
            assert(span <= span * scale_b) by (nonlinear_arith)
                requires
                    1 <= scale_b,
            ;
        } else {
            let scale_a = pow2((ea - 1) as nat);
            lemma_pow2_pos((ea - 1) as nat);
            lemma_pow2_unfold(ea);
            assert(pow2(ea) == 2 * scale_a);
            if ea < eb - 1 {
                lemma_pow2_strictly_increases(ea, (eb - 1) as nat);
            }
            assert(pow2(ea) <= scale_b);
            assert(a.significand() < 2 * span);
            assert(a.units() < span * scale_b) by (nonlinear_arith)
                requires
                    a.units() == a.significand() * scale_a,
                    a.significand() < 2 * span,
                    2 * scale_a <= scale_b,
                    scale_a > 0,
            ;
        }
    }
}

/// The order of the patterns is the order of the numbers: of two finite
/// values, one ranks below the other exactly when the number it stands for is
/// the smaller, and they rank alike exactly when they stand for the same
/// number. Infinity ranks above, and negative infinity below, every finite
/// value.
pub proof fn lemma_rank_orders_values(a: Single, b: Single)
    requires
        a.is_finite(),
        b.is_finite(),
    ensures
        a.rank() < b.rank() <==> a.value() < b.value(),
        a.rank() == b.rank() <==> a.value() == b.value(),
        a.lt(b) <==> a.value() < b.value(),
        a.le(b) <==> a.value() <= b.value(),
        a.below_zero() <==> a.value() < 0,
        a.above_zero() <==> a.value() > 0,
        a.spec_abs().value() == (if a.value() < 0 { -a.value() } else { a.value() }),
        a.spec_negated().value() == -a.value(),
        forall|c: Single| c.is_infinite() ==> (if c.sign_set() { c.lt(a) } else { a.lt(c) }),
{
    let zero = Single { bits: 0 };
    assert(zero.units() == 0);
    if a.magnitude() < b.magnitude() {
        lemma_units_grow_with_magnitude(a, b);
    } else if b.magnitude() < a.magnitude() {
        lemma_units_grow_with_magnitude(b, a);
    } else {
        assert(a.units() == b.units());
    }
    if a.magnitude() > 0 {
        lemma_units_grow_with_magnitude(zero, a);
    } else {
        assert(a.units() == 0);
    }
    if b.magnitude() > 0 {
        lemma_units_grow_with_magnitude(zero, b);
    } else {
        assert(b.units() == 0);
    }
    assert(a.spec_abs().units() == a.units());
    assert(a.spec_negated().units() == a.units());
}

/// Negating twice gives the value back, bit for bit.
pub proof fn lemma_negated_twice(v: Single)
    ensures
        v.spec_negated().spec_negated() == v,
{
}

/// Negation keeps what kind of value it is and mirrors its place in the order.
pub proof fn lemma_negated_mirrors(v: Single)
    ensures
        v.spec_negated().is_nan() == v.is_nan(),
        v.spec_negated().is_finite() == v.is_finite(),
        v.spec_negated().rank() == -v.rank(),
{
}

/// The minimum is one of its arguments; it is a number as soon as one of them
/// is, and then no argument that is a number lies below it.
pub proof fn lemma_min_is_lower_bound(a: Single, b: Single)
    ensures
        a.spec_min(b) == a || a.spec_min(b) == b,
        a.spec_min(b).is_nan() <==> a.is_nan() && b.is_nan(),
        !a.is_nan() ==> a.spec_min(b).rank() <= a.rank(),
        !b.is_nan() ==> a.spec_min(b).rank() <= b.rank(),
{
}

/// The order on numbers is strict and total up to the two zeros.
pub proof fn lemma_order(a: Single, b: Single, c: Single)
    ensures
        !a.lt(a),
        a.lt(b) ==> !b.lt(a),
        a.lt(b) && b.lt(c) ==> a.lt(c),
        !a.is_nan() && !b.is_nan() ==> (a.lt(b) || b.lt(a) || a.rank() == b.rank()),
        a.le(b) <==> (a.lt(b) || (!a.is_nan() && !b.is_nan() && a.rank() == b.rank())),
{
}

} // verus!
