//! The rules around the standard normal distribution: at which points it is
//! evaluated for a call and for a put, and which of its values are usable as
//! weights.

use vstd::prelude::*;
use crate::error::PricingError;
use crate::inputs::OptionType;
use crate::single::Single;

verus! {

/// The pattern of `1.0`.
pub const ONE_BITS: u32 = 0x3f80_0000;

/// The points at which the cumulative distribution is evaluated: `(d1, d2)`
/// for a call, `(-d1, -d2)` for a put. This flip of sign is all that tells the
/// two apart.
pub open spec fn spec_cdf_arguments(option_type: OptionType, d1: Single, d2: Single) -> (
    Single,
    Single,
) {
    match option_type {
        OptionType::Call => (d1, d2),
        OptionType::Put => (d1.spec_negated(), d2.spec_negated()),
    }
}

pub fn cdf_arguments(option_type: OptionType, d1: Single, d2: Single) -> (at: (Single, Single))
    ensures
        at == spec_cdf_arguments(option_type, d1, d2),
{
    match option_type {
        OptionType::Call => (d1, d2),
        OptionType::Put => (d1.negated(), d2.negated()),
    }
}

/// Whether a value can be a probability: a number from zero to one.
pub open spec fn is_weight(w: Single) -> bool {
    !w.is_nan() && 0 <= w.rank() <= ONE_BITS
}

pub open spec fn spec_accept_weight(w: Single) -> Result<Single, PricingError> {
    if is_weight(w) {
        Ok(w)
    } else {
        Err(PricingError::NumericConversion)
    }
}

/// Admits a value of the cumulative distribution as a weight of the price
/// formula. One that is no probability shows that a conversion between
/// precisions went wrong, or that the point of evaluation was not a number.
pub fn accept_weight(w: Single) -> (weight: Result<Single, PricingError>)
    ensures
        weight == spec_accept_weight(w),
{
    let one = Single::from_bits(ONE_BITS);
    if Single::zero().at_most(&w) && w.at_most(&one) {
        Ok(w)
    } else {
        Err(PricingError::NumericConversion)
    }
}

/// The points of evaluation of a put mirror those of a call: the same
/// distance from zero on the other side, and flipping them again gives the
/// call's points back.
pub proof fn lemma_put_mirrors_call(d1: Single, d2: Single)
    ensures
        ({
            let call = spec_cdf_arguments(OptionType::Call, d1, d2);
            let put = spec_cdf_arguments(OptionType::Put, d1, d2);
            &&& call == (d1, d2)
            &&& put.0.rank() == -d1.rank() && put.1.rank() == -d2.rank()
            &&& put.0.is_nan() == d1.is_nan() && put.1.is_nan() == d2.is_nan()
            &&& spec_cdf_arguments(OptionType::Put, put.0, put.1) == call
        }),
{
}

/// The flip reverses the order of the two points: `d2` is at most `d1`
/// exactly when the put's first point is at most its second.
pub proof fn lemma_flip_reverses_order(d1: Single, d2: Single)
    ensures
        ({
            let put = spec_cdf_arguments(OptionType::Put, d1, d2);
            d2.le(d1) <==> put.0.le(put.1)
        }),
{
}

} // verus!
