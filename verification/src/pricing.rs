//! The rules around the price formula: which inputs it accepts, which terms it
//! is evaluated on, and what becomes of the number it yields.

use vstd::prelude::*;
use crate::error::PricingError;
use crate::inputs::{Inputs, OptionType};
use crate::shift::Shift;
use crate::single::{lemma_rank_orders_values, Single};

verus! {

/// Everything the price formula is evaluated on, fixed before any
/// floating-point work is done.
#[derive(Debug, Clone, Copy, PartialEq, Eq, Structural)]
pub struct PricingPlan {
    pub option_type: OptionType,
    /// Futures price, before displacement
    pub future: Single,
    /// Strike price, before displacement
    pub strike: Single,
    /// Rate used for discounting; it is never displaced
    pub rate: Single,
    pub time: Single,
    pub volatility: Single,
    /// What is added to future and strike price
    pub shift: Shift,
}

impl Inputs {
    /// Whether future price, strike price, rate and time are all finite numbers.
    pub open spec fn market_is_finite(self) -> bool {
        self.f.is_finite() && self.k.is_finite() && self.r.is_finite() && self.t.is_finite()
    }

    /// What pricing is evaluated on, or why it cannot be: the volatility must
    /// be present; every number must be finite; time and volatility must lie
    /// above zero. The tests apply in this order.
    pub open spec fn spec_plan_pricing(self) -> Result<PricingPlan, PricingError> {
        match self.sigma {
            None => Err(PricingError::InputMissing),
            Some(sigma) => if !self.market_is_finite() || !sigma.is_finite() {
                Err(PricingError::NumericConversion)
            } else if !self.t.above_zero() || !sigma.above_zero() {
                Err(PricingError::InvalidDomain)
            } else {
                Ok(
                    PricingPlan {
                        option_type: self.option_type,
                        future: self.f,
                        strike: self.k,
                        rate: self.r,
                        time: self.t,
                        volatility: sigma,
                        shift: self.spec_shift(),
                    },
                )
            },
        }
    }

    pub fn finite_market(&self) -> (b: bool)
        ensures
            b == self.market_is_finite(),
    {
        self.f.finite() && self.k.finite() && self.r.finite() && self.t.finite()
    }

    /// Checks the inputs for pricing and fixes the terms of the formula.
    pub fn plan_pricing(&self) -> (plan: Result<PricingPlan, PricingError>)
        ensures
            plan == self.spec_plan_pricing(),
    {
        match self.sigma {
            None => Err(PricingError::InputMissing),
            Some(sigma) => {
                if !self.finite_market() || !sigma.finite() {
                    Err(PricingError::NumericConversion)
                } else if !self.t.positive() || !sigma.positive() {
                    Err(PricingError::InvalidDomain)
                } else {
                    Ok(
                        PricingPlan {
                            option_type: self.option_type,
                            future: self.f,
                            strike: self.k,
                            rate: self.r,
                            time: self.t,
                            volatility: sigma,
                            shift: self.shift(),
                        },
                    )
                }
            },
        }
    }
}

/// What becomes of the two prices once displaced: they are the legs of the
/// formula if both are finite and above zero.
pub open spec fn spec_accept_legs(future: Single, strike: Single) -> Result<
    (Single, Single),
    PricingError,
> {
    if !future.is_finite() || !strike.is_finite() {
        Err(PricingError::NumericConversion)
    } else if !future.above_zero() || !strike.above_zero() {
        Err(PricingError::InvalidDomain)
    } else {
        Ok((future, strike))
    }
}

/// Admits the displaced future and strike price as legs of the formula, whose
/// logarithm of their ratio needs both above zero.
pub fn accept_legs(future: Single, strike: Single) -> (legs: Result<(Single, Single), PricingError>)
    ensures
        legs == spec_accept_legs(future, strike),
{
    if !future.finite() || !strike.finite() {
        Err(PricingError::NumericConversion)
    } else if !future.positive() || !strike.positive() {
        Err(PricingError::InvalidDomain)
    } else {
        Ok((future, strike))
    }
}

/// The price that a raw value of the formula stands for: a value that is not
/// finite is an error and is not covered up; a finite one below zero, which
/// rounding leaves near a payoff of nothing, counts as positive zero, and so
/// does negative zero.
pub open spec fn spec_floor_price(raw: Single) -> Result<Single, PricingError> {
    if !raw.is_finite() {
        Err(PricingError::NumericConversion)
    } else if raw.sign_set() {
        Ok(Single { bits: 0 })
    } else {
        Ok(raw)
    }
}

/// Floors the raw value of the formula at zero.
pub fn floor_price(raw: Single) -> (price: Result<Single, PricingError>)
    ensures
        price == spec_floor_price(raw),
        price is Ok ==> price->Ok_0.is_finite() && !price->Ok_0.below_zero()
            && !price->Ok_0.sign_set(),
{
    if !raw.finite() {
        Err(PricingError::NumericConversion)
    } else if raw.has_sign() {
        Ok(Single::zero())
    } else {
        Ok(raw)
    }
}

/// A price is a finite number that is never below zero: it is the number
/// that the raw value stands for, or zero where that is smaller.
pub proof fn lemma_price_is_not_negative(raw: Single)
    ensures
        spec_floor_price(raw) is Ok <==> raw.is_finite(),
        spec_floor_price(raw) matches Ok(price) ==> {
            &&& price.is_finite()
            &&& !price.below_zero()
            &&& price.value() >= 0
            &&& price.value() == (if raw.value() < 0 { 0 } else { raw.value() })
        },
{
    if raw.is_finite() {
        let price = spec_floor_price(raw)->Ok_0;
        lemma_rank_orders_values(raw, price);
        lemma_rank_orders_values(price, Single { bits: 0 });
    }
}

/// Flooring a price again changes nothing.
pub proof fn lemma_floor_price_is_idempotent(raw: Single)
    ensures
        spec_floor_price(raw) matches Ok(price) ==> spec_floor_price(price) == Ok::<
            Single,
            PricingError,
        >(price),
{
}

/// Switching the displacement on changes nothing in the plan of inputs of
/// which none is below zero: they are priced on the same terms either way.
pub proof fn lemma_shift_leaves_positive_inputs(inputs: Inputs)
    requires
        !inputs.f.below_zero(),
        !inputs.k.below_zero(),
        !inputs.r.below_zero(),
    ensures
        (Inputs { shifted: true, ..inputs }).spec_plan_pricing() == (Inputs {
            shifted: false,
            ..inputs
        }).spec_plan_pricing(),
{
}

/// A call and a put on the same market are priced on the same terms but for
/// the option type.
pub proof fn lemma_call_and_put_share_terms(inputs: Inputs)
    ensures
        ({
            let call = (Inputs { option_type: OptionType::Call, ..inputs }).spec_plan_pricing();
            let put = (Inputs { option_type: OptionType::Put, ..inputs }).spec_plan_pricing();
            &&& call is Ok <==> put is Ok
            &&& call matches Err(e) ==> put == Err::<PricingPlan, PricingError>(e)
            &&& call matches Ok(c) ==> put == Ok::<PricingPlan, PricingError>(
                PricingPlan { option_type: OptionType::Put, ..c },
            )
        }),
{
}

} // verus!
