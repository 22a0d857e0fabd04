//! The ways in which a pricing or solving call can fail.

use vstd::prelude::*;

verus! {

/// Why a call produced no value. A failure is passed upward unchanged by
/// every rule that meets one.
#[derive(Debug, Clone, Copy, PartialEq, Eq, Structural)]
pub enum PricingError {
    /// A required optional input is absent: the volatility when pricing, the
    /// observed price when solving.
    InputMissing,
    /// A value that had to be a finite number is not one.
    NumericConversion,
    /// The solver started from a seed that is not finite, reached an iterate
    /// that is not finite, or used up its iterations.
    ConvergenceFailure,
    /// An input lies outside the model's domain: a time to maturity or a
    /// volatility that is not above zero, a future or strike price that is not
    /// above zero once displaced.
    InvalidDomain,
}

impl PricingError {
    pub open spec fn spec_message(self) -> Seq<char> {
        match self {
            PricingError::InputMissing => "a required input is missing"@,
            PricingError::NumericConversion => "a value is not a finite number"@,
            PricingError::ConvergenceFailure => "failed to converge"@,
            PricingError::InvalidDomain => "an input is outside the model's domain"@,
        }
    }

    /// The reason in words.
    pub fn message(&self) -> (s: String)
        ensures
            s@ == self.spec_message(),
    {
        match self {
            PricingError::InputMissing => "a required input is missing".to_string(),
            PricingError::NumericConversion => "a value is not a finite number".to_string(),
            PricingError::ConvergenceFailure => "failed to converge".to_string(),
            PricingError::InvalidDomain => "an input is outside the model's domain".to_string(),
        }
    }
}

} // verus!
