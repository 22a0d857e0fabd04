//! The inputs of the model.

use vstd::prelude::*;
use crate::single::Single;

verus! {

/// The type of option to be priced (call or put).
#[derive(Debug, Clone, Copy, PartialEq, Eq, Structural)]
pub enum OptionType {
    Call,
    Put,
}

impl OptionType {
    pub open spec fn spec_sign(self) -> int {
        match self {
            OptionType::Call => 1,
            OptionType::Put => -1,
        }
    }

    pub open spec fn spec_name(self) -> Seq<char> {
        match self {
            OptionType::Call => "Call"@,
            OptionType::Put => "Put"@,
        }
    }

    /// The sign by which the rational solver tells the two apart: `1` for a
    /// call, `-1` for a put.
    pub fn sign(&self) -> (q: i8)
        ensures
            q == self.spec_sign(),
    {
        match self {
            OptionType::Call => 1,
            OptionType::Put => -1,
        }
    }

    /// The name as it is displayed.
    pub fn name(&self) -> (s: String)
        ensures
            s@ == self.spec_name(),
    {
        match self {
            OptionType::Call => "Call".to_string(),
            OptionType::Put => "Put".to_string(),
        }
    }
}

/// The inputs to the Black-76 model. A value is read, never changed, by the
/// rules that work on it.
#[derive(Debug, Clone, Copy, PartialEq, Eq, Structural)]
pub struct Inputs {
    /// The type of the option (call or put)
    pub option_type: OptionType,
    /// Futures price
    pub f: Single,
    /// Strike price
    pub k: Single,
    /// Option price, present when solving for the volatility
    pub p: Option<Single>,
    /// Risk-free rate, continuously compounded
    pub r: Single,
    /// Time to maturity in years
    pub t: Single,
    /// Volatility, present when pricing
    pub sigma: Option<Single>,
    /// Whether future and strike price are displaced when an input is negative
    pub shifted: bool,
}

impl Inputs {
    /// Creates the inputs of one option, without displacement.
    pub fn new(
        option_type: OptionType,
        f: Single,
        k: Single,
        p: Option<Single>,
        r: Single,
        t: Single,
        sigma: Option<Single>,
    ) -> (inputs: Inputs)
        ensures
            inputs == (Inputs { option_type, f, k, p, r, t, sigma, shifted: false }),
    {
        Inputs { option_type, f, k, p, r, t, sigma, shifted: false }
    }

    /// The same inputs with the displacement switched on or off.
    pub fn with_shift(self, shifted: bool) -> (inputs: Inputs)
        ensures
            inputs == (Inputs { shifted, ..self }),
    {
        Inputs { shifted, ..self }
    }

    /// The same inputs with the given volatility.
    pub fn with_volatility(self, sigma: Single) -> (inputs: Inputs)
        ensures
            inputs == (Inputs { sigma: Some(sigma), ..self }),
    {
        Inputs { sigma: Some(sigma), ..self }
    }

    /// The smallest of future price, strike price and rate, as `spec_min`
    /// compares them.
    pub open spec fn spec_lowest(self) -> Single {
        self.f.spec_min(self.k).spec_min(self.r)
    }

    pub fn lowest(&self) -> (m: Single)
        ensures
            m == self.spec_lowest(),
    {
        self.f.min(&self.k).min(&self.r)
    }
}

} // verus!
