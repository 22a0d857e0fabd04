//! Decision rules of a Black-76 option pricing and implied-volatility engine.
//!
//! Numbers are held as IEEE-754 bit patterns, so that every rule of the model
//! that decides something (which inputs are usable, whether a shift applies,
//! which sign a term takes, when the solver stops and with what) is stated over
//! integers and proved.

pub mod double;
pub mod error;
pub mod inputs;
pub mod normal;
pub mod pricing;
pub mod shift;
pub mod single;
pub mod solver;

pub use double::Double;
pub use error::PricingError;
pub use inputs::{Inputs, OptionType};
pub use single::Single;
