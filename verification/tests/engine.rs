use black76::error::PricingError;
use black76::inputs::{Inputs, OptionType};
use black76::normal::{accept_weight, cdf_arguments};
use black76::pricing::{accept_legs, floor_price, PricingPlan};
use black76::shift::{shift_margin, Shift};
use black76::single::Single;
use black76::solver::{start, Progress};
use num_traits::NumCast;
use statrs::distribution::{ContinuousCDF, Normal};

const SQRT_2PI: f32 = 2.5066282;
const PI: f32 = std::f32::consts::PI;
const E: f32 = std::f32::consts::E;
const A: f32 = 4.626_275_3e-1;
const B: f32 = -1.168_519_2e-2;
const C: f32 = 9.635_418_5e-4;
const D: f32 = 7.535_022_5e-5;
const _E: f32 = 1.424_516_45e-5;
const F: f32 = -2.102_376_9e-5;

fn s(x: f32) -> Single {
    Single::from_bits(x.to_bits())
}

fn v(x: Single) -> f32 {
    f32::from_bits(x.to_bits())
}

fn inputs(option_type: OptionType, f: f32, k: f32, sigma: f32) -> Inputs {
    Inputs::new(option_type, s(f), s(k), None, s(0.05), s(20.0 / 365.25), Some(s(sigma)))
}

fn legs(plan: &PricingPlan) -> Result<(f32, f32), PricingError> {
    let (f, k) = match plan.shift {
        Shift::Zero => (v(plan.future), v(plan.strike)),
        Shift::Beyond(base) => {
            let shift = v(base) + v(shift_margin());
            (v(plan.future) + shift, v(plan.strike) + shift)
        }
    };
    let (f, k) = accept_legs(s(f), s(k))?;
    Ok((v(f), v(k)))
}

fn d1d2(plan: &PricingPlan) -> Result<(f32, f32), PricingError> {
    let (f, k) = legs(plan)?;
    let sigma = v(plan.volatility);
    let t = v(plan.time);
    let den = sigma * t.sqrt();
    let d1 = ((f / k).ln() + (sigma.powi(2) / 2.0) * t) / den;
    Ok((d1, d1 - den))
}

fn weight(n: &Normal, at: f32) -> Result<f32, PricingError> {
    let x: f64 = NumCast::from(at).ok_or(PricingError::NumericConversion)?;
    let w: f32 = NumCast::from(n.cdf(x)).ok_or(PricingError::NumericConversion)?;
    Ok(v(accept_weight(s(w))?))
}

fn price_of(plan: &PricingPlan) -> Result<f32, PricingError> {
    let (d1, d2) = d1d2(plan)?;
    let n = Normal::new(0.0, 1.0).unwrap();
    let (at1, at2) = cdf_arguments(plan.option_type, s(d1), s(d2));
    let (nd1, nd2) = (weight(&n, v(at1))?, weight(&n, v(at2))?);
    let (f, k) = legs(plan)?;
    let discount = E.powf(-v(plan.rate) * v(plan.time));
    let raw = match plan.option_type {
        OptionType::Call => discount * (nd1 * f - nd2 * k),
        OptionType::Put => discount * (nd2 * k - nd1 * f),
    };
    Ok(v(floor_price(s(raw))?))
}

fn calc_price(i: &Inputs) -> Result<f32, PricingError> {
    price_of(&i.plan_pricing()?)
}

#[allow(non_snake_case)]
fn seed(f: f32, k: f32, r: f32, t: f32, p: f32) -> f32 {
    let X = k * E.powf(-r * t);
    let fminusX = f - X;
    let fplusX = f + X;
    let oneoversqrtT = 1.0 / t.sqrt();
    let x = oneoversqrtT * (SQRT_2PI / fplusX);
    let root = ((p - fminusX / 2.0).powf(2.0) - fminusX.powf(2.0) / PI).sqrt();
    let y = p - (f - k) / 2.0 + root;
    oneoversqrtT * (SQRT_2PI / fplusX) * (p - fminusX / 2.0 + root)
        + A
        + B / x
        + C * y
        + D / x.powf(2.0)
        + _E * y.powf(2.0)
        + F * y / x
}

fn calc_iv(i: &Inputs, tolerance: f32) -> Result<f32, PricingError> {
    let plan = i.plan_solving(s(tolerance))?;
    let first = seed(v(plan.future), v(plan.strike), v(plan.rate), v(plan.time), v(plan.price));
    let mut progress = start(s(first));
    loop {
        let state = match progress {
            Progress::Evaluate(state) => state,
            Progress::Failed(e) => return Err(e),
        };
        let at = i.with_volatility(state.sigma).plan_pricing()?;
        let diff = price_of(&at)? - v(plan.price);
        if let Some(sigma) = state.settle(s(diff), plan.tolerance) {
            return Ok(v(sigma));
        }
        let (d1, _) = d1d2(&at)?;
        let (f, _) = legs(&at)?;
        let pdf = (-0.5 * d1.powi(2)).exp() / SQRT_2PI;
        let slope = f * E.powf(-v(at.rate) * v(at.time)) * pdf * v(at.time).sqrt();
        progress = state.refine(s(v(state.sigma) - diff / slope));
    }
}

#[test]
fn price_call_otm() {
    let i = inputs(OptionType::Call, 100.0, 110.0, 0.2);
    assert!((calc_price(&i).unwrap() - 0.0376).abs() < 0.001);
}

#[test]
fn price_call_itm() {
    let i = inputs(OptionType::Call, 100.0, 90.0, 0.2);
    assert!((calc_price(&i).unwrap() - 9.9913).abs() < 0.001);
}

#[test]
fn price_put_otm() {
    let i = inputs(OptionType::Put, 100.0, 90.0, 0.2);
    assert!((calc_price(&i).unwrap() - 0.01867).abs() < 0.001);
}

#[test]
fn price_put_itm() {
    let i = inputs(OptionType::Put, 100.0, 110.0, 0.2);
    assert!((calc_price(&i).unwrap() - 10.0103).abs() < 0.001);
}

#[test]
fn put_call_parity_holds() {
    let strikes: Vec<f32> = vec![80.0, 90.0, 100.0, 110.0, 125.0];
    for k in strikes.iter() {
        let call = calc_price(&inputs(OptionType::Call, 100.0, *k, 0.2)).unwrap();
        let put = calc_price(&inputs(OptionType::Put, 100.0, *k, 0.2)).unwrap();
        let forward = E.powf(-0.05 * (20.0 / 365.25)) * (100.0 - *k);
        assert!((call - put - forward).abs() < 0.001);
    }
}

#[test]
fn prices_are_finite_and_not_negative() {
    let strikes: Vec<f32> = vec![1.0, 50.0, 99.0, 100.0, 101.0, 200.0, 10000.0];
    let sigmas: Vec<f32> = vec![0.001, 0.05, 0.2, 1.0, 5.0];
    for k in strikes.iter() {
        for sigma in sigmas.iter() {
            let call = calc_price(&inputs(OptionType::Call, 100.0, *k, *sigma)).unwrap();
            let put = calc_price(&inputs(OptionType::Put, 100.0, *k, *sigma)).unwrap();
            assert!(call.is_finite() && call >= 0.0);
            assert!(put.is_finite() && put >= 0.0);
        }
    }
}

#[test]
fn shift_changes_nothing_for_positive_inputs() {
    let plain = inputs(OptionType::Call, 100.0, 110.0, 0.2);
    let shifted = plain.with_shift(true);
    assert_eq!(
        calc_price(&plain).unwrap().to_bits(),
        calc_price(&shifted).unwrap().to_bits()
    );
    let plain = inputs(OptionType::Put, 100.0, 90.0, 0.3);
    assert_eq!(
        calc_price(&plain).unwrap().to_bits(),
        calc_price(&plain.with_shift(true)).unwrap().to_bits()
    );
}

#[test]
fn shift_prices_a_negative_rate_on_displaced_legs() {
    let base = Inputs { r: s(-0.02), ..inputs(OptionType::Call, 100.0, 110.0, 0.2) };
    let shifted = base.with_shift(true);
    let plan = shifted.plan_pricing().unwrap();
    let (f, k) = legs(&plan).unwrap();
    assert!((f - 100.03).abs() < 1.0e-4);
    assert!((k - 110.03).abs() < 1.0e-4);
    let price = calc_price(&shifted).unwrap();
    assert!(price.is_finite() && price >= 0.0);
}

#[test]
fn negative_strike_needs_the_shift() {
    let base = inputs(OptionType::Call, 1.0, -0.5, 0.2);
    assert_eq!(calc_price(&base), Err(PricingError::InvalidDomain));
    let plan = base.with_shift(true).plan_pricing().unwrap();
    let (f, k) = legs(&plan).unwrap();
    assert!((f - 1.51).abs() < 1.0e-6);
    assert!((k - 0.01).abs() < 1.0e-6);
    assert!(calc_price(&base.with_shift(true)).unwrap() > 0.0);
}

#[test]
fn pricing_without_volatility_fails() {
    let i = Inputs { sigma: None, ..inputs(OptionType::Call, 100.0, 110.0, 0.2) };
    assert_eq!(calc_price(&i), Err(PricingError::InputMissing));
}

#[test]
fn pricing_at_zero_volatility_fails() {
    let i = inputs(OptionType::Call, 100.0, 110.0, 0.0);
    assert_eq!(calc_price(&i), Err(PricingError::InvalidDomain));
}

#[test]
fn implied_volatility_round_trip() {
    let strikes: Vec<f32> = vec![98.0, 100.0, 102.0];
    for k in strikes.iter() {
        let priced = inputs(OptionType::Call, 100.0, *k, 0.2);
        let p = calc_price(&priced).unwrap();
        let observed = Inputs { p: Some(s(p)), sigma: None, ..priced };
        let sigma = calc_iv(&observed, 0.0001).unwrap();
        assert!((sigma - 0.2).abs() < 0.001);
    }
}

#[test]
fn implied_volatility_below_intrinsic_value_fails() {
    let i = Inputs::new(
        OptionType::Call,
        s(100.0),
        s(90.0),
        Some(s(5.0)),
        s(0.05),
        s(20.0 / 365.25),
        None,
    );
    assert_eq!(calc_iv(&i, 0.0001), Err(PricingError::ConvergenceFailure));
}

#[test]
fn implied_volatility_above_the_upper_bound_fails() {
    let i = Inputs::new(
        OptionType::Call,
        s(100.0),
        s(100.0),
        Some(s(150.0)),
        s(0.05),
        s(20.0 / 365.25),
        None,
    );
    assert_eq!(calc_iv(&i, 0.0001), Err(PricingError::ConvergenceFailure));
}

#[test]
fn implied_volatility_of_a_market_price() {
    let i = Inputs::new(
        OptionType::Call,
        s(100.0),
        s(100.0),
        Some(s(0.5)),
        s(0.05),
        s(20.0 / 365.25),
        None,
    );
    let sigma = calc_iv(&i, 0.0001).unwrap();
    assert!((sigma - 0.0537).abs() < 0.001);
    let back = calc_price(&i.with_volatility(s(sigma))).unwrap();
    assert!((back - 0.5).abs() <= 0.0001);
}

#[test]
fn implied_volatility_without_price_fails() {
    let i = inputs(OptionType::Call, 100.0, 110.0, 0.2);
    assert_eq!(calc_iv(&i, 0.0001), Err(PricingError::InputMissing));
}
