//! The decisions of the implied-volatility solvers.
//!
//! The Newton-Raphson solver alternates floating-point work (a price and its
//! derivative at the current estimate) with decisions: whether the estimate is
//! good enough, whether the next one is usable, whether to give up. The
//! decisions are made here, as steps from one state to the next; the caller
//! does the arithmetic between two steps. The rational solver is one outside
//! computation, of which the inputs are fixed and the result is judged here.

use vstd::prelude::*;
use crate::double::Double;
use crate::error::PricingError;
use crate::inputs::{Inputs, OptionType};
use crate::single::Single;

verus! {

/// The number of estimates, the seed included, that the solver tries before
/// it gives up.
pub const MAX_ITERATIONS: u32 = 300;

/// What solving for the volatility is evaluated on.
#[derive(Debug, Clone, Copy, PartialEq, Eq, Structural)]
pub struct SolvingPlan {
    pub option_type: OptionType,
    pub future: Single,
    pub strike: Single,
    pub rate: Single,
    pub time: Single,
    /// The observed price
    pub price: Single,
    /// The largest absolute difference in price that counts as a match
    pub tolerance: Single,
}

/// The state of one solving call: owned by it, dropped when it returns.
#[derive(Debug, Clone, Copy, PartialEq, Eq, Structural)]
pub struct SolverState {
    /// The current estimate of the volatility
    pub sigma: Single,
    /// How many estimates were replaced so far
    pub iterations: u32,
}

/// Where a solving call stands after a decision.
#[derive(Debug, Clone, Copy, PartialEq, Eq, Structural)]
pub enum Progress {
    /// The price at this state's estimate is wanted next.
    Evaluate(SolverState),
    /// The call has failed, for good.
    Failed(PricingError),
}

impl Inputs {
    /// What solving is evaluated on, or why it cannot be: the observed price
    /// must be present; every number, the tolerance too, must be finite; time
    /// and tolerance must lie above zero. The tests apply in this order.
    pub open spec fn spec_plan_solving(self, tolerance: Single) -> Result<
        SolvingPlan,
        PricingError,
    > {
        match self.p {
            None => Err(PricingError::InputMissing),
            Some(price) => if !self.market_is_finite() || !price.is_finite()
                || !tolerance.is_finite() {
                Err(PricingError::NumericConversion)
            } else if !self.t.above_zero() || !tolerance.above_zero() {
                Err(PricingError::InvalidDomain)
            } else {
                Ok(
                    SolvingPlan {
                        option_type: self.option_type,
                        future: self.f,
                        strike: self.k,
                        rate: self.r,
                        time: self.t,
                        price,
                        tolerance,
                    },
                )
            },
        }
    }

    /// Checks the inputs for solving and fixes what the solver works on.
    pub fn plan_solving(&self, tolerance: Single) -> (plan: Result<SolvingPlan, PricingError>)
        ensures
            plan == self.spec_plan_solving(tolerance),
    {
        match self.p {
            None => Err(PricingError::InputMissing),
            Some(price) => {
                if !self.finite_market() || !price.finite() || !tolerance.finite() {
                    Err(PricingError::NumericConversion)
                } else if !self.t.positive() || !tolerance.positive() {
                    Err(PricingError::InvalidDomain)
                } else {
                    Ok(
                        SolvingPlan {
                            option_type: self.option_type,
                            future: self.f,
                            strike: self.k,
                            rate: self.r,
                            time: self.t,
                            price,
                            tolerance,
                        },
                    )
                }
            },
        }
    }
}

impl SolverState {
    /// A state that the solver can be in: a finite estimate, and room for at
    /// least this one evaluation.
    pub open spec fn wf(self) -> bool {
        self.sigma.is_finite() && self.iterations < MAX_ITERATIONS
    }
}

/// Whether a difference in price is small enough: its absolute value is at
/// most that of the tolerance. A difference that is not a number never is.
pub open spec fn spec_within_tolerance(diff: Single, tolerance: Single) -> bool {
    diff.spec_abs().le(tolerance.spec_abs())
}

pub fn within_tolerance(diff: Single, tolerance: Single) -> (b: bool)
    ensures
        b == spec_within_tolerance(diff, tolerance),
{
    diff.abs().at_most(&tolerance.abs())
}

/// The first decision: a seed that is not finite ends the call at once, since
/// nothing can be refined from it.
pub open spec fn spec_start(seed: Single) -> Progress {
    if seed.is_finite() {
        Progress::Evaluate(SolverState { sigma: seed, iterations: 0 })
    } else {
        Progress::Failed(PricingError::ConvergenceFailure)
    }
}

pub fn start(seed: Single) -> (next: Progress)
    ensures
        next == spec_start(seed),
        next matches Progress::Evaluate(state) ==> state.wf(),
{
    if seed.finite() {
        Progress::Evaluate(SolverState { sigma: seed, iterations: 0 })
    } else {
        Progress::Failed(PricingError::ConvergenceFailure)
    }
}

impl SolverState {
    /// The result, if the price at the current estimate differs from the
    /// observed one by `diff`: the estimate itself where that is within the
    /// tolerance, nothing yet where it is not.
    pub open spec fn spec_settle(self, diff: Single, tolerance: Single) -> Option<Single> {
        if spec_within_tolerance(diff, tolerance) {
            Some(self.sigma)
        } else {
            None
        }
    }

    pub fn settle(&self, diff: Single, tolerance: Single) -> (found: Option<Single>)
        ensures
            found == self.spec_settle(diff, tolerance),
    {
        if within_tolerance(diff, tolerance) {
            Some(self.sigma)
        } else {
            None
        }
    }

    /// The step to the next estimate: it fails where the candidate is not
    /// finite or the iterations are used up, and else asks for the price at
    /// the candidate.
    pub open spec fn spec_refine(self, candidate: Single) -> Progress {
        if !candidate.is_finite() || self.iterations + 1 >= MAX_ITERATIONS {
            Progress::Failed(PricingError::ConvergenceFailure)
        } else {
            Progress::Evaluate(
                SolverState { sigma: candidate, iterations: (self.iterations + 1) as u32 },
            )
        }
    }

    pub fn refine(self, candidate: Single) -> (next: Progress)
        requires
            self.wf(),
        ensures
            next == self.spec_refine(candidate),
            next matches Progress::Evaluate(state) ==> state.wf(),
    {
        if !candidate.finite() || self.iterations + 1 >= MAX_ITERATIONS {
            Progress::Failed(PricingError::ConvergenceFailure)
        } else {
            Progress::Evaluate(SolverState { sigma: candidate, iterations: self.iterations + 1 })
        }
    }
}

/// Where a call stands after it has replaced its estimate by each of the
/// candidates in turn, starting from `from`. A failure stays a failure.
pub open spec fn spec_run(from: Progress, candidates: Seq<Single>) -> Progress
    decreases candidates.len(),
{
    if candidates.len() == 0 {
        from
    } else {
        let before = spec_run(from, candidates.drop_last());
        match before {
            Progress::Evaluate(state) => state.spec_refine(candidates.last()),
            Progress::Failed(e) => Progress::Failed(e),
        }
    }
}

/// However the candidates come out, a call that still asks for a price has a
/// well-formed state which has counted every candidate.
pub proof fn lemma_run_counts(seed: Single, candidates: Seq<Single>)
    ensures
        spec_run(spec_start(seed), candidates) matches Progress::Evaluate(state) ==> state.wf()
            && state.iterations == candidates.len(),
        spec_run(spec_start(seed), candidates) matches Progress::Failed(e) ==> e
            == PricingError::ConvergenceFailure,
    decreases candidates.len(),
{
    if candidates.len() > 0 {
        lemma_run_counts(seed, candidates.drop_last());
    }
}

/// The solver ends: after as many candidates as it has iterations, no call
/// asks for another price, whatever the candidates were.
pub proof fn lemma_run_is_bounded(seed: Single, candidates: Seq<Single>)
    requires
        candidates.len() >= MAX_ITERATIONS,
    ensures
        spec_run(spec_start(seed), candidates) == Progress::Failed(
            PricingError::ConvergenceFailure,
        ),
{
    lemma_run_counts(seed, candidates);
}

/// A seed or candidate that is not finite fails the call with a convergence
/// failure, and nothing that follows revives it.
pub proof fn lemma_failure_is_final(seed: Single, candidates: Seq<Single>, i: int)
    requires
        0 <= i < candidates.len(),
        !seed.is_finite() || !candidates[i].is_finite(),
    ensures
        spec_run(spec_start(seed), candidates) == Progress::Failed(
            PricingError::ConvergenceFailure,
        ),
    decreases candidates.len(),
{
    let shorter = candidates.drop_last();
    lemma_run_counts(seed, shorter);
    if seed.is_finite() && i < candidates.len() - 1 {
        lemma_failure_is_final(seed, shorter, i);
    } else if !seed.is_finite() && shorter.len() > 0 {
        lemma_failure_is_final(seed, shorter, 0);
    }
}

/// What the rational solver is called on. It takes no tolerance.
#[derive(Debug, Clone, Copy, PartialEq, Eq, Structural)]
pub struct RationalPlan {
    pub price: Single,
    pub future: Single,
    pub strike: Single,
    pub time: Single,
    /// `1` for a call, `-1` for a put
    pub sign: i8,
}

impl Inputs {
    pub open spec fn spec_plan_rational(self) -> Result<RationalPlan, PricingError> {
        match self.p {
            None => Err(PricingError::InputMissing),
            Some(price) => Ok(
                RationalPlan {
                    price,
                    future: self.f,
                    strike: self.k,
                    time: self.t,
                    sign: self.option_type.spec_sign() as i8,
                },
            ),
        }
    }

    /// Fixes the arguments of the rational solver; the observed price must be
    /// present.
    pub fn plan_rational(&self) -> (plan: Result<RationalPlan, PricingError>)
        ensures
            plan == self.spec_plan_rational(),
    {
        match self.p {
            None => Err(PricingError::InputMissing),
            Some(price) => Ok(
                RationalPlan {
                    price,
                    future: self.f,
                    strike: self.k,
                    time: self.t,
                    sign: self.option_type.sign(),
                },
            ),
        }
    }
}

/// What a result of the rational solver stands for. The solver signals no
/// error of its own: a result that is not finite, or is below zero, is a
/// convergence failure.
pub open spec fn spec_accept_rational(sigma: Double) -> Result<Double, PricingError> {
    if !sigma.is_finite() || sigma.below_zero() {
        Err(PricingError::ConvergenceFailure)
    } else {
        Ok(sigma)
    }
}

pub fn accept_rational(sigma: Double) -> (volatility: Result<Double, PricingError>)
    ensures
        volatility == spec_accept_rational(sigma),
{
    if !sigma.finite() || sigma.negative() {
        Err(PricingError::ConvergenceFailure)
    } else {
        Ok(sigma)
    }
}

} // verus!
