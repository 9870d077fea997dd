//! The error taxonomy of the regression engine. Every failure is returned as
//! a value; no verified function of this crate panics.

use vstd::prelude::*;

verus! {

/// Errors surfaced by the solvers, the models and the online update engine.
#[derive(Clone, Copy, Debug, PartialEq, Eq, Structural)]
pub enum LinalgErrors {
    /// Row or column counts of the inputs do not agree with each other or
    /// with the model's coefficients.
    DimensionMismatch,
    /// Fewer rows than features for a closed-form path, or no rows at all.
    NotEnoughData,
    /// Coefficients were read, a prediction was asked for, or an update was
    /// applied before any successful fit.
    MatNotLearnedYet,
}

impl LinalgErrors {
    /// A short description of the error.
    pub fn message(&self) -> (r: &'static str)
        ensures
            self is DimensionMismatch ==> r@ == "Input dimensions do not match."@,
            self is NotEnoughData ==> r@ == "Not enough data to solve the system."@,
            self is MatNotLearnedYet ==> r@ == "Coefficients are not learned yet."@,
    {
        match self {
            LinalgErrors::DimensionMismatch => "Input dimensions do not match.",
            LinalgErrors::NotEnoughData => "Not enough data to solve the system.",
            LinalgErrors::MatNotLearnedYet => "Coefficients are not learned yet.",
        }
    }
}

} // verus!
