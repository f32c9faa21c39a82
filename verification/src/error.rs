//! What can go wrong.

use vstd::prelude::*;

verus! {

/// Why a configuration was refused or a run was given up.
#[derive(Clone, Copy, PartialEq, Eq, Debug)]
pub enum Error {
    /// A setting is outside what the solver accepts. Found when the setting
    /// is made, before any iteration.
    InvalidParameter { text: &'static str },
    /// The operator could not evaluate the cost, the gradient or the Hessian.
    /// It ends the run at once and is not tried again.
    OperatorEvaluationError { text: &'static str },
    /// No boundary root of the trust-region search is a finite number.
    NumericDegeneracy,
}

impl Error {
    /// The text that describes the error.
    pub fn message(&self) -> (s: String)
        ensures
            s@ == match *self {
                Error::InvalidParameter { text } => text@,
                Error::OperatorEvaluationError { text } => text@,
                Error::NumericDegeneracy => "no boundary root is a finite number"@,
            },
    {
        match *self {
            Error::InvalidParameter { text } => text.to_owned(),
            Error::OperatorEvaluationError { text } => text.to_owned(),
            Error::NumericDegeneracy => "no boundary root is a finite number".to_owned(),
        }
    }
}

} // verus!
