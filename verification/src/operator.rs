//! The unit that evaluates cost, gradient and Hessian.

use vstd::prelude::*;
use crate::error::Error;
use crate::float::Float;

verus! {

/// What a caller supplies to be minimised over parameters of type `P`, with
/// Hessians of type `H`. Each evaluation may fail, and each must be a
/// function of the parameter alone: its contract names the result and
/// claims nothing else.
pub trait Operator<P, H> {
    spec fn spec_apply(&self, param: &P) -> Result<Float, Error>;

    spec fn spec_gradient(&self, param: &P) -> Result<P, Error>;

    spec fn spec_hessian(&self, param: &P) -> Result<H, Error>;

    /// The cost at `param`.
    fn apply(&self, param: &P) -> (r: Result<Float, Error>)
        ensures
            r == self.spec_apply(param),
    ;

    /// The gradient at `param`.
    fn gradient(&self, param: &P) -> (r: Result<P, Error>)
        ensures
            r == self.spec_gradient(param),
    ;

    /// The Hessian at `param`.
    fn hessian(&self, param: &P) -> (r: Result<H, Error>)
        ensures
            r == self.spec_hessian(param),
    ;
}

/// One more, as far as the counter can hold it.
pub open spec fn counted(n: u64) -> u64 {
    if n < u64::MAX {
        (n + 1) as u64
    } else {
        n
    }
}

/// An operator together with the number of evaluations asked of it. The
/// counts stay at their largest value once they have reached it.
#[derive(Clone, Debug, PartialEq)]
pub struct OpWrapper<O> {
    pub op: O,
    pub cost_func_count: u64,
    pub grad_func_count: u64,
    pub hessian_func_count: u64,
}

impl<O> OpWrapper<O> {
    pub open spec fn spec_new(op: O) -> Self {
        OpWrapper { op, cost_func_count: 0, grad_func_count: 0, hessian_func_count: 0 }
    }

    pub fn new(op: O) -> (w: Self)
        ensures
            w == Self::spec_new(op),
    {
        OpWrapper { op, cost_func_count: 0, grad_func_count: 0, hessian_func_count: 0 }
    }

    /// Evaluates the cost and counts the evaluation, failed or not.
    pub fn apply<P, H>(&mut self, param: &P) -> (r: Result<Float, Error>) where O: Operator<P, H>
        ensures
            r == old(self).op.spec_apply(param),
            *final(self) == (OpWrapper {
                cost_func_count: counted(old(self).cost_func_count),
                ..*old(self)
            }),
    {
        if self.cost_func_count < u64::MAX {
            self.cost_func_count = self.cost_func_count + 1;
        }
        self.op.apply(param)
    }

    /// Evaluates the gradient and counts the evaluation, failed or not.
    pub fn gradient<P, H>(&mut self, param: &P) -> (r: Result<P, Error>) where O: Operator<P, H>
        ensures
            r == old(self).op.spec_gradient(param),
            *final(self) == (OpWrapper {
                grad_func_count: counted(old(self).grad_func_count),
                ..*old(self)
            }),
    {
        if self.grad_func_count < u64::MAX {
            self.grad_func_count = self.grad_func_count + 1;
        }
        self.op.gradient(param)
    }

    /// Evaluates the Hessian and counts the evaluation, failed or not.
    pub fn hessian<P, H>(&mut self, param: &P) -> (r: Result<H, Error>) where O: Operator<P, H>
        ensures
            r == old(self).op.spec_hessian(param),
            *final(self) == (OpWrapper {
                hessian_func_count: counted(old(self).hessian_func_count),
                ..*old(self)
            }),
    {
        if self.hessian_func_count < u64::MAX {
            self.hessian_func_count = self.hessian_func_count + 1;
        }
        self.op.hessian(param)
    }
}

} // verus!
