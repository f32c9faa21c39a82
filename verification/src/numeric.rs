//! The numeric capability set: what the solvers ask of the caller's numbers.
//!
//! The library decides; it does not round. Scalar arithmetic and the vector
//! operations of a parameter type are supplied by the caller through the
//! traits below. Each operation must be a function of its arguments alone:
//! its contract names the result by a spec function of the same trait and
//! claims nothing else. What the solvers prove is proved from these names, so
//! it holds for an implementation exactly as far as that implementation
//! returns the same encoding for the same arguments (an implementation on
//! hardware numbers returns one fixed NaN wherever the result is a NaN).
//!
//! In compiled code the `spec_` functions are never called. An
//! implementation that is written as ordinary Rust gives each of them the
//! body of the operation it names.

use vstd::prelude::*;
use crate::float::Float;

verus! {

/// Rounded arithmetic on encoded numbers.
pub trait Arithmetic {
    spec fn spec_sum(a: Float, b: Float) -> Float;

    spec fn spec_difference(a: Float, b: Float) -> Float;

    spec fn spec_product(a: Float, b: Float) -> Float;

    spec fn spec_quotient(a: Float, b: Float) -> Float;

    spec fn spec_square_root(a: Float) -> Float;

    /// `a + b`
    fn sum(a: Float, b: Float) -> (r: Float)
        ensures
            r == Self::spec_sum(a, b),
    ;

    /// `a - b`
    fn difference(a: Float, b: Float) -> (r: Float)
        ensures
            r == Self::spec_difference(a, b),
    ;

    /// `a * b`
    fn product(a: Float, b: Float) -> (r: Float)
        ensures
            r == Self::spec_product(a, b),
    ;

    /// `a / b`
    fn quotient(a: Float, b: Float) -> (r: Float)
        ensures
            r == Self::spec_quotient(a, b),
    ;

    /// The square root of `a`.
    fn square_root(a: Float) -> (r: Float)
        ensures
            r == Self::spec_square_root(a),
    ;
}

/// A value that can be copied out of a shared reference, exactly.
pub trait Duplicate: Sized {
    fn duplicate(&self) -> (r: Self)
        ensures
            r == *self,
    ;
}

impl Duplicate for Float {
    fn duplicate(&self) -> (r: Float) {
        *self
    }
}

/// A Hessian-like weight on parameters of type `P`.
pub trait Hessian<P>: Duplicate {
    spec fn spec_apply(&self, v: &P) -> P;

    spec fn spec_weighted_dot(&self, left: &P, right: &P) -> Float;

    /// The product of the weight with `v`.
    fn apply(&self, v: &P) -> (r: P)
        ensures
            r == self.spec_apply(v),
    ;

    /// The quadratic form `left` · weight · `right`.
    fn weighted_dot(&self, left: &P, right: &P) -> (r: Float)
        ensures
            r == self.spec_weighted_dot(left, right),
    ;
}

/// A point of the search space, with the operations the solvers use on it.
pub trait Parameter: Duplicate {
    spec fn spec_empty() -> Self;

    spec fn spec_zero_like(&self) -> Self;

    spec fn spec_dot(&self, other: &Self) -> Float;

    spec fn spec_norm(&self) -> Float;

    spec fn spec_scaled(&self, factor: Float) -> Self;

    spec fn spec_plus(&self, other: &Self) -> Self;

    /// The value a solver holds before it has been given anything.
    fn empty() -> (r: Self)
        ensures
            r == Self::spec_empty(),
    ;

    /// A parameter of the shape of `self` with every entry zero.
    fn zero_like(&self) -> (r: Self)
        ensures
            r == self.spec_zero_like(),
    ;

    /// The inner product with `other`.
    fn dot(&self, other: &Self) -> (r: Float)
        ensures
            r == self.spec_dot(other),
    ;

    /// The Euclidean norm.
    fn norm(&self) -> (r: Float)
        ensures
            r == self.spec_norm(),
    ;

    /// Every entry multiplied by `factor`.
    fn scaled(&self, factor: Float) -> (r: Self)
        ensures
            r == self.spec_scaled(factor),
    ;

    /// The entrywise sum with `other`.
    fn plus(&self, other: &Self) -> (r: Self)
        ensures
            r == self.spec_plus(other),
    ;
}

} // verus!
