//! Iterative numerical optimization on numbers held as IEEE 754 encodings.
//!
//! The library drives a solving algorithm towards a minimiser of a cost
//! function, keeps the state of the run, and decides when to stop.
//!
//! - [`float`]: double-precision numbers as bit patterns, with verified
//!   classification and comparison.
//! - [`numeric`]: what the solvers ask of the caller's numbers and vectors.
//! - [`dense`]: vectors and matrices of a fixed dimension that offer it.
//! - [`operator`]: the unit that evaluates cost, gradient and Hessian.
//! - [`state`] and [`termination`]: the record handed from step to step,
//!   and the reasons to stop.
//! - [`solver`]: the interface of all algorithms, and the Steihaug
//!   trust-region subproblem solver.
//! - [`executor`]: the loop that runs any solver to its end.
//! - [`gradientdescent`]: gradient descent with a choice of step-size rules.
//! - [`error`]: what can go wrong.
//!
//! No function of the library rounds a number: rounding is the work of the
//! [`numeric::Arithmetic`] that the caller supplies. Every decision that
//! depends on a number (is it below zero, is it finite, which of them is the
//! least) is made here, and verified.

pub mod dense;
pub mod error;
pub mod executor;
pub mod float;
pub mod gradientdescent;
pub mod numeric;
pub mod operator;
pub mod solver;
pub mod state;
pub mod termination;
