//! What every solving algorithm offers, and the algorithms.

use vstd::prelude::*;
use crate::error::Error;
use crate::float::Float;
use crate::operator::OpWrapper;
use crate::state::{IterData, IterState};
use crate::termination::TerminationReason;

pub mod trustregion;

verus! {

/// A solving algorithm, as the executor sees it.
///
/// Each operation must be a function of the solver, the operator and the
/// state: its contract names what it returns and what it leaves behind, and
/// claims nothing else. The executor never asks which algorithm it runs.
pub trait Solver<O, P, H>: Sized {
    spec fn spec_init(self, op: OpWrapper<O>, state: IterState<P, H>) -> (
        Self,
        OpWrapper<O>,
        Result<Option<IterData<P, H>>, Error>,
    );

    spec fn spec_next_iter(self, op: OpWrapper<O>, state: IterState<P, H>) -> (
        Self,
        OpWrapper<O>,
        Result<IterData<P, H>, Error>,
    );

    spec fn spec_terminate(self, state: IterState<P, H>) -> (Self, TerminationReason);

    /// Sets the solver up, once, before the first step. `None` lets the run
    /// go on; a report is merged into the state, and ends the run if it
    /// carries a reason.
    fn init(&mut self, op: &mut OpWrapper<O>, state: &IterState<P, H>) -> (r: Result<
        Option<IterData<P, H>>,
        Error,
    >)
        ensures
            (*final(self), *final(op), r) == old(self).spec_init(*old(op), *state),
    ;

    /// Makes one step and reports what it changed.
    fn next_iter(&mut self, op: &mut OpWrapper<O>, state: &IterState<P, H>) -> (r: Result<
        IterData<P, H>,
        Error,
    >)
        ensures
            (*final(self), *final(op), r) == old(self).spec_next_iter(*old(op), *state),
    ;

    /// Says after a step whether the run is over.
    fn terminate(&mut self, state: &IterState<P, H>) -> (r: TerminationReason)
        ensures
            (*final(self), r) == old(self).spec_terminate(*state),
    ;
}

/// A solver of the trust-region subproblem: the enclosing method sets the
/// radius before each solve.
pub trait TrustRegion {
    spec fn spec_radius(&self) -> Float;

    fn set_radius(&mut self, radius: Float)
        ensures
            final(self).spec_radius() == radius,
    ;
}

} // verus!
