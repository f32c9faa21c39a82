//! The record that is handed from one solver step to the next.

use vstd::prelude::*;
use crate::float::Float;
use crate::numeric::Duplicate;
use crate::termination::TerminationReason;

verus! {

/// What one solver step reports: each field is either given or left as it
/// was.
#[derive(Clone, Debug, PartialEq)]
pub struct IterData<P, H> {
    pub param: Option<P>,
    pub cost: Option<Float>,
    pub grad: Option<P>,
    pub hessian: Option<H>,
    pub termination_reason: Option<TerminationReason>,
}

impl<P, H> IterData<P, H> {
    /// A report that gives nothing.
    pub open spec fn spec_new() -> Self {
        IterData { param: None, cost: None, grad: None, hessian: None, termination_reason: None }
    }

    pub fn new() -> (data: Self)
        ensures
            data == Self::spec_new(),
    {
        IterData { param: None, cost: None, grad: None, hessian: None, termination_reason: None }
    }

    pub fn param(self, param: P) -> (data: Self)
        ensures
            data == (IterData { param: Some(param), ..self }),
    {
        let mut data = self;
        data.param = Some(param);
        data
    }

    pub fn cost(self, cost: Float) -> (data: Self)
        ensures
            data == (IterData { cost: Some(cost), ..self }),
    {
        let mut data = self;
        data.cost = Some(cost);
        data
    }

    pub fn grad(self, grad: P) -> (data: Self)
        ensures
            data == (IterData { grad: Some(grad), ..self }),
    {
        let mut data = self;
        data.grad = Some(grad);
        data
    }

    pub fn hessian(self, hessian: H) -> (data: Self)
        ensures
            data == (IterData { hessian: Some(hessian), ..self }),
    {
        let mut data = self;
        data.hessian = Some(hessian);
        data
    }

    pub fn termination_reason(self, reason: TerminationReason) -> (data: Self)
        ensures
            data == (IterData { termination_reason: Some(reason), ..self }),
    {
        let mut data = self;
        data.termination_reason = Some(reason);
        data
    }
}

/// The state of a run between two steps.
#[derive(Clone, Debug, PartialEq)]
pub struct IterState<P, H> {
    /// The current iterate.
    pub param: P,
    /// The iterate before the most recent one that a step gave.
    pub prev_param: P,
    /// The best iterate so far.
    pub best_param: P,
    /// The cost at `param`; positive infinity until a step gives one.
    pub cost: Float,
    /// The cost before the most recent one that a step gave.
    pub prev_cost: Float,
    /// The lowest cost so far.
    pub best_cost: Float,
    pub grad: Option<P>,
    pub hessian: Option<H>,
    /// The number of completed steps.
    pub iter: u64,
    pub termination_reason: TerminationReason,
}

impl<P, H> IterState<P, H> {
    /// The current cost is not below the best one: among numbers, `best_cost
    /// <= cost`.
    pub open spec fn wf(self) -> bool {
        !self.cost.spec_lt(self.best_cost)
    }

    /// The state before the first step at `param`.
    pub open spec fn spec_new(param: P) -> Self {
        IterState {
            param,
            prev_param: param,
            best_param: param,
            cost: Float::spec_infinity(),
            prev_cost: Float::spec_infinity(),
            best_cost: Float::spec_infinity(),
            grad: None,
            hessian: None,
            iter: 0,
            termination_reason: TerminationReason::NotTerminated,
        }
    }

    /// The state with what `data` gives put in place of what was there. A
    /// new parameter or cost moves the one it replaces to `prev_param` or
    /// `prev_cost`.
    pub open spec fn merged(self, data: IterData<P, H>) -> Self {
        IterState {
            param: match data.param {
                Some(p) => p,
                None => self.param,
            },
            prev_param: if data.param is Some {
                self.param
            } else {
                self.prev_param
            },
            best_param: self.best_param,
            cost: match data.cost {
                Some(c) => c,
                None => self.cost,
            },
            prev_cost: if data.cost is Some {
                self.cost
            } else {
                self.prev_cost
            },
            best_cost: self.best_cost,
            grad: if data.grad is Some {
                data.grad
            } else {
                self.grad
            },
            hessian: if data.hessian is Some {
                data.hessian
            } else {
                self.hessian
            },
            iter: self.iter,
            termination_reason: match data.termination_reason {
                Some(reason) => reason,
                None => self.termination_reason,
            },
        }
    }

    /// The state with the current iterate taken as the best one if its cost
    /// is below the best so far.
    pub open spec fn with_best(self) -> Self {
        if self.cost.spec_lt(self.best_cost) {
            IterState { best_param: self.param, best_cost: self.cost, ..self }
        } else {
            self
        }
    }

    /// The state after one completed step that reported `data`.
    pub open spec fn advanced(self, data: IterData<P, H>) -> Self {
        let merged = self.merged(data);
        (IterState { iter: (merged.iter + 1) as u64, ..merged }).with_best()
    }

    pub fn grad(self, grad: P) -> (state: Self)
        ensures
            state == (IterState { grad: Some(grad), ..self }),
    {
        let mut state = self;
        state.grad = Some(grad);
        state
    }

    pub fn hessian(self, hessian: H) -> (state: Self)
        ensures
            state == (IterState { hessian: Some(hessian), ..self }),
    {
        let mut state = self;
        state.hessian = Some(hessian);
        state
    }

    pub fn get_iter(&self) -> (iter: u64)
        ensures
            iter == self.iter,
    {
        self.iter
    }

    pub fn terminated(&self) -> (b: bool)
        ensures
            b == self.termination_reason.spec_terminated(),
    {
        self.termination_reason.terminated()
    }

    pub fn merge(&mut self, data: IterData<P, H>)
        ensures
            *final(self) == old(self).merged(data),
    {
        let IterData { param, cost, grad, hessian, termination_reason } = data;
        match param {
            Some(p) => {
                core::mem::swap(&mut self.prev_param, &mut self.param);
                self.param = p;
            },
            None => {},
        }
        match cost {
            Some(c) => {
                self.prev_cost = self.cost;
                self.cost = c;
            },
            None => {},
        }
        match grad {
            Some(g) => {
                self.grad = Some(g);
            },
            None => {},
        }
        match hessian {
            Some(h) => {
                self.hessian = Some(h);
            },
            None => {},
        }
        match termination_reason {
            Some(reason) => {
                self.termination_reason = reason;
            },
            None => {},
        }
    }
}

impl<P: Duplicate, H> IterState<P, H> {
    pub fn new(param: P) -> (state: Self)
        ensures
            state == Self::spec_new(param),
            state.wf(),
    {
        let prev_param = param.duplicate();
        let best_param = param.duplicate();
        IterState {
            param,
            prev_param,
            best_param,
            cost: Float::infinity(),
            prev_cost: Float::infinity(),
            best_cost: Float::infinity(),
            grad: None,
            hessian: None,
            iter: 0,
            termination_reason: TerminationReason::NotTerminated,
        }
    }

    /// Takes the current iterate as the best one if its cost is below the
    /// best so far.
    pub fn update_best(&mut self)
        ensures
            *final(self) == old(self).with_best(),
            final(self).wf(),
    {
        if self.cost.lt(self.best_cost) {
            self.best_param = self.param.duplicate();
            self.best_cost = self.cost;
        }
    }

    /// Completes one step: merges `data`, counts the step, and keeps track of
    /// the best iterate. The best cost never rises.
    pub fn advance(&mut self, data: IterData<P, H>)
        requires
            old(self).iter < u64::MAX,
        ensures
            *final(self) == old(self).advanced(data),
            final(self).wf(),
            final(self).iter == old(self).iter + 1,
            final(self).best_cost == old(self).best_cost || final(self).best_cost.spec_lt(
                old(self).best_cost,
            ),
            !old(self).best_cost.spec_lt(final(self).best_cost),
    {
        self.merge(data);
        self.iter = self.iter + 1;
        self.update_best();
    }
}

} // verus!
