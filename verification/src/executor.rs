//! The engine that drives a solver: one `init`, then step after step until
//! the solver gives a reason to stop or the iteration ceiling is reached.
//!
//! The engine knows nothing of the algorithm. A step asks the solver for a
//! report, merges it into the state, counts the step and keeps the best
//! iterate; then, unless the report itself ended the run, the solver is
//! asked whether to stop. An error from the solver or the operator ends the
//! run at once and is handed to the caller.

use vstd::prelude::*;
use crate::error::Error;
use crate::float::{lemma_lt_strict_order, Float};
use crate::numeric::Duplicate;
use crate::operator::OpWrapper;
use crate::solver::Solver;
use crate::state::IterState;
use crate::termination::TerminationReason;

verus! {

/// What an observer returns when it could not take the state it was shown.
#[derive(Clone, Copy, PartialEq, Eq, Debug)]
pub struct ObserverFailure;

/// A sequence of states, as specifications speak of it.
pub type Shown<P, H> = Seq<IterState<P, H>>;

/// A number of failures, as specifications speak of it.
pub type Tally = nat;

/// A sink that is shown the state after `init` and after every step. What it
/// does with a state, and whether it fails, has no effect on the run; all
/// that is asked of it is that it keeps account of what it was shown and of
/// how often it failed.
pub trait Observer<P, H> {
    /// The states shown so far, first to last.
    spec fn shown(&self) -> Shown<P, H>;

    /// How often `observe` has failed so far.
    spec fn failed(&self) -> Tally;

    fn observe(&mut self, state: &IterState<P, H>) -> (r: Result<(), ObserverFailure>)
        ensures
            final(self).shown() == old(self).shown().push(*state),
            final(self).failed() == old(self).failed() + (if r is Err {
                1nat
            } else {
                0nat
            }),
    ;
}

/// The count `n` as far as the counter can hold it.
pub open spec fn counted_up_to_max(n: int) -> u64 {
    if n <= u64::MAX {
        n as u64
    } else {
        u64::MAX
    }
}

/// The observer that looks at nothing.
pub struct NoObserver<P, H> {
    pub passed: Ghost<Shown<P, H>>,
}

impl<P, H> NoObserver<P, H> {
    pub fn new() -> (observer: Self)
        ensures
            observer.shown() == Seq::<IterState<P, H>>::empty(),
    {
        NoObserver { passed: Ghost(Seq::empty()) }
    }
}

impl<P, H> Observer<P, H> for NoObserver<P, H> {
    open spec fn shown(&self) -> Shown<P, H> {
        self.passed@
    }

    open spec fn failed(&self) -> Tally {
        0
    }

    fn observe(&mut self, state: &IterState<P, H>) -> (r: Result<(), ObserverFailure>)
        ensures
            r is Ok,
    {
        proof {
            self.passed@ = self.passed@.push(*state);
        }
        Ok(())
    }
}

/// A solver, the operator it works on, the state of the run, and the
/// ceiling on the number of steps.
#[derive(Clone, Debug, PartialEq)]
pub struct Executor<S, O, P, H> {
    pub solver: S,
    pub op: OpWrapper<O>,
    pub state: IterState<P, H>,
    /// The run stops once the state has counted this many steps, whatever
    /// the solver says.
    pub max_iters: u64,
}

/// How a run ended.
#[derive(Clone, Debug, PartialEq)]
pub struct OptimizationResult<O, P, H> {
    /// The operator, with the number of evaluations asked of it.
    pub operator: OpWrapper<O>,
    /// The last state: iterate, cost, best iterate, number of steps and the
    /// reason the run stopped.
    pub state: IterState<P, H>,
    /// How many times the observer failed during the run; the count stays
    /// at its largest value once it has reached it.
    pub observer_failures: u64,
}

/// `new` is `old` or below it: a best cost that has not risen.
pub open spec fn not_risen(old: Float, new: Float) -> bool {
    new == old || new.spec_lt(old)
}

impl<S: Solver<O, P, H>, O, P, H> Executor<S, O, P, H> {
    /// The executor after `init`: the solver's report, if it gave one, is
    /// merged into the state and the best iterate brought up to date.
    pub open spec fn initialized(self) -> Result<Self, Error> {
        let (solver, op, r) = self.solver.spec_init(self.op, self.state);
        match r {
            Err(e) => Err(e),
            Ok(None) => Ok(Executor { solver, op, ..self }),
            Ok(Some(data)) => Ok(
                Executor { solver, op, state: self.state.merged(data).with_best(), ..self },
            ),
        }
    }

    /// The executor after one step.
    pub open spec fn stepped(self) -> Result<Self, Error> {
        let (solver, op, r) = self.solver.spec_next_iter(self.op, self.state);
        match r {
            Err(e) => Err(e),
            Ok(data) => {
                let state = self.state.advanced(data);
                if state.termination_reason.spec_terminated() {
                    Ok(Executor { solver, op, state, ..self })
                } else {
                    let (solver, reason) = solver.spec_terminate(state);
                    Ok(
                        Executor {
                            solver,
                            op,
                            state: IterState { termination_reason: reason, ..state },
                            ..self
                        },
                    )
                }
            },
        }
    }

    /// The number of steps the ceiling still allows.
    pub open spec fn steps_left(self) -> nat {
        if self.state.iter < self.max_iters {
            (self.max_iters - self.state.iter) as nat
        } else {
            0
        }
    }

    /// The executor at the end of the loop that starts here, with at most
    /// `budget` steps: a terminated state stays as it is; with no step left
    /// the run ends with `MaxItersReached`; else one step is made and the
    /// loop goes on.
    pub open spec fn iterated(self, budget: nat) -> Result<Self, Error>
        decreases budget,
    {
        if self.state.termination_reason.spec_terminated() {
            Ok(self)
        } else if budget == 0 {
            Ok(
                Executor {
                    state: IterState {
                        termination_reason: TerminationReason::MaxItersReached,
                        ..self.state
                    },
                    ..self
                },
            )
        } else {
            match self.stepped() {
                Err(e) => Err(e),
                Ok(next) => next.iterated((budget - 1) as nat),
            }
        }
    }

    /// The executor at the end of the whole run.
    pub open spec fn spec_run(self) -> Result<Self, Error> {
        match self.initialized() {
            Err(e) => Err(e),
            Ok(ready) => ready.iterated(ready.steps_left()),
        }
    }

    /// The executor after one turn of the loop, with the abort flag as it was
    /// read for this turn. A terminated state stays as it is; at the ceiling
    /// the run ends with `MaxItersReached`; else one step is made, and if it
    /// leaves the run going and the flag is raised, the run is `Aborted`.
    pub open spec fn proceeded(self, raised: bool) -> Result<Self, Error> {
        if self.state.termination_reason.spec_terminated() {
            Ok(self)
        } else if self.state.iter >= self.max_iters {
            Ok(
                Executor {
                    state: IterState {
                        termination_reason: TerminationReason::MaxItersReached,
                        ..self.state
                    },
                    ..self
                },
            )
        } else {
            match self.stepped() {
                Err(e) => Err(e),
                Ok(next) => Ok(
                    Executor {
                        state: IterState {
                            termination_reason: next.state.termination_reason.spec_or_aborted(
                                raised,
                            ),
                            ..next.state
                        },
                        ..next
                    },
                ),
            }
        }
    }

    /// The states that the loop starting here passes through, with at most
    /// `budget` steps: the state after each step that succeeds, in turn.
    pub open spec fn passed(self, budget: nat) -> Shown<P, H>
        decreases budget,
    {
        if self.state.termination_reason.spec_terminated() || budget == 0 {
            Seq::empty()
        } else {
            match self.stepped() {
                Err(e) => Seq::empty(),
                Ok(next) => seq![next.state] + next.passed((budget - 1) as nat),
            }
        }
    }

    /// The trace of the whole run: the state after `init`, then the state
    /// after each step. It is empty if `init` fails.
    pub open spec fn trace(self) -> Shown<P, H> {
        match self.initialized() {
            Err(e) => Seq::empty(),
            Ok(ready) => seq![ready.state] + ready.passed(ready.steps_left()),
        }
    }

    /// Sets the ceiling on the number of steps.
    pub fn max_iters(self, iters: u64) -> (e: Self)
        ensures
            e == (Executor { max_iters: iters, ..self }),
    {
        let mut e = self;
        e.max_iters = iters;
        e
    }

    /// Puts a gradient into the state, for a solver that reads it there.
    pub fn grad(self, grad: P) -> (e: Self)
        ensures
            e == (Executor { state: IterState { grad: Some(grad), ..self.state }, ..self }),
    {
        let Executor { solver, op, state, max_iters } = self;
        Executor { solver, op, state: state.grad(grad), max_iters }
    }

    /// Puts a Hessian into the state, for a solver that reads it there.
    pub fn hessian(self, hessian: H) -> (e: Self)
        ensures
            e == (Executor { state: IterState { hessian: Some(hessian), ..self.state }, ..self }),
    {
        let Executor { solver, op, state, max_iters } = self;
        Executor { solver, op, state: state.hessian(hessian), max_iters }
    }
}

impl<S: Solver<O, P, H>, O, P: Duplicate, H> Executor<S, O, P, H> {
    /// An executor at `init_param`, at step 0, with no ceiling below the
    /// largest count.
    pub fn new(op: O, solver: S, init_param: P) -> (e: Self)
        ensures
            e == (Executor {
                solver,
                op: OpWrapper::spec_new(op),
                state: IterState::<P, H>::spec_new(init_param),
                max_iters: u64::MAX,
            }),
    {
        Executor {
            solver,
            op: OpWrapper::new(op),
            state: IterState::new(init_param),
            max_iters: u64::MAX,
        }
    }

    /// Sets the solver up: calls its `init` and merges what it reports into
    /// the state. On an error the state is as it was.
    pub fn initialize(&mut self) -> (r: Result<(), Error>)
        ensures
            match r {
                Ok(()) => old(self).initialized() == Ok::<Self, Error>(*final(self)),
                Err(e) => old(self).initialized() == Err::<Self, Error>(e),
            },
            r is Ok ==> final(self).state.iter == old(self).state.iter && not_risen(
                old(self).state.best_cost,
                final(self).state.best_cost,
            ),
            r is Err ==> final(self).state == old(self).state,
            final(self).max_iters == old(self).max_iters,
    {
        match self.solver.init(&mut self.op, &self.state) {
            Err(e) => Err(e),
            Ok(None) => Ok(()),
            Ok(Some(data)) => {
                self.state.merge(data);
                self.state.update_best();
                Ok(())
            },
        }
    }

    /// Makes one step: asks the solver, completes the step in the state,
    /// and asks the solver for a reason to stop unless the step gave one.
    ///
    /// The step counts one iteration and does not raise the best cost. On an
    /// error the state is as it was, and the solver and the operator are as
    /// the failed call left them.
    pub fn step(&mut self) -> (r: Result<(), Error>)
        requires
            old(self).state.iter < u64::MAX,
        ensures
            match r {
                Ok(()) => old(self).stepped() == Ok::<Self, Error>(*final(self)),
                Err(e) => old(self).stepped() == Err::<Self, Error>(e),
            },
            r is Ok ==> final(self).state.iter == old(self).state.iter + 1 && not_risen(
                old(self).state.best_cost,
                final(self).state.best_cost,
            ) && final(self).state.wf(),
            r is Err ==> final(self).state == old(self).state,
            final(self).max_iters == old(self).max_iters,
    {
        let data = match self.solver.next_iter(&mut self.op, &self.state) {
            Ok(data) => data,
            Err(e) => {
                return Err(e);
            },
        };
        self.state.advance(data);
        if !self.state.terminated() {
            let reason = self.solver.terminate(&self.state);
            self.state.termination_reason = reason;
        }
        Ok(())
    }

    /// Makes one turn of the loop for a caller that runs the loop itself and
    /// reads an abort flag before each turn: `raised` is what it read.
    ///
    /// Returns whether the run goes on. A run that has ended is left as it
    /// is. At the ceiling the run ends with `MaxItersReached`, whatever the
    /// flag. Otherwise one step is made; a reason to stop that the step or
    /// the solver gave stands, and without one a raised flag ends the run
    /// with `Aborted`.
    pub fn proceed(&mut self, raised: bool) -> (r: Result<bool, Error>)
        ensures
            match r {
                Ok(going) => old(self).proceeded(raised) == Ok::<Self, Error>(*final(self))
                    && going == !final(self).state.termination_reason.spec_terminated(),
                Err(e) => old(self).proceeded(raised) == Err::<Self, Error>(e),
            },
            r matches Ok(going) ==> (going ==> !raised && final(self).state.iter == old(
                self,
            ).state.iter + 1 && final(self).state.iter <= final(self).max_iters),
            r is Ok ==> not_risen(old(self).state.best_cost, final(self).state.best_cost),
            r is Err ==> final(self).state == old(self).state,
            final(self).max_iters == old(self).max_iters,
    {
        if self.state.terminated() {
            return Ok(false);
        }
        if self.state.iter >= self.max_iters {
            self.state.termination_reason = TerminationReason::MaxItersReached;
            return Ok(false);
        }
        match self.step() {
            Err(e) => Err(e),
            Ok(()) => {
                self.state.termination_reason = self.state.termination_reason.or_aborted(raised);
                Ok(!self.state.terminated())
            },
        }
    }

    /// Runs the solver to its end.
    ///
    /// The run ends with a state that carries a reason to stop, or with the
    /// error of the evaluation that failed. It never makes more steps than
    /// the ceiling leaves, and its best cost is never above the one it
    /// started with. The result is a function of the executor alone: the
    /// observer is shown the trace of the run, state by state, and cannot
    /// change any of it.
    pub fn run<B: Observer<P, H>>(self, observer: &mut B) -> (r: Result<
        OptimizationResult<O, P, H>,
        Error,
    >)
        ensures
            match r {
                Ok(res) => self.spec_run() matches Ok(end) && res.operator == end.op && res.state
                    == end.state,
                Err(e) => self.spec_run() == Err::<Self, Error>(e),
            },
            final(observer).shown() == old(observer).shown() + self.trace(),
            r matches Ok(res) ==> {
                &&& res.state.termination_reason.spec_terminated()
                &&& res.state.iter >= self.state.iter
                &&& res.state.iter - self.state.iter <= self.steps_left()
                &&& res.observer_failures == counted_up_to_max(
                    final(observer).failed() - old(observer).failed(),
                )
                &&& res.observer_failures <= res.state.iter - self.state.iter + 1
                &&& not_risen(self.state.best_cost, res.state.best_cost)
            },
    {
        let ghost start = self;
        let ghost seen = observer.shown();
        let ghost failed = observer.failed();
        let mut exec = self;
        let mut failures: u64 = 0;
        match exec.initialize() {
            Err(e) => {
                assert(seen + self.trace() =~= seen);
                return Err(e);
            },
            Ok(()) => {},
        }
        let ghost ready = exec;
        let ghost done = Seq::<IterState<P, H>>::empty();
        if observer.observe(&exec.state).is_err() {
            failures = 1;
        }
        while !exec.state.terminated() && exec.state.iter < exec.max_iters
            invariant
                start == self,
                seen == old(observer).shown(),
                failed == old(observer).failed(),
                failures == counted_up_to_max(observer.failed() - failed),
                observer.failed() >= failed,
                observer.shown() == (seen + seq![ready.state]) + done,
                ready.passed(ready.steps_left()) == done + exec.passed(exec.steps_left()),
                start.initialized() == Ok::<Self, Error>(ready),
                exec.max_iters == ready.max_iters,
                exec.state.iter >= ready.state.iter,
                exec.state.iter - ready.state.iter <= ready.steps_left(),
                failures <= exec.state.iter - ready.state.iter + 1,
                not_risen(ready.state.best_cost, exec.state.best_cost),
                ready.iterated(ready.steps_left()) == exec.iterated(exec.steps_left()),
            decreases exec.max_iters - exec.state.iter,
        {
            let ghost before = exec;
            proof {
                lemma_step_keeps_best(before);
                assert(before.steps_left() > 0);
                assert(before.iterated(before.steps_left()) == match before.stepped() {
                    Err(e) => Err(e),
                    Ok(next) => next.iterated((before.steps_left() - 1) as nat),
                });
            }
            match exec.step() {
                Err(e) => {
                    proof {
                        assert(before.passed(before.steps_left()) =~= Seq::empty());
                        assert(seen + self.trace() =~= (seen + seq![ready.state]) + done);
                    }
                    return Err(e);
                },
                Ok(()) => {},
            }
            if observer.observe(&exec.state).is_err() && failures < u64::MAX {
                failures = failures + 1;
            }
            proof {
                assert(before.passed(before.steps_left()) == seq![exec.state] + exec.passed(
                    exec.steps_left(),
                ));
                assert(done + (seq![exec.state] + exec.passed(exec.steps_left())) =~= done.push(
                    exec.state,
                ) + exec.passed(exec.steps_left()));
                assert(((seen + seq![ready.state]) + done).push(exec.state) =~= (seen
                    + seq![ready.state]) + done.push(exec.state));
                done = done.push(exec.state);
            }
        }
        proof {
            assert(exec.passed(exec.steps_left()) =~= Seq::empty());
            assert(seen + self.trace() =~= (seen + seq![ready.state]) + done);
            assert(exec.iterated(exec.steps_left()) == Ok::<Self, Error>(
                if exec.state.termination_reason.spec_terminated() {
                    exec
                } else {
                    Executor {
                        state: IterState {
                            termination_reason: TerminationReason::MaxItersReached,
                            ..exec.state
                        },
                        ..exec
                    }
                },
            ));
        }
        if !exec.state.terminated() {
            exec.state.termination_reason = TerminationReason::MaxItersReached;
        }
        Ok(OptimizationResult { operator: exec.op, state: exec.state, observer_failures: failures })
    }
}

/// One step counts one iteration and does not raise the best cost.
pub proof fn lemma_step_keeps_best<S: Solver<O, P, H>, O, P, H>(e: Executor<S, O, P, H>)
    requires
        e.state.iter < u64::MAX,
    ensures
        e.stepped() matches Ok(next) ==> {
            &&& next.max_iters == e.max_iters
            &&& next.state.iter == e.state.iter + 1
            &&& not_risen(e.state.best_cost, next.state.best_cost)
            &&& next.state.wf()
        },
{
}

/// Monotonicity: over any number of steps, with any solver, the best cost
/// of the state does not rise.
pub proof fn lemma_best_cost_never_rises<S: Solver<O, P, H>, O, P, H>(
    e: Executor<S, O, P, H>,
    budget: nat,
)
    requires
        budget <= e.steps_left(),
    ensures
        e.iterated(budget) matches Ok(end) ==> not_risen(e.state.best_cost, end.state.best_cost),
    decreases budget,
{
    if !e.state.termination_reason.spec_terminated() && budget > 0 {
        lemma_step_keeps_best(e);
        if let Ok(next) = e.stepped() {
            lemma_best_cost_never_rises(next, (budget - 1) as nat);
            if let Ok(end) = next.iterated((budget - 1) as nat) {
                lemma_lt_strict_order(
                    end.state.best_cost,
                    next.state.best_cost,
                    e.state.best_cost,
                );
            }
        }
    }
}

/// A caller that runs the loop itself, turn by turn, and never finds the
/// flag raised ends where `run` ends.
pub proof fn lemma_proceeding_is_running<S: Solver<O, P, H>, O, P, H>(e: Executor<S, O, P, H>)
    ensures
        e.iterated(e.steps_left()) == match e.proceeded(false) {
            Err(err) => Err(err),
            Ok(next) => next.iterated(next.steps_left()),
        },
{
    if !e.state.termination_reason.spec_terminated() && e.state.iter < e.max_iters {
        lemma_step_keeps_best(e);
        if let Ok(next) = e.proceeded(false) {
            assert(e.stepped() == Ok::<Executor<S, O, P, H>, Error>(next));
        }
    }
}

/// A raised flag ends the run at the turn it is read for, unless that turn
/// fails: the state after the turn carries a reason to stop.
pub proof fn lemma_raised_flag_ends_the_run<S: Solver<O, P, H>, O, P, H>(e: Executor<S, O, P, H>)
    ensures
        e.proceeded(true) matches Ok(next) ==> next.state.termination_reason.spec_terminated(),
{
}

/// Liveness: whatever the solver does, the loop ends in a terminated state
/// after at most `budget` steps, and so within the ceiling.
pub proof fn lemma_stops_within_ceiling<S: Solver<O, P, H>, O, P, H>(
    e: Executor<S, O, P, H>,
    budget: nat,
)
    requires
        budget <= e.steps_left(),
    ensures
        e.iterated(budget) matches Ok(end) ==> {
            &&& end.state.termination_reason.spec_terminated()
            &&& end.max_iters == e.max_iters
            &&& e.state.iter <= end.state.iter <= e.state.iter + budget
            &&& (end.state.iter > e.state.iter ==> end.state.iter <= e.max_iters)
        },
    decreases budget,
{
    if !e.state.termination_reason.spec_terminated() && budget > 0 {
        lemma_step_keeps_best(e);
        if let Ok(next) = e.stepped() {
            lemma_stops_within_ceiling(next, (budget - 1) as nat);
        }
    }
}

/// Determinism: two runs from the same solver, operator, state and ceiling
/// end the same way and leave the same trace, step by step.
pub proof fn lemma_run_is_deterministic<S: Solver<O, P, H>, O, P, H>(
    first: Executor<S, O, P, H>,
    second: Executor<S, O, P, H>,
    steps: nat,
)
    requires
        first == second,
    ensures
        first.initialized() == second.initialized(),
        first.stepped() == second.stepped(),
        first.iterated(steps) == second.iterated(steps),
        first.spec_run() == second.spec_run(),
        first.trace() == second.trace(),
{
}

} // verus!
