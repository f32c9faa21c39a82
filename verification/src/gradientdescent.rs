//! Gradient descent on vectors of numbers, with a choice of rules for the
//! step size `gamma`.

use vstd::prelude::*;
use vstd::slice::slice_to_vec;
use crate::error::Error;
use crate::float::Float;
use crate::numeric::Arithmetic;

verus! {

/// The encoding of `0.0001`, the first step size where none is given.
pub const FIRST_GAMMA_BITS: u64 = 0x3f1a_36e2_eb1c_432d;

/// The encoding of `0.00000001`, the precision a new descent starts with.
pub const DEFAULT_PRECISION_BITS: u64 = 0x3e45_798e_e230_8c3a;

/// The entries of a vector, as specifications speak of them.
pub type Entries = Seq<Float>;

/// The function to minimise and its gradient. Each evaluation may fail, and
/// each must be a function of the parameter alone: its contract names the
/// result and claims nothing else.
pub trait Problem {
    spec fn spec_cost(&self, param: Seq<Float>) -> Result<Float, Error>;

    spec fn spec_gradient(&self, param: Seq<Float>) -> Result<Seq<Float>, Error>;

    /// The cost at `param`.
    fn cost(&self, param: &Vec<Float>) -> (r: Result<Float, Error>)
        ensures
            r == self.spec_cost(param@),
    ;

    /// The gradient at `param`.
    fn gradient(&self, param: &Vec<Float>) -> (r: Result<Vec<Float>, Error>)
        ensures
            match r {
                Ok(g) => self.spec_gradient(param@) == Ok::<Seq<Float>, Error>(g@),
                Err(e) => self.spec_gradient(param@) == Err::<Seq<Float>, Error>(e),
            },
    ;
}

/// A line search: given a direction and a point, a step length along the
/// direction. It must be a function of the two.
pub trait LineSearch {
    spec fn spec_step_length(&self, direction: Seq<Float>, param: Seq<Float>) -> Result<
        Float,
        Error,
    >;

    fn step_length(&self, direction: &Vec<Float>, param: &[Float]) -> (r: Result<Float, Error>)
        ensures
            r == self.spec_step_length(direction@, param@),
    ;
}

/// The line search of a descent that has none: it gives no step length.
#[derive(Clone, Copy, Debug, PartialEq, Eq)]
pub struct NoLineSearch;

/// The error of the line search that is not there.
pub open spec fn no_line_search() -> Error {
    Error::InvalidParameter { text: "GradientDescent: no line search was given." }
}

impl LineSearch for NoLineSearch {
    open spec fn spec_step_length(&self, direction: Seq<Float>, param: Seq<Float>) -> Result<
        Float,
        Error,
    > {
        Err(no_line_search())
    }

    fn step_length(&self, direction: &Vec<Float>, param: &[Float]) -> (r: Result<Float, Error>) {
        Err(Error::InvalidParameter { text: "GradientDescent: no line search was given." })
    }
}

/// How the step size is chosen after each move.
#[derive(Clone, Debug, PartialEq)]
pub enum GDGammaUpdate<L> {
    /// Always the same.
    Constant(Float),
    /// The Barzilai–Borwein rule: with `Δx` the last move and `Δg` the change
    /// of the gradient over it, `Δx·Δg / Δg·Δg`.
    BarzilaiBorwein,
    /// The step length that a line search along the negative gradient gives.
    BacktrackingLineSearch(L),
}

/// Gradient descent: the rule for the step size, the bound on the number of
/// moves, and the length of a move below which the descent stops.
#[derive(Clone, Debug, PartialEq)]
pub struct GradientDescent<L> {
    pub gamma: GDGammaUpdate<L>,
    pub max_iters: u64,
    pub precision: Float,
}

/// Where a descent ended.
#[derive(Clone, Debug, PartialEq)]
pub struct DescentResult {
    pub param: Vec<Float>,
    /// The cost at `param`.
    pub cost: Float,
    /// The number of moves made.
    pub iters: u64,
}

/// One move: from every entry of `param`, `gamma` times the entry of `grad`
/// is taken away.
pub open spec fn descended<A: Arithmetic>(param: Seq<Float>, grad: Seq<Float>, gamma: Float) -> Seq<
    Float,
> {
    Seq::new(param.len(), |i: int| A::spec_difference(param[i], A::spec_product(grad[i], gamma)))
}

/// Every entry with its sign flipped.
pub open spec fn negated(v: Seq<Float>) -> Seq<Float> {
    Seq::new(v.len(), |i: int| v[i].spec_neg())
}

/// `Δx·Δg` over the first `n` entries, summed from the first on, from zero.
pub open spec fn bb_top<A: Arithmetic>(
    cur_param: Seq<Float>,
    prev_param: Seq<Float>,
    cur_grad: Seq<Float>,
    prev_grad: Seq<Float>,
    n: nat,
) -> Float
    decreases n,
{
    if n == 0 {
        Float::spec_zero()
    } else {
        let k = (n - 1) as nat;
        A::spec_sum(
            bb_top::<A>(cur_param, prev_param, cur_grad, prev_grad, k),
            A::spec_product(
                A::spec_difference(cur_param[k as int], prev_param[k as int]),
                A::spec_difference(cur_grad[k as int], prev_grad[k as int]),
            ),
        )
    }
}

/// `Δg·Δg` over the first `n` entries, summed from the first on, from zero.
pub open spec fn bb_bottom<A: Arithmetic>(cur_grad: Seq<Float>, prev_grad: Seq<Float>, n: nat) -> Float
    decreases n,
{
    if n == 0 {
        Float::spec_zero()
    } else {
        let k = (n - 1) as nat;
        let diff = A::spec_difference(cur_grad[k as int], prev_grad[k as int]);
        A::spec_sum(bb_bottom::<A>(cur_grad, prev_grad, k), A::spec_product(diff, diff))
    }
}

/// The Barzilai–Borwein step size.
pub open spec fn barzilai_borwein<A: Arithmetic>(
    cur_param: Seq<Float>,
    prev_param: Seq<Float>,
    cur_grad: Seq<Float>,
    prev_grad: Seq<Float>,
) -> Float {
    A::spec_quotient(
        bb_top::<A>(cur_param, prev_param, cur_grad, prev_grad, cur_grad.len()),
        bb_bottom::<A>(cur_grad, prev_grad, cur_grad.len()),
    )
}

/// The length of the move from `prev` to `param`, measured in the first two
/// coordinates.
pub open spec fn step_size<A: Arithmetic>(param: Seq<Float>, prev: Seq<Float>) -> Float {
    let dx = A::spec_difference(param[0], prev[0]);
    let dy = A::spec_difference(param[1], prev[1]);
    A::spec_square_root(A::spec_sum(A::spec_product(dx, dx), A::spec_product(dy, dy)))
}

/// The error for a gradient that cannot be used: one with fewer entries than
/// the parameter, or, under the Barzilai–Borwein rule, one with more entries
/// than a vector it is set against.
pub open spec fn wrong_dimension() -> Error {
    Error::OperatorEvaluationError { text: "GradientDescent: gradient of the wrong length." }
}

/// The Barzilai–Borwein rule can be applied: every entry of the current
/// gradient has an entry of the other three vectors beside it.
pub open spec fn barzilai_borwein_applies(
    cur_param: Seq<Float>,
    prev_param: Seq<Float>,
    cur_grad: Seq<Float>,
    prev_grad: Seq<Float>,
) -> bool {
    &&& cur_grad.len() <= cur_param.len()
    &&& cur_grad.len() <= prev_param.len()
    &&& cur_grad.len() <= prev_grad.len()
}

impl<L: LineSearch> GradientDescent<L> {
    /// The step size for the next move: the constant; or the
    /// Barzilai–Borwein step size over the entries of the current gradient,
    /// where the rule can be applied, and an error where it cannot; or what
    /// the line search gives for the negated gradient, all of it, and the
    /// current point.
    pub open spec fn spec_update_gamma<A: Arithmetic>(
        self,
        cur_param: Seq<Float>,
        prev_param: Seq<Float>,
        cur_grad: Seq<Float>,
        prev_grad: Seq<Float>,
    ) -> Result<Float, Error> {
        match self.gamma {
            GDGammaUpdate::Constant(g) => Ok(g),
            GDGammaUpdate::BarzilaiBorwein => if barzilai_borwein_applies(
                cur_param,
                prev_param,
                cur_grad,
                prev_grad,
            ) {
                Ok(barzilai_borwein::<A>(cur_param, prev_param, cur_grad, prev_grad))
            } else {
                Err(wrong_dimension())
            },
            GDGammaUpdate::BacktrackingLineSearch(search) => search.spec_step_length(
                negated(cur_grad),
                cur_param,
            ),
        }
    }

    /// The step size of the first move.
    pub open spec fn first_gamma(self) -> Float {
        match self.gamma {
            GDGammaUpdate::Constant(g) => g,
            _ => Float { bits: FIRST_GAMMA_BITS },
        }
    }

    /// The descent from `param` with gradient `grad` and step size `gamma`,
    /// after `idx` moves: the point where it ends and the number of moves
    /// made.
    ///
    /// A move is made first; it reads as many entries of the gradient as
    /// the parameter has. The descent ends there if the moves have reached
    /// the bound or the move was shorter than the precision. Else the
    /// gradient is evaluated at the new point, the step size is brought up
    /// to date, and the descent goes on from there. A gradient with fewer
    /// entries than the parameter is an error; one with more is used.
    pub open spec fn descent<A: Arithmetic, Q: Problem>(
        self,
        problem: Q,
        param: Seq<Float>,
        grad: Seq<Float>,
        gamma: Float,
        idx: nat,
    ) -> Result<(Seq<Float>, nat), Error>
        decreases self.max_iters - idx,
    {
        let next = descended::<A>(param, grad, gamma);
        let count = idx + 1;
        if count >= self.max_iters || step_size::<A>(next, param).spec_lt(self.precision) {
            Ok((next, count))
        } else {
            match problem.spec_gradient(next) {
                Err(e) => Err(e),
                Ok(g) => if g.len() < next.len() {
                    Err(wrong_dimension())
                } else {
                    match self.spec_update_gamma::<A>(next, param, g, grad) {
                        Err(e) => Err(e),
                        Ok(gamma) => self.descent::<A, Q>(problem, next, g, gamma, count),
                    }
                },
            }
        }
    }

    /// The whole run from `init_param`: the gradient there, the descent, and
    /// the cost where it ends. The first error met ends the run.
    pub open spec fn spec_run<A: Arithmetic, Q: Problem>(self, problem: Q, init_param: Seq<Float>) -> Result<
        (Seq<Float>, Float, nat),
        Error,
    > {
        match problem.spec_gradient(init_param) {
            Err(e) => Err(e),
            Ok(g) => if g.len() < init_param.len() {
                Err(wrong_dimension())
            } else {
                match self.descent::<A, Q>(problem, init_param, g, self.first_gamma(), 0) {
                    Err(e) => Err(e),
                    Ok((param, iters)) => match problem.spec_cost(param) {
                        Err(e) => Err(e),
                        Ok(cost) => Ok((param, cost, iters)),
                    },
                }
            },
        }
    }

    /// A descent with the Barzilai–Borwein rule, no bound on the moves, and
    /// the precision `0.00000001`.
    pub fn new() -> (gd: Self)
        ensures
            gd.gamma == GDGammaUpdate::<L>::BarzilaiBorwein,
            gd.max_iters == u64::MAX,
            gd.precision == (Float { bits: DEFAULT_PRECISION_BITS }),
    {
        GradientDescent {
            gamma: GDGammaUpdate::BarzilaiBorwein,
            max_iters: u64::MAX,
            precision: Float::from_bits(DEFAULT_PRECISION_BITS),
        }
    }

    /// Sets the rule for the step size.
    pub fn gamma_update(&mut self, gamma_update_method: GDGammaUpdate<L>) -> (r: &mut Self)
        ensures
            *r == (GradientDescent { gamma: gamma_update_method, ..*old(self) }),
            *final(self) == *final(r),
    {
        self.gamma = gamma_update_method;
        self
    }

    /// Sets the bound on the number of moves.
    pub fn max_iters(&mut self, max_iters: u64) -> (r: &mut Self)
        ensures
            *r == (GradientDescent { max_iters, ..*old(self) }),
            *final(self) == *final(r),
    {
        self.max_iters = max_iters;
        self
    }

    /// Sets the length of a move below which the descent stops.
    pub fn precision(&mut self, precision: Float) -> (r: &mut Self)
        ensures
            *r == (GradientDescent { precision, ..*old(self) }),
            *final(self) == *final(r),
    {
        self.precision = precision;
        self
    }

    /// Computes the step size for the next move from the last two points and
    /// their gradients.
    ///
    /// The lengths of the four vectors matter to the Barzilai–Borwein rule
    /// alone, which refuses a current gradient that is longer than one of
    /// the other three.
    pub fn update_gamma<A: Arithmetic>(
        &self,
        cur_param: &[Float],
        prev_param: &[Float],
        cur_grad: &[Float],
        prev_grad: &[Float],
    ) -> (r: Result<Float, Error>)
        ensures
            r == self.spec_update_gamma::<A>(cur_param@, prev_param@, cur_grad@, prev_grad@),
            self.gamma is Constant ==> r is Ok,
            self.gamma is BarzilaiBorwein ==> (r is Ok <==> barzilai_borwein_applies(
                cur_param@,
                prev_param@,
                cur_grad@,
                prev_grad@,
            )),
    {
        match &self.gamma {
            GDGammaUpdate::Constant(g) => Ok(*g),
            GDGammaUpdate::BarzilaiBorwein => {
                if cur_grad.len() > cur_param.len() || cur_grad.len() > prev_param.len()
                    || cur_grad.len() > prev_grad.len() {
                    return Err(
                        Error::OperatorEvaluationError {
                            text: "GradientDescent: gradient of the wrong length.",
                        },
                    );
                }
                let mut top = Float::zero();
                let mut bottom = Float::zero();
                let mut idx: usize = 0;
                while idx < cur_grad.len()
                    invariant
                        idx <= cur_grad.len(),
                        cur_grad.len() <= cur_param.len(),
                        cur_grad.len() <= prev_param.len(),
                        cur_grad.len() <= prev_grad.len(),
                        top == bb_top::<A>(
                            cur_param@,
                            prev_param@,
                            cur_grad@,
                            prev_grad@,
                            idx as nat,
                        ),
                        bottom == bb_bottom::<A>(cur_grad@, prev_grad@, idx as nat),
                    decreases cur_grad.len() - idx,
                {
                    let grad_diff = A::difference(cur_grad[idx], prev_grad[idx]);
                    top = A::sum(
                        top,
                        A::product(A::difference(cur_param[idx], prev_param[idx]), grad_diff),
                    );
                    bottom = A::sum(bottom, A::product(grad_diff, grad_diff));
                    idx = idx + 1;
                }
                Ok(A::quotient(top, bottom))
            },
            GDGammaUpdate::BacktrackingLineSearch(search) => {
                let direction = negate(cur_grad);
                search.step_length(&direction, cur_param)
            },
        }
    }

    /// Runs the descent from `init_param`. Moves are measured in the first
    /// two coordinates, so the parameter has at least two, unless the bound
    /// on the moves ends the descent after the first.
    ///
    /// Returns the point where the descent ended, the cost there, and the
    /// number of moves; or the error of the first evaluation or line search
    /// that failed, or of a gradient of the wrong length. At least one move
    /// is made and never more than `max_iters` (one, where that is zero).
    pub fn run<A: Arithmetic, Q: Problem>(&self, problem: &Q, init_param: &[Float]) -> (r: Result<
        DescentResult,
        Error,
    >)
        requires
            init_param.len() >= 2 || self.max_iters <= 1,
        ensures
            match r {
                Ok(res) => self.spec_run::<A, Q>(*problem, init_param@) == Ok::<
                    (Seq<Float>, Float, nat),
                    Error,
                >((res.param@, res.cost, res.iters as nat)),
                Err(e) => self.spec_run::<A, Q>(*problem, init_param@) == Err::<
                    (Seq<Float>, Float, nat),
                    Error,
                >(e),
            },
            r matches Ok(res) ==> res.param.len() == init_param.len() && 1 <= res.iters && (
            res.iters <= self.max_iters || res.iters == 1),
    {
        let mut idx: u64 = 0;
        let mut param = slice_to_vec(init_param);
        let mut cur_grad = match problem.gradient(&param) {
            Ok(g) => g,
            Err(e) => {
                return Err(e);
            },
        };
        if cur_grad.len() < param.len() {
            return Err(
                Error::OperatorEvaluationError {
                    text: "GradientDescent: gradient of the wrong length.",
                },
            );
        }
        let mut gamma = match self.gamma {
            GDGammaUpdate::Constant(g) => g,
            _ => Float::from_bits(FIRST_GAMMA_BITS),
        };
        let ghost first_grad = cur_grad@;
        let ghost whole = self.descent::<A, Q>(*problem, param@, cur_grad@, gamma, 0);
        loop
            invariant_except_break
                idx < self.max_iters || idx == 0,
                cur_grad.len() >= param.len(),
                whole == self.descent::<A, Q>(*problem, param@, cur_grad@, gamma, idx as nat),
            invariant
                param.len() == init_param.len(),
                init_param.len() >= 2 || self.max_iters <= 1,
                problem.spec_gradient(init_param@) == Ok::<Seq<Float>, Error>(first_grad),
                first_grad.len() >= init_param.len(),
                whole == self.descent::<A, Q>(
                    *problem,
                    init_param@,
                    first_grad,
                    self.first_gamma(),
                    0,
                ),
            ensures
                whole == Ok::<(Seq<Float>, nat), Error>((param@, idx as nat)),
                1 <= idx,
                idx <= self.max_iters || idx == 1,
            decreases self.max_iters - idx,
        {
            let prev_param = param;
            let prev_grad = cur_grad;
            param = descend::<A>(&prev_param, &prev_grad, gamma);
            idx = idx + 1;
            if idx >= self.max_iters {
                break ;
            }
            let dx = A::difference(param[0], prev_param[0]);
            let dy = A::difference(param[1], prev_param[1]);
            let prev_step_size = A::square_root(A::sum(A::product(dx, dx), A::product(dy, dy)));
            if prev_step_size.lt(self.precision) {
                break ;
            }
            cur_grad = match problem.gradient(&param) {
                Ok(g) => g,
                Err(e) => {
                    return Err(e);
                },
            };
            if cur_grad.len() < param.len() {
                return Err(
                    Error::OperatorEvaluationError {
                        text: "GradientDescent: gradient of the wrong length.",
                    },
                );
            }
            gamma = match self.update_gamma::<A>(
                param.as_slice(),
                prev_param.as_slice(),
                cur_grad.as_slice(),
                prev_grad.as_slice(),
            ) {
                Ok(g) => g,
                Err(e) => {
                    return Err(e);
                },
            };
        }
        match problem.cost(&param) {
            Ok(fin_cost) => Ok(DescentResult { param, cost: fin_cost, iters: idx }),
            Err(e) => Err(e),
        }
    }
}

/// Makes one move.
fn descend<A: Arithmetic>(param: &Vec<Float>, grad: &Vec<Float>, gamma: Float) -> (next: Vec<Float>)
    requires
        grad.len() >= param.len(),
    ensures
        next@ == descended::<A>(param@, grad@, gamma),
{
    let mut next: Vec<Float> = Vec::new();
    let mut i: usize = 0;
    while i < param.len()
        invariant
            i <= param.len(),
            grad.len() >= param.len(),
            next.len() == i,
            forall|j: int|
                0 <= j < i ==> #[trigger] next[j] == A::spec_difference(
                    param[j],
                    A::spec_product(grad[j], gamma),
                ),
        decreases param.len() - i,
    {
        next.push(A::difference(param[i], A::product(grad[i], gamma)));
        i = i + 1;
    }
    next
}

/// Flips the sign of every entry.
fn negate(v: &[Float]) -> (r: Vec<Float>)
    ensures
        r@ == negated(v@),
{
    let mut r: Vec<Float> = Vec::new();
    let mut i: usize = 0;
    while i < v.len()
        invariant
            i <= v.len(),
            r.len() == i,
            forall|j: int| 0 <= j < i ==> #[trigger] r[j] == v[j].spec_neg(),
        decreases v.len() - i,
    {
        r.push(v[i].neg());
        i = i + 1;
    }
    r
}

/// The problem always has a gradient that the rule for the step size can
/// use: with a constant step size one with at least as many entries as the
/// point, with the Barzilai–Borwein rule one with exactly as many.
pub open spec fn gradients_fit<L, Q: Problem>(gd: GradientDescent<L>, problem: Q) -> bool {
    forall|p: Seq<Float>|
        (#[trigger] problem.spec_gradient(p)) matches Ok(g) && match gd.gamma {
            GDGammaUpdate::Constant(_) => g.len() >= p.len(),
            GDGammaUpdate::BarzilaiBorwein => g.len() == p.len(),
            GDGammaUpdate::BacktrackingLineSearch(_) => false,
        }
}

/// Where the gradients fit, the descent does not fail: it ends at a point
/// of the parameter's length, after at least one move and at most as many
/// as the bound allows (one, where the bound is zero).
pub proof fn lemma_descent_succeeds<A: Arithmetic, Q: Problem, L: LineSearch>(
    gd: GradientDescent<L>,
    problem: Q,
    param: Seq<Float>,
    grad: Seq<Float>,
    gamma: Float,
    idx: nat,
)
    requires
        gradients_fit(gd, problem),
        grad.len() >= param.len(),
    ensures
        gd.descent::<A, Q>(problem, param, grad, gamma, idx) matches Ok((end, n)) && end.len()
            == param.len() && idx < n && (n <= gd.max_iters || n == idx + 1),
    decreases gd.max_iters - idx,
{
    let next = descended::<A>(param, grad, gamma);
    if !(idx + 1 >= gd.max_iters || step_size::<A>(next, param).spec_lt(gd.precision)) {
        let g = problem.spec_gradient(next)->Ok_0;
        let gamma = gd.spec_update_gamma::<A>(next, param, g, grad)->Ok_0;
        lemma_descent_succeeds::<A, Q, L>(gd, problem, next, g, gamma, idx + 1);
    }
}

/// When success is owed: where the gradients fit and the cost can be
/// evaluated everywhere, a run with a constant or a Barzilai–Borwein step
/// size returns a point of the parameter's length, after at least one move
/// and at most `max_iters` (one, where that is zero).
pub proof fn lemma_run_succeeds<A: Arithmetic, Q: Problem, L: LineSearch>(
    gd: GradientDescent<L>,
    problem: Q,
    init_param: Seq<Float>,
)
    requires
        gradients_fit(gd, problem),
        forall|p: Seq<Float>| (#[trigger] problem.spec_cost(p)) is Ok,
    ensures
        gd.spec_run::<A, Q>(problem, init_param) matches Ok((end, cost, n)) && end.len()
            == init_param.len() && 1 <= n && (n <= gd.max_iters || n == 1),
{
    let g = problem.spec_gradient(init_param)->Ok_0;
    lemma_descent_succeeds::<A, Q, L>(gd, problem, init_param, g, gd.first_gamma(), 0);
}

impl<L: LineSearch> Default for GradientDescent<L> {
    fn default() -> (gd: Self)
        ensures
            gd.gamma == GDGammaUpdate::<L>::BarzilaiBorwein,
            gd.max_iters == u64::MAX,
            gd.precision == (Float { bits: DEFAULT_PRECISION_BITS }),
    {
        GradientDescent::new()
    }
}

} // verus!
