//! The Steihaug method: truncated conjugate gradients for the trust-region
//! subproblem.
//!
//! Given a gradient `g` and a Hessian `H`, the method looks for a step `p`
//! that makes the model `m(p) = g·p + ½ p·H·p` small while `‖p‖` stays within
//! the radius. It runs conjugate gradients from `p = 0` and stops as soon as
//! a direction of non-positive curvature is met, the next iterate would leave
//! the region, or the residual is small enough.
//!
//! Reference: Jorge Nocedal and Stephen J. Wright (2006). Numerical
//! Optimization. Springer. ISBN 0-387-30303-0.

use vstd::prelude::*;
use core::marker::PhantomData;
use crate::error::Error;
use crate::executor::Executor;
use crate::float::{
    lemma_lt_strict_order, lemma_total_without_nan, Float, HALF_BITS, MINUS_ONE_BITS, TWO_BITS,
};
use crate::numeric::{Arithmetic, Duplicate, Hessian, Parameter};
use crate::operator::OpWrapper;
use crate::solver::{Solver, TrustRegion};
use crate::state::{IterData, IterState};
use crate::termination::TerminationReason;

verus! {

/// The encoding of `10e-10`, the tolerance a new solver starts with.
pub const DEFAULT_EPSILON_BITS: u64 = 0x3e11_2e0b_e826_d695;

/// The solver: its settings and the state of the conjugate-gradient run.
#[derive(Debug, PartialEq)]
pub struct Steihaug<P, A> {
    /// The radius of the trust region, set from outside before each solve.
    pub radius: Float,
    /// The tolerance on the residual, relative to the first residual.
    pub epsilon: Float,
    /// The current step.
    pub p: P,
    /// The residual.
    pub r: P,
    /// The inner product of the residual with itself.
    pub rtr: Float,
    /// The norm of the first residual.
    pub r_0_norm: Float,
    /// The search direction.
    pub d: P,
    /// The bound on the number of iterations.
    pub max_iters: u64,
    pub arithmetic: PhantomData<A>,
}

/// A candidate takes part in a selection if it has a key and the key is
/// finite.
pub open spec fn eligible(key: Option<Float>) -> bool {
    key matches Some(k) && k.spec_is_finite()
}

/// `x` comes before `y`: it is the lower one, or the higher one where the
/// highest is looked for.
pub open spec fn precedes(x: Float, y: Float, descending: bool) -> bool {
    if descending {
        y.spec_lt(x)
    } else {
        x.spec_lt(y)
    }
}

/// `i` is the eligible candidate that a stable sort by key would put first:
/// no eligible candidate comes before it, and every eligible candidate at a
/// lower index comes strictly after it.
pub open spec fn is_first_best(keys: Seq<Option<Float>>, descending: bool, i: int) -> bool {
    &&& 0 <= i < keys.len()
    &&& eligible(keys[i])
    &&& forall|j: int|
        0 <= j < keys.len() && eligible(#[trigger] keys[j]) ==> !precedes(
            keys[j].unwrap(),
            keys[i].unwrap(),
            descending,
        )
    &&& forall|j: int|
        0 <= j < i && eligible(#[trigger] keys[j]) ==> precedes(
            keys[i].unwrap(),
            keys[j].unwrap(),
            descending,
        )
}

/// The index that [`is_first_best`] singles out, if there is one.
pub open spec fn first_best(keys: Seq<Option<Float>>, descending: bool) -> Option<int> {
    if exists|i: int| is_first_best(keys, descending, i) {
        Some(choose|i: int| is_first_best(keys, descending, i))
    } else {
        None
    }
}

/// At most one index is the first best.
pub proof fn lemma_first_best_unique(keys: Seq<Option<Float>>, descending: bool, i: int, j: int)
    requires
        is_first_best(keys, descending, i),
        is_first_best(keys, descending, j),
    ensures
        i == j,
{
    let (x, y) = (keys[i].unwrap(), keys[j].unwrap());
    lemma_lt_strict_order(x, y, x);
    lemma_lt_strict_order(y, x, y);
}

/// There is a first best exactly if some candidate is eligible.
pub proof fn lemma_first_best_exists(keys: Seq<Option<Float>>, descending: bool)
    ensures
        first_best(keys, descending) is Some <==> exists|j: int|
            0 <= j < keys.len() && eligible(#[trigger] keys[j]),
        first_best(keys, descending) matches Some(i) ==> is_first_best(keys, descending, i),
{
    if exists|j: int| 0 <= j < keys.len() && eligible(#[trigger] keys[j]) {
        let j = choose|j: int| 0 <= j < keys.len() && eligible(#[trigger] keys[j]);
        lemma_scan(keys, descending, keys.len() as int, j);
    }
}

/// Looking through the first `n` candidates, one of which is eligible, finds
/// the first best of the whole sequence restricted to them.
proof fn lemma_scan(keys: Seq<Option<Float>>, descending: bool, n: int, witness: int)
    requires
        0 <= witness < n <= keys.len(),
        eligible(keys[witness]),
    ensures
        exists|i: int| is_first_best(keys.take(n), descending, i),
        n == keys.len() ==> exists|i: int| is_first_best(keys, descending, i),
    decreases n,
{
    let head = keys.take(n - 1);
    let last = keys[n - 1];
    let now = keys.take(n);
    assert forall|j: int| 0 <= j < n - 1 implies #[trigger] now[j] == head[j] by {}
    if exists|j: int| 0 <= j < n - 1 && eligible(#[trigger] keys[j]) {
        let w = choose|j: int| 0 <= j < n - 1 && eligible(#[trigger] keys[j]);
        lemma_scan(keys, descending, n - 1, w);
        let b = choose|i: int| is_first_best(head, descending, i);
        if eligible(last) && precedes(last.unwrap(), head[b].unwrap(), descending) {
            assert(is_first_best(now, descending, n - 1));
        } else {
            assert(is_first_best(now, descending, b));
        }
    } else {
        assert(is_first_best(now, descending, n - 1));
    }
    if n == keys.len() {
        assert(now =~= keys);
    }
}

/// The index of the first best candidate: the eligible one with the lowest
/// key (the highest, if `descending`), and among equals the earliest.
pub fn select_first_best(keys: &Vec<Option<Float>>, descending: bool) -> (r: Option<usize>)
    ensures
        match r {
            Some(i) => is_first_best(keys@, descending, i as int),
            None => forall|j: int| 0 <= j < keys.len() ==> !eligible(#[trigger] keys[j]),
        },
        match r {
            Some(i) => first_best(keys@, descending) == Some(i as int),
            None => first_best(keys@, descending) is None,
        },
{
    let mut best: Option<usize> = None;
    let mut i: usize = 0;
    while i < keys.len()
        invariant
            i <= keys.len(),
            match best {
                Some(b) => b < i && is_first_best(keys@.take(i as int), descending, b as int),
                None => forall|j: int| 0 <= j < i ==> !eligible(#[trigger] keys[j]),
            },
        decreases keys.len() - i,
    {
        let ghost before = keys@.take(i as int);
        let ghost after = keys@.take(i + 1);
        proof {
            assert forall|j: int| 0 <= j < i implies #[trigger] after[j] == before[j] by {}
        }
        match keys[i] {
            Some(k) => {
                if k.is_finite() {
                    match best {
                        Some(b) => {
                            let kb = keys[b].unwrap();
                            let better = if descending {
                                kb.lt(k)
                            } else {
                                k.lt(kb)
                            };
                            if better {
                                best = Some(i);
                            }
                        },
                        None => {
                            best = Some(i);
                        },
                    }
                }
            },
            None => {},
        }
        i = i + 1;
    }
    proof {
        assert(keys@.take(keys.len() as int) =~= keys@);
        if let Some(b) = best {
            let chosen = choose|c: int| is_first_best(keys@, descending, c);
            lemma_first_best_unique(keys@, descending, b as int, chosen);
        }
    }
    best
}

/// The model without its constant term: `m(p) = g·p + ½ p·H·p`.
pub open spec fn model_value<P: Parameter, H: Hessian<P>, A: Arithmetic>(p: P, g: P, h: H) -> Float {
    A::spec_sum(
        g.spec_dot(&p),
        A::spec_product(Float { bits: HALF_BITS }, h.spec_weighted_dot(&p, &p)),
    )
}

/// The step lengths `τ` at which `p + τd` meets the boundary, from `a = p·p`,
/// `b = d·d`, `c = p·d` and the radius: the two roots of
/// `b τ² + 2c τ + a = radius²`, and after them, if either of the two is not
/// finite, the root `(radius² − a) / 2c` of the equation without its
/// quadratic term.
pub open spec fn boundary_roots<A: Arithmetic>(a: Float, b: Float, c: Float, radius: Float) -> Seq<
    Float,
> {
    let delta = A::spec_product(radius, radius);
    let t1 = A::spec_square_root(
        A::spec_sum(
            A::spec_sum(A::spec_product(a.spec_neg(), b), A::spec_product(b, delta)),
            A::spec_product(c, c),
        ),
    );
    let tau1 = A::spec_quotient(A::spec_sum(t1, c).spec_neg(), b);
    let tau2 = A::spec_quotient(A::spec_difference(t1, c), b);
    if fallback_needed(tau1, tau2) {
        seq![
            tau1,
            tau2,
            A::spec_quotient(
                A::spec_difference(delta, a),
                A::spec_product(Float { bits: TWO_BITS }, c),
            ),
        ]
    } else {
        seq![tau1, tau2]
    }
}

/// The third root is called for as soon as one of the first two is a NaN or
/// an infinity.
pub open spec fn fallback_needed(tau1: Float, tau2: Float) -> bool {
    !tau1.spec_is_finite() || !tau2.spec_is_finite()
}

/// A root can be chosen if it is finite and, where only forward roots
/// count, not negative.
pub open spec fn root_admitted(tau: Float, nonnegative_only: bool) -> bool {
    tau.spec_is_finite() && (nonnegative_only ==> tau.spec_ge(Float::spec_zero()))
}

/// Whether the two roots of the quadratic leave a third one to be computed.
pub fn needs_fallback(tau1: Float, tau2: Float) -> (b: bool)
    ensures
        b == fallback_needed(tau1, tau2),
{
    tau1.is_nan() || tau2.is_nan() || tau1.is_infinite() || tau2.is_infinite()
}

/// Whether a root can be chosen.
pub fn admits_root(tau: Float, nonnegative_only: bool) -> (b: bool)
    ensures
        b == root_admitted(tau, nonnegative_only),
{
    tau.is_finite() && (!nonnegative_only || tau.ge(Float::zero()))
}

impl<P: Parameter, A: Arithmetic> Steihaug<P, A> {
    /// The tolerance is a number above zero.
    pub open spec fn wf(self) -> bool {
        self.epsilon.spec_gt(Float::spec_zero())
    }

    pub open spec fn spec_new() -> Self {
        Steihaug {
            radius: Float::spec_nan(),
            epsilon: Float { bits: DEFAULT_EPSILON_BITS },
            p: P::spec_empty(),
            r: P::spec_empty(),
            rtr: Float::spec_nan(),
            r_0_norm: Float::spec_nan(),
            d: P::spec_empty(),
            max_iters: u64::MAX,
            arithmetic: PhantomData,
        }
    }

    /// The point `p + τd` on the current search line.
    pub open spec fn point_at(self, tau: Float) -> P {
        self.p.spec_plus(&self.d.spec_scaled(tau))
    }

    /// The boundary roots of the current search line.
    pub open spec fn roots(self) -> Seq<Float> {
        boundary_roots::<A>(
            self.p.spec_dot(&self.p),
            self.d.spec_dot(&self.d),
            self.p.spec_dot(&self.d),
            self.radius,
        )
    }

    /// The key by which a root is chosen: none if the root is not admitted,
    /// the model value at its point if `eval`, else the root itself.
    pub open spec fn root_key<H: Hessian<P>>(
        self,
        tau: Float,
        nonnegative_only: bool,
        eval: bool,
        g: P,
        h: H,
    ) -> Option<Float> {
        if !root_admitted(tau, nonnegative_only) {
            None
        } else if eval {
            Some(model_value::<P, H, A>(self.point_at(tau), g, h))
        } else {
            Some(tau)
        }
    }

    pub open spec fn root_keys<H: Hessian<P>>(
        self,
        nonnegative_only: bool,
        eval: bool,
        g: P,
        h: H,
    ) -> Seq<Option<Float>> {
        let roots = self.roots();
        Seq::new(roots.len(), |i: int| self.root_key(roots[i], nonnegative_only, eval, g, h))
    }

    /// The step length to the boundary. With `eval`, the admitted root whose
    /// point has the lowest finite model value; without, the largest
    /// admitted root. Among equals the earliest root wins. There is none if
    /// no root is eligible.
    pub open spec fn spec_tau<H: Hessian<P>>(
        self,
        nonnegative_only: bool,
        eval: bool,
        g: P,
        h: H,
    ) -> Result<Float, Error> {
        match first_best(self.root_keys(nonnegative_only, eval, g, h), !eval) {
            Some(i) => Ok(self.roots()[i]),
            None => Err(Error::NumericDegeneracy),
        }
    }

    /// What a step that ends on the boundary reports.
    pub open spec fn boundary_data<H: Hessian<P>>(self, tau: Result<Float, Error>) -> Result<
        IterData<P, H>,
        Error,
    > {
        match tau {
            Ok(t) => Ok(
                IterData {
                    param: Some(self.point_at(t)),
                    cost: None,
                    grad: None,
                    hessian: None,
                    termination_reason: Some(TerminationReason::TargetPrecisionReached),
                },
            ),
            Err(e) => Err(e),
        }
    }

    /// The solver after `start` with the gradient `grad`.
    pub open spec fn started(self, grad: P) -> Self {
        Steihaug {
            r: grad,
            r_0_norm: grad.spec_norm(),
            rtr: grad.spec_dot(&grad),
            d: grad.spec_scaled(Float { bits: MINUS_ONE_BITS }),
            p: grad.spec_zero_like(),
            ..self
        }
    }

    /// What `start` reports: a zero step and the end of the run if the
    /// gradient's norm is below the tolerance, else nothing.
    pub open spec fn start_data<H>(self, grad: P) -> Option<IterData<P, H>> {
        if grad.spec_norm().spec_lt(self.epsilon) {
            Some(
                IterData {
                    param: Some(grad.spec_zero_like()),
                    cost: None,
                    grad: None,
                    hessian: None,
                    termination_reason: Some(TerminationReason::TargetPrecisionReached),
                },
            )
        } else {
            None
        }
    }

    /// The curvature `d·H·d` along the current direction.
    pub open spec fn curvature<H: Hessian<P>>(self, h: H) -> Float {
        h.spec_weighted_dot(&self.d, &self.d)
    }

    /// The conjugate-gradient step length `rtr / d·H·d`.
    pub open spec fn alpha<H: Hessian<P>>(self, h: H) -> Float {
        A::spec_quotient(self.rtr, self.curvature(h))
    }

    /// The iterate `p + αd` that conjugate gradients would go to.
    pub open spec fn next_point<H: Hessian<P>>(self, h: H) -> P {
        self.point_at(self.alpha(h))
    }

    /// The residual `r + α H·d` at that iterate.
    pub open spec fn next_residual<H: Hessian<P>>(self, h: H) -> P {
        self.r.spec_plus(&h.spec_apply(&self.d).spec_scaled(self.alpha(h)))
    }

    /// The direction is one of zero or negative curvature.
    pub open spec fn hits_nonpositive_curvature<H: Hessian<P>>(self, h: H) -> bool {
        self.curvature(h).spec_le(Float::spec_zero())
    }

    /// The next iterate would reach or leave the boundary.
    pub open spec fn leaves_region<H: Hessian<P>>(self, h: H) -> bool {
        !self.hits_nonpositive_curvature(h) && self.next_point(h).spec_norm().spec_ge(self.radius)
    }

    /// The next iterate stays inside and its residual is below the
    /// tolerance.
    pub open spec fn converges<H: Hessian<P>>(self, h: H) -> bool {
        &&& !self.hits_nonpositive_curvature(h)
        &&& !self.leaves_region(h)
        &&& self.next_residual(h).spec_norm().spec_lt(
            A::spec_product(self.epsilon, self.r_0_norm),
        )
    }

    /// The solver and the report after one step with gradient `grad` and
    /// Hessian `h`.
    ///
    /// On non-positive curvature the step goes to the boundary point of
    /// lowest model value; where the next iterate would leave the region, to
    /// the boundary point furthest forward; where the residual is small
    /// enough, to the next iterate. All three end the run and leave the
    /// solver as it was. Otherwise the solver takes the conjugate-gradient
    /// update and reports the new step, `rtr` as its cost, and `grad` and
    /// `h`.
    pub open spec fn spec_step<H: Hessian<P>>(self, grad: P, h: H) -> (
        Self,
        Result<IterData<P, H>, Error>,
    ) {
        if self.hits_nonpositive_curvature(h) {
            (self, self.boundary_data(self.spec_tau(false, true, grad, h)))
        } else if self.leaves_region(h) {
            (self, self.boundary_data(self.spec_tau(true, false, grad, h)))
        } else if self.converges(h) {
            (
                self,
                Ok(
                    IterData {
                        param: Some(self.next_point(h)),
                        cost: None,
                        grad: None,
                        hessian: None,
                        termination_reason: Some(TerminationReason::TargetPrecisionReached),
                    },
                ),
            )
        } else {
            let p_n = self.next_point(h);
            let r_n = self.next_residual(h);
            let rjtrj = r_n.spec_dot(&r_n);
            let beta = A::spec_quotient(rjtrj, self.rtr);
            let d_n = r_n.spec_scaled(Float { bits: MINUS_ONE_BITS }).spec_plus(
                &self.d.spec_scaled(beta),
            );
            (
                Steihaug { d: d_n, r: r_n, p: p_n, rtr: rjtrj, ..self },
                Ok(
                    IterData {
                        param: Some(p_n),
                        cost: Some(rjtrj),
                        grad: Some(grad),
                        hessian: Some(h),
                        termination_reason: None,
                    },
                ),
            )
        }
    }

    /// A solver with the tolerance `10e-10`, no bound on the iterations, and
    /// radius and run state not yet set.
    pub fn new() -> (s: Self)
        ensures
            s == Self::spec_new(),
            s.wf(),
    {
        Steihaug {
            radius: Float::nan(),
            epsilon: Float::from_bits(DEFAULT_EPSILON_BITS),
            p: P::empty(),
            r: P::empty(),
            rtr: Float::nan(),
            r_0_norm: Float::nan(),
            d: P::empty(),
            max_iters: u64::MAX,
            arithmetic: PhantomData,
        }
    }

    /// Sets the tolerance. It must be above zero: anything else, a NaN
    /// included, is refused.
    pub fn epsilon(self, epsilon: Float) -> (r: Result<Self, Error>)
        ensures
            r is Ok <==> epsilon.spec_gt(Float::spec_zero()),
            epsilon.spec_le(Float::spec_zero()) ==> r is Err,
            r matches Ok(s) ==> s == (Steihaug { epsilon, ..self }) && s.wf(),
            r matches Err(e) ==> e == (Error::InvalidParameter {
                text: "Steihaug: epsilon must be > 0.0.",
            }),
    {
        if !epsilon.gt(Float::zero()) {
            return Err(Error::InvalidParameter { text: "Steihaug: epsilon must be > 0.0." });
        }
        let mut s = self;
        s.epsilon = epsilon;
        Ok(s)
    }

    /// Sets the bound on the number of iterations.
    pub fn max_iters(self, iters: u64) -> (s: Self)
        ensures
            s == (Steihaug { max_iters: iters, ..self }),
    {
        let mut s = self;
        s.max_iters = iters;
        s
    }

    /// Evaluates the model at `p`.
    pub fn eval_m<H: Hessian<P>>(&self, p: &P, g: &P, h: &H) -> (m: Float)
        ensures
            m == model_value::<P, H, A>(*p, *g, *h),
    {
        A::sum(g.dot(p), A::product(Float::from_bits(HALF_BITS), h.weighted_dot(p, p)))
    }

    /// The point `p + τd`.
    fn point(&self, tau: Float) -> (q: P)
        ensures
            q == self.point_at(tau),
    {
        self.p.plus(&self.d.scaled(tau))
    }

    /// Computes the boundary roots of the current search line.
    fn compute_roots(&self) -> (t: Vec<Float>)
        ensures
            t@ == self.roots(),
            2 <= t.len() <= 3,
    {
        let a = self.p.dot(&self.p);
        let b = self.d.dot(&self.d);
        let c = self.p.dot(&self.d);
        let delta = A::product(self.radius, self.radius);
        let t1 = A::square_root(
            A::sum(A::sum(A::product(a.neg(), b), A::product(b, delta)), A::product(c, c)),
        );
        let tau1 = A::quotient(A::sum(t1, c).neg(), b);
        let tau2 = A::quotient(A::difference(t1, c), b);
        let mut t: Vec<Float> = Vec::new();
        t.push(tau1);
        t.push(tau2);
        if needs_fallback(tau1, tau2) {
            let tau3 = A::quotient(
                A::difference(delta, a),
                A::product(Float::from_bits(TWO_BITS), c),
            );
            t.push(tau3);
        }
        t
    }

    /// Chooses the step length to the boundary among the boundary roots.
    ///
    /// Roots that are not finite never count, nor negative ones if
    /// `nonnegative_only`. With `eval` the model is evaluated at the point of
    /// each root that is left, points whose value is not finite are dropped,
    /// and the root of the lowest value is returned; without `eval` the
    /// largest root that is left is returned. If none is left the search has
    /// degenerated, and that is the error.
    pub fn tau<H: Hessian<P>>(&self, nonnegative_only: bool, eval: bool, g: &P, h: &H) -> (r:
        Result<Float, Error>)
        ensures
            r == self.spec_tau(nonnegative_only, eval, *g, *h),
            r is Ok <==> exists|i: int|
                0 <= i < self.roots().len() && eligible(
                    #[trigger] self.root_keys(nonnegative_only, eval, *g, *h)[i],
                ),
            r matches Ok(t) ==> t.spec_is_finite() && (nonnegative_only ==> t.spec_ge(
                Float::spec_zero(),
            )),
            r matches Err(e) ==> e == Error::NumericDegeneracy,
    {
        let t = self.compute_roots();
        let ghost want = self.root_keys(nonnegative_only, eval, *g, *h);
        let mut keys: Vec<Option<Float>> = Vec::new();
        let mut i: usize = 0;
        while i < t.len()
            invariant
                i <= t.len(),
                t@ == self.roots(),
                want == self.root_keys(nonnegative_only, eval, *g, *h),
                keys.len() == i,
                forall|j: int| 0 <= j < i ==> #[trigger] keys[j] == want[j],
            decreases t.len() - i,
        {
            let tau = t[i];
            let key = if !admits_root(tau, nonnegative_only) {
                None
            } else if eval {
                let q = self.point(tau);
                Some(self.eval_m(&q, g, h))
            } else {
                Some(tau)
            };
            keys.push(key);
            i = i + 1;
        }
        assert(keys@ =~= want);
        proof {
            lemma_first_best_exists(want, !eval);
        }
        match select_first_best(&keys, !eval) {
            Some(i) => Ok(t[i]),
            None => Err(Error::NumericDegeneracy),
        }
    }

    /// One boundary search and the report of the step to the root it found.
    fn boundary_step<H: Hessian<P>>(&self, nonnegative_only: bool, eval: bool, g: &P, h: &H) -> (r:
        Result<IterData<P, H>, Error>)
        ensures
            r == self.boundary_data::<H>(self.spec_tau(nonnegative_only, eval, *g, *h)),
    {
        match self.tau(nonnegative_only, eval, g, h) {
            Ok(tau) => Ok(
                IterData::new().param(self.point(tau)).termination_reason(
                    TerminationReason::TargetPrecisionReached,
                ),
            ),
            Err(e) => Err(e),
        }
    }

    /// Begins a solve: the residual is the gradient, the direction its
    /// negative, the step zero. If the gradient's norm is already below the
    /// tolerance, the solve ends at once with the zero step.
    pub fn start<H>(&mut self, grad: &P) -> (r: Option<IterData<P, H>>)
        ensures
            *final(self) == old(self).started(*grad),
            r == old(self).start_data::<H>(*grad),
            grad.spec_norm().spec_lt(old(self).epsilon) ==> (r matches Some(data)
                && data.termination_reason == Some(TerminationReason::TargetPrecisionReached)
                && data.param == Some(grad.spec_zero_like())),
            !grad.spec_norm().spec_lt(old(self).epsilon) ==> r is None,
    {
        self.r = grad.duplicate();
        self.r_0_norm = self.r.norm();
        self.rtr = self.r.dot(&self.r);
        self.d = self.r.scaled(Float::from_bits(MINUS_ONE_BITS));
        self.p = self.r.zero_like();
        if self.r_0_norm.lt(self.epsilon) {
            Some(
                IterData::new().param(self.p.duplicate()).termination_reason(
                    TerminationReason::TargetPrecisionReached,
                ),
            )
        } else {
            None
        }
    }

    /// Makes one conjugate-gradient step within the trust region.
    ///
    /// The settings stay as they are. A report always gives a step; one that
    /// ends the run gives `TargetPrecisionReached` and leaves the solver
    /// untouched. The only error is a boundary search without a finite root.
    pub fn step<H: Hessian<P>>(&mut self, grad: P, h: H) -> (r: Result<IterData<P, H>, Error>)
        ensures
            (*final(self), r) == old(self).spec_step(grad, h),
            final(self).radius == old(self).radius,
            final(self).epsilon == old(self).epsilon,
            final(self).max_iters == old(self).max_iters,
            final(self).r_0_norm == old(self).r_0_norm,
            r matches Ok(data) ==> data.param is Some,
            r matches Ok(data) ==> (data.termination_reason matches Some(reason) ==> reason
                == TerminationReason::TargetPrecisionReached && *final(self) == *old(self)),
            r matches Err(e) ==> e == Error::NumericDegeneracy,
            r is Err ==> *final(self) == *old(self),
    {
        let dhd = h.weighted_dot(&self.d, &self.d);
        if dhd.le(Float::zero()) {
            return self.boundary_step(false, true, &grad, &h);
        }
        let alpha = A::quotient(self.rtr, dhd);
        let p_n = self.point(alpha);
        if p_n.norm().ge(self.radius) {
            return self.boundary_step(true, false, &grad, &h);
        }
        let r_n = self.r.plus(&h.apply(&self.d).scaled(alpha));
        if r_n.norm().lt(A::product(self.epsilon, self.r_0_norm)) {
            return Ok(
                IterData::new().param(p_n).termination_reason(
                    TerminationReason::TargetPrecisionReached,
                ),
            );
        }
        let rjtrj = r_n.dot(&r_n);
        let beta = A::quotient(rjtrj, self.rtr);
        self.d = r_n.scaled(Float::from_bits(MINUS_ONE_BITS)).plus(&self.d.scaled(beta));
        self.r = r_n;
        self.p = p_n;
        self.rtr = rjtrj;
        Ok(IterData::new().param(self.p.duplicate()).cost(self.rtr).grad(grad).hessian(h))
    }

    /// The run is over once `iter` completed iterations have reached the
    /// bound; what ends it earlier is reported by the step itself.
    pub open spec fn reason_at(self, iter: u64) -> TerminationReason {
        if iter >= self.max_iters {
            TerminationReason::MaxItersReached
        } else {
            TerminationReason::NotTerminated
        }
    }
}

/// A step that meets neither non-positive curvature nor the boundary returns
/// the next conjugate-gradient iterate, and the norm of that iterate is not
/// at or above the radius: where both are numbers, it is below the radius.
/// If the step does not end the run, the iterate is the solver's step
/// afterwards.
pub proof fn lemma_inner_step_is_inside<P: Parameter, H: Hessian<P>, A: Arithmetic>(
    s: Steihaug<P, A>,
    grad: P,
    h: H,
)
    requires
        !s.hits_nonpositive_curvature(h),
        !s.leaves_region(h),
    ensures
        s.spec_step(grad, h).1 matches Ok(data) && data.param == Some(s.next_point(h)) && (
        data.termination_reason is None <==> !s.converges(h)) && (data.termination_reason is None
            ==> s.spec_step(grad, h).0.p == s.next_point(h)),
        !s.next_point(h).spec_norm().spec_ge(s.radius),
        !s.next_point(h).spec_norm().spec_is_nan() && !s.radius.spec_is_nan() ==> s.next_point(
            h,
        ).spec_norm().spec_lt(s.radius),
{
    let norm = s.next_point(h).spec_norm();
    if !norm.spec_is_nan() && !s.radius.spec_is_nan() {
        lemma_total_without_nan(s.radius, norm);
    }
}

/// A step that meets non-positive curvature or the boundary goes to the
/// point of a boundary root that is finite and, where the step would have
/// left the region, not negative. It fails exactly if no root is eligible.
pub proof fn lemma_boundary_step_is_at_a_root<P: Parameter, H: Hessian<P>, A: Arithmetic>(
    s: Steihaug<P, A>,
    grad: P,
    h: H,
)
    requires
        s.hits_nonpositive_curvature(h) || s.leaves_region(h),
    ensures
        ({
            let forward = !s.hits_nonpositive_curvature(h);
            let keys = s.root_keys(forward, !forward, grad, h);
            match s.spec_step(grad, h).1 {
                Ok(data) => exists|i: int|
                    0 <= i < s.roots().len() && root_admitted(#[trigger] s.roots()[i], forward)
                        && is_first_best(keys, forward, i) && data.param == Some(
                        s.point_at(s.roots()[i]),
                    ),
                Err(e) => e == Error::NumericDegeneracy && forall|i: int|
                    0 <= i < keys.len() ==> !eligible(#[trigger] keys[i]),
            }
        }),
{
    let forward = !s.hits_nonpositive_curvature(h);
    let keys = s.root_keys(forward, !forward, grad, h);
    lemma_first_best_exists(keys, forward);
}

/// A gradient whose norm is below the tolerance ends a run in `init`: no
/// step is made, the reason is `TargetPrecisionReached`, and the iterate is
/// the zero step.
pub proof fn lemma_negligible_gradient_ends_in_init<O, P: Parameter, H: Hessian<P>, A: Arithmetic>(
    e: Executor<Steihaug<P, A>, O, P, H>,
    grad: P,
)
    requires
        e.state.grad == Some(grad),
        grad.spec_norm().spec_lt(e.solver.epsilon),
    ensures
        e.spec_run() matches Ok(end) && end.state.iter == e.state.iter
            && end.state.termination_reason == TerminationReason::TargetPrecisionReached
            && end.state.param == grad.spec_zero_like() && end.op == e.op,
{
    let ready = e.initialized().unwrap();
    assert(ready.iterated(ready.steps_left()) == Ok::<Executor<Steihaug<P, A>, O, P, H>, Error>(
        ready,
    ));
}

/// The text of the error for a state that lacks the gradient or the Hessian.
pub open spec fn missing_derivatives() -> Error {
    Error::InvalidParameter { text: "Steihaug: gradient and Hessian must be set in the state." }
}

impl<O, P: Parameter, H: Hessian<P>, A: Arithmetic> Solver<O, P, H> for Steihaug<P, A> {
    /// Starts from the gradient in the state. The operator is not asked.
    open spec fn spec_init(self, op: OpWrapper<O>, state: IterState<P, H>) -> (
        Self,
        OpWrapper<O>,
        Result<Option<IterData<P, H>>, Error>,
    ) {
        match state.grad {
            Some(g) => (self.started(g), op, Ok(self.start_data(g))),
            None => (self, op, Err(missing_derivatives())),
        }
    }

    /// Steps with the gradient and the Hessian in the state. The operator is
    /// not asked.
    open spec fn spec_next_iter(self, op: OpWrapper<O>, state: IterState<P, H>) -> (
        Self,
        OpWrapper<O>,
        Result<IterData<P, H>, Error>,
    ) {
        match (state.grad, state.hessian) {
            (Some(g), Some(h)) => {
                let (s, r) = self.spec_step(g, h);
                (s, op, r)
            },
            _ => (self, op, Err(missing_derivatives())),
        }
    }

    open spec fn spec_terminate(self, state: IterState<P, H>) -> (Self, TerminationReason) {
        (self, self.reason_at(state.iter))
    }

    fn init(&mut self, op: &mut OpWrapper<O>, state: &IterState<P, H>) -> (r: Result<
        Option<IterData<P, H>>,
        Error,
    >) {
        match &state.grad {
            Some(g) => Ok(self.start(g)),
            None => Err(
                Error::InvalidParameter {
                    text: "Steihaug: gradient and Hessian must be set in the state.",
                },
            ),
        }
    }

    fn next_iter(&mut self, op: &mut OpWrapper<O>, state: &IterState<P, H>) -> (r: Result<
        IterData<P, H>,
        Error,
    >) {
        match (&state.grad, &state.hessian) {
            (Some(g), Some(h)) => self.step(g.duplicate(), h.duplicate()),
            _ => Err(
                Error::InvalidParameter {
                    text: "Steihaug: gradient and Hessian must be set in the state.",
                },
            ),
        }
    }

    fn terminate(&mut self, state: &IterState<P, H>) -> (r: TerminationReason) {
        if state.get_iter() >= self.max_iters {
            TerminationReason::MaxItersReached
        } else {
            TerminationReason::NotTerminated
        }
    }
}

impl<P: Duplicate, A> Clone for Steihaug<P, A> {
    fn clone(&self) -> (s: Self)
        ensures
            s == *self,
    {
        Steihaug {
            radius: self.radius,
            epsilon: self.epsilon,
            p: self.p.duplicate(),
            r: self.r.duplicate(),
            rtr: self.rtr,
            r_0_norm: self.r_0_norm,
            d: self.d.duplicate(),
            max_iters: self.max_iters,
            arithmetic: PhantomData,
        }
    }
}

impl<P: Parameter, A: Arithmetic> Default for Steihaug<P, A> {
    fn default() -> (s: Self)
        ensures
            s == Self::spec_new(),
            s.wf(),
    {
        Steihaug::new()
    }
}

impl<P, A> TrustRegion for Steihaug<P, A> {
    open spec fn spec_radius(&self) -> Float {
        self.radius
    }

    fn set_radius(&mut self, radius: Float)
        ensures
            *final(self) == (Steihaug { radius, ..*old(self) }),
    {
        self.radius = radius;
    }
}

} // verus!
