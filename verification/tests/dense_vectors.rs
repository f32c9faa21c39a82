use argmin::dense::{Matrix, Vector};
use argmin::error::Error;
use argmin::executor::{Executor, NoObserver};
use argmin::float::Float;
use argmin::numeric::{Arithmetic, Duplicate, Hessian, Parameter};
use argmin::operator::Operator;
use argmin::solver::trustregion::steihaug::Steihaug;
use argmin::solver::TrustRegion;
use argmin::state::IterData;
use argmin::termination::TerminationReason;

fn enc(x: f64) -> Float {
    Float::from_bits(if x.is_nan() { f64::NAN.to_bits() } else { x.to_bits() })
}

fn dec(x: Float) -> f64 {
    f64::from_bits(x.to_bits())
}

#[derive(Clone, Copy, Debug, PartialEq)]
struct Native;

impl Arithmetic for Native {
    fn spec_sum(a: Float, b: Float) -> Float {
        Self::sum(a, b)
    }

    fn spec_difference(a: Float, b: Float) -> Float {
        Self::difference(a, b)
    }

    fn spec_product(a: Float, b: Float) -> Float {
        Self::product(a, b)
    }

    fn spec_quotient(a: Float, b: Float) -> Float {
        Self::quotient(a, b)
    }

    fn spec_square_root(a: Float) -> Float {
        Self::square_root(a)
    }

    fn sum(a: Float, b: Float) -> Float {
        enc(dec(a) + dec(b))
    }

    fn difference(a: Float, b: Float) -> Float {
        enc(dec(a) - dec(b))
    }

    fn product(a: Float, b: Float) -> Float {
        enc(dec(a) * dec(b))
    }

    fn quotient(a: Float, b: Float) -> Float {
        enc(dec(a) / dec(b))
    }

    fn square_root(a: Float) -> Float {
        enc(dec(a).sqrt())
    }
}

type V3 = Vector<3, Native>;
type V2 = Vector<2, Native>;
type M2 = Matrix<2, Native>;

fn v3(a: f64, b: f64, c: f64) -> V3 {
    Vector::new([enc(a), enc(b), enc(c)])
}

fn v2(a: f64, b: f64) -> V2 {
    Vector::new([enc(a), enc(b)])
}

fn m2(a: f64, b: f64, c: f64, d: f64) -> M2 {
    Matrix::new([[enc(a), enc(b)], [enc(c), enc(d)]])
}

fn entries<const N: usize>(v: &Vector<N, Native>) -> Vec<f64> {
    v.entries.iter().map(|x| dec(*x)).collect()
}

/// An operator that is never asked.
struct Silent;

impl Operator<V2, M2> for Silent {
    fn spec_apply(&self, param: &V2) -> Result<Float, Error> {
        self.apply(param)
    }

    fn spec_gradient(&self, param: &V2) -> Result<V2, Error> {
        self.gradient(param)
    }

    fn spec_hessian(&self, param: &V2) -> Result<M2, Error> {
        self.hessian(param)
    }

    fn apply(&self, _param: &V2) -> Result<Float, Error> {
        Err(Error::OperatorEvaluationError { text: "no cost" })
    }

    fn gradient(&self, _param: &V2) -> Result<V2, Error> {
        Err(Error::OperatorEvaluationError { text: "no gradient" })
    }

    fn hessian(&self, _param: &V2) -> Result<M2, Error> {
        Err(Error::OperatorEvaluationError { text: "no Hessian" })
    }
}

#[test]
fn zero_vectors() {
    assert_eq!(entries(&V3::empty()), vec![0.0, 0.0, 0.0]);
    assert_eq!(entries(&v3(1.0, -2.0, f64::NAN).zero_like()), vec![0.0, 0.0, 0.0]);
    assert!(V3::empty().entries.iter().all(|x| x.to_bits() == 0));
}

#[test]
fn duplicate_is_the_same_vector() {
    let v = v3(1.5, -2.0, 1e-300);
    assert_eq!(entries(&v.duplicate()), vec![1.5, -2.0, 1e-300]);
    let m = m2(1.0, 2.0, 3.0, 4.0);
    let copy = m.duplicate();
    assert_eq!(entries(&copy.apply(&v2(1.0, 0.0))), vec![1.0, 3.0]);
}

#[test]
fn dot_sums_the_products_from_the_first_entry_on() {
    assert_eq!(dec(v3(1.0, 2.0, 3.0).dot(&v3(4.0, -5.0, 6.0))), 12.0);
    // the order of the sum shows in the rounding
    let (a, b, c) = (1e16, 1.0, -1e16);
    let ones = v3(1.0, 1.0, 1.0);
    assert_eq!(dec(v3(a, b, c).dot(&ones)), ((0.0 + a) + b) + c);
    assert_eq!(dec(v3(a, c, b).dot(&ones)), ((0.0 + a) + c) + b);
    assert_eq!(dec(v3(a, b, c).dot(&ones)), 0.0);
    assert_eq!(dec(v3(a, c, b).dot(&ones)), 1.0);
}

#[test]
fn norm_is_the_root_of_the_dot_with_itself() {
    assert_eq!(dec(v3(3.0, 0.0, 4.0).norm()), 5.0);
    assert_eq!(dec(v2(4.0, 2.0).norm()), 20.0f64.sqrt());
    assert!(dec(v2(f64::NAN, 2.0).norm()).is_nan());
}

#[test]
fn scaled_and_plus_work_entry_by_entry() {
    assert_eq!(entries(&v3(1.0, -2.0, 0.5).scaled(enc(-4.0))), vec![-4.0, 8.0, -2.0]);
    assert_eq!(entries(&v3(1.0, -2.0, 0.5).plus(&v3(0.25, 2.0, 1e300))), vec![1.25, 0.0, 1e300]);
    assert_eq!(entries(&v2(0.1, 0.2).plus(&v2(0.2, 0.1))), vec![0.1 + 0.2, 0.2 + 0.1]);
}

#[test]
fn matrix_times_vector_and_quadratic_form() {
    let m = m2(2.0, 1.0, 1.0, 3.0);
    assert_eq!(entries(&m.apply(&v2(1.0, -2.0))), vec![0.0, -5.0]);
    assert_eq!(dec(m.weighted_dot(&v2(1.0, -2.0), &v2(1.0, -2.0))), 10.0);
    assert_eq!(dec(m.weighted_dot(&v2(1.0, 0.0), &v2(0.0, 1.0))), 1.0);
}

#[test]
fn steihaug_on_dense_vectors_inside_the_region() {
    let mut solver: Steihaug<V2, Native> = Steihaug::new().epsilon(enc(1e-10)).unwrap();
    solver.set_radius(enc(10.0));
    let grad = v2(4.0, 2.0);
    let first: Option<IterData<V2, M2>> = solver.start(&grad);
    assert!(first.is_none());
    let data = solver.step(grad, m2(1.0, 0.0, 0.0, 1.0)).unwrap();
    assert_eq!(entries(&data.param.unwrap()), vec![-4.0, -2.0]);
    assert_eq!(data.termination_reason, Some(TerminationReason::TargetPrecisionReached));
}

#[test]
fn steihaug_on_dense_vectors_on_the_boundary() {
    for h in [m2(1.0, 0.0, 0.0, 1.0), m2(-1.0, 0.0, 0.0, -1.0)] {
        let mut solver: Steihaug<V2, Native> = Steihaug::new().epsilon(enc(1e-10)).unwrap();
        solver.set_radius(enc(1.0));
        let exec = Executor::new(Silent, solver, v2(0.0, 0.0)).grad(v2(4.0, 2.0)).hessian(h);
        let res = exec.run(&mut NoObserver::new()).unwrap();
        let tau = 20.0f64.sqrt() / 20.0;
        assert_eq!(entries(&res.state.param), vec![0.0 + -4.0 * tau, 0.0 + -2.0 * tau]);
        assert!((dec(res.state.param.norm()) - 1.0).abs() < 1e-12);
        assert_eq!(res.state.termination_reason, TerminationReason::TargetPrecisionReached);
        assert_eq!(res.state.iter, 1);
    }
}
