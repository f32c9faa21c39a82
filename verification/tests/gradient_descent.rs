use argmin::error::Error;
use argmin::float::Float;
use argmin::gradientdescent::{
    DescentResult, Entries, GDGammaUpdate, GradientDescent, LineSearch, NoLineSearch, Problem,
    DEFAULT_PRECISION_BITS, FIRST_GAMMA_BITS,
};
use argmin::numeric::Arithmetic;

fn enc(x: f64) -> Float {
    Float::from_bits(if x.is_nan() { f64::NAN.to_bits() } else { x.to_bits() })
}

fn dec(x: Float) -> f64 {
    f64::from_bits(x.to_bits())
}

fn encs(v: &[f64]) -> Vec<Float> {
    v.iter().map(|x| enc(*x)).collect()
}

fn decs(v: &[Float]) -> Vec<f64> {
    v.iter().map(|x| dec(*x)).collect()
}

#[derive(Clone, Copy, Debug, PartialEq)]
struct Native;

impl Arithmetic for Native {
    fn spec_sum(a: Float, b: Float) -> Float {
        Self::sum(a, b)
    }

    fn spec_difference(a: Float, b: Float) -> Float {
        Self::difference(a, b)
    }

    fn spec_product(a: Float, b: Float) -> Float {
        Self::product(a, b)
    }

    fn spec_quotient(a: Float, b: Float) -> Float {
        Self::quotient(a, b)
    }

    fn spec_square_root(a: Float) -> Float {
        Self::square_root(a)
    }

    fn sum(a: Float, b: Float) -> Float {
        enc(dec(a) + dec(b))
    }

    fn difference(a: Float, b: Float) -> Float {
        enc(dec(a) - dec(b))
    }

    fn product(a: Float, b: Float) -> Float {
        enc(dec(a) * dec(b))
    }

    fn quotient(a: Float, b: Float) -> Float {
        enc(dec(a) / dec(b))
    }

    fn square_root(a: Float) -> Float {
        enc(dec(a).sqrt())
    }
}

/// f(x) = Σ xᵢ², with a gradient that fails, or comes out one entry short
/// or some entries long, wherever the first coordinate is below a threshold.
struct Bowl {
    fail_below: Option<f64>,
    short_below: Option<f64>,
    long_below: Option<f64>,
}

impl Bowl {
    fn sound() -> Bowl {
        Bowl { fail_below: None, short_below: None, long_below: None }
    }
}

impl Problem for Bowl {
    fn spec_cost(&self, _param: Entries) -> Result<Float, Error> {
        unreachable!()
    }

    fn spec_gradient(&self, _param: Entries) -> Result<Entries, Error> {
        unreachable!()
    }

    fn cost(&self, param: &Vec<Float>) -> Result<Float, Error> {
        Ok(enc(param.iter().map(|x| dec(*x) * dec(*x)).sum()))
    }

    fn gradient(&self, param: &Vec<Float>) -> Result<Vec<Float>, Error> {
        let first = dec(param[0]);
        if self.fail_below.map_or(false, |bound| first < bound) {
            return Err(Error::OperatorEvaluationError { text: "no gradient" });
        }
        let mut g: Vec<Float> = param.iter().map(|x| enc(2.0 * dec(*x))).collect();
        if self.short_below.map_or(false, |bound| first < bound) {
            g.pop();
        }
        if self.long_below.map_or(false, |bound| first < bound) {
            g.push(enc(7.0));
            g.push(enc(f64::NAN));
        }
        Ok(g)
    }
}

/// The bowl, with a gradient that is two entries long at one point.
struct LongAt {
    at: f64,
}

impl Problem for LongAt {
    fn spec_cost(&self, _param: Entries) -> Result<Float, Error> {
        unreachable!()
    }

    fn spec_gradient(&self, _param: Entries) -> Result<Entries, Error> {
        unreachable!()
    }

    fn cost(&self, param: &Vec<Float>) -> Result<Float, Error> {
        Bowl::sound().cost(param)
    }

    fn gradient(&self, param: &Vec<Float>) -> Result<Vec<Float>, Error> {
        let mut g = Bowl::sound().gradient(param)?;
        if dec(param[0]) == self.at {
            g.push(enc(7.0));
            g.push(enc(f64::NAN));
        }
        Ok(g)
    }
}

/// Gives a step length made of the first entry of the direction, the second
/// of the point and the length of the direction; or fails.
struct Probe {
    fails: bool,
}

impl LineSearch for Probe {
    fn spec_step_length(&self, _direction: Entries, _param: Entries) -> Result<Float, Error> {
        unreachable!()
    }

    fn step_length(&self, direction: &Vec<Float>, param: &[Float]) -> Result<Float, Error> {
        if self.fails {
            Err(Error::OperatorEvaluationError { text: "line search gave up" })
        } else {
            let extra = 1000.0 * (direction.len() as f64 - param.len() as f64);
            Ok(enc(dec(direction[0]) + 100.0 * dec(param[1]) + extra))
        }
    }
}

fn descent() -> GradientDescent<Probe> {
    GradientDescent::new()
}

fn run(gd: &GradientDescent<Probe>, problem: &Bowl, init: &[f64]) -> Result<DescentResult, Error> {
    gd.run::<Native, Bowl>(problem, &encs(init))
}

#[test]
fn a_new_descent_has_the_documented_settings() {
    let gd = descent();
    assert!(matches!(gd.gamma, GDGammaUpdate::BarzilaiBorwein));
    assert_eq!(gd.max_iters, u64::MAX);
    assert_eq!(gd.precision.to_bits(), 0.00000001f64.to_bits());
    assert_eq!(DEFAULT_PRECISION_BITS, 0.00000001f64.to_bits());
    assert_eq!(FIRST_GAMMA_BITS, 0.0001f64.to_bits());
    let gd: GradientDescent<Probe> = Default::default();
    assert!(matches!(gd.gamma, GDGammaUpdate::BarzilaiBorwein));
    assert_eq!(gd.max_iters, u64::MAX);
    assert_eq!(gd.precision.to_bits(), 0.00000001f64.to_bits());
}

#[test]
fn the_setters_chain() {
    let mut gd = descent();
    gd.gamma_update(GDGammaUpdate::Constant(enc(0.25))).max_iters(9).precision(enc(1e-3));
    assert!(matches!(gd.gamma, GDGammaUpdate::Constant(g) if dec(g) == 0.25));
    assert_eq!(gd.max_iters, 9);
    assert_eq!(dec(gd.precision), 1e-3);
}

#[test]
fn constant_step_moves_against_the_gradient() {
    let mut gd = descent();
    gd.gamma_update(GDGammaUpdate::Constant(enc(0.25))).max_iters(3);
    let res = run(&gd, &Bowl::sound(), &[8.0, -4.0, 2.0]).unwrap();
    // x - 2x * 0.25 = x / 2, three times
    assert_eq!(decs(&res.param), vec![1.0, -0.5, 0.25]);
    assert_eq!(res.iters, 3);
    assert_eq!(dec(res.cost), 1.0 + 0.25 + 0.0625);
}

#[test]
fn at_least_one_move_is_made() {
    for bound in [0u64, 1] {
        let mut gd = descent();
        gd.gamma_update(GDGammaUpdate::Constant(enc(0.25))).max_iters(bound);
        let res = run(&gd, &Bowl::sound(), &[8.0, -4.0]).unwrap();
        assert_eq!(decs(&res.param), vec![4.0, -2.0]);
        assert_eq!(res.iters, 1);
        assert_eq!(dec(res.cost), 20.0);
    }
}

#[test]
fn a_short_move_ends_the_descent() {
    let mut gd = descent();
    gd.gamma_update(GDGammaUpdate::Constant(enc(0.25))).precision(enc(0.5));
    let res = run(&gd, &Bowl::sound(), &[0.5, 0.0, 64.0]).unwrap();
    // moves of length 0.25 in the first two coordinates: only they are measured
    assert_eq!(res.iters, 1);
    assert_eq!(decs(&res.param), vec![0.25, 0.0, 32.0]);
    let mut gd = descent();
    gd.gamma_update(GDGammaUpdate::Constant(enc(0.25))).precision(enc(0.2));
    let res = run(&gd, &Bowl::sound(), &[0.5, 0.0, 64.0]).unwrap();
    // 0.25, then 0.125 < 0.2
    assert_eq!(res.iters, 2);
    assert_eq!(decs(&res.param), vec![0.125, 0.0, 16.0]);
}

#[test]
fn barzilai_borwein_finds_the_minimum_of_a_bowl() {
    let res = run(&descent(), &Bowl::sound(), &[3.0, -1.5]).unwrap();
    // first move with 0.0001, then Δx·Δg / Δg·Δg = 1/2, which lands on the minimum;
    // the third move is of length zero
    assert_eq!(res.iters, 3);
    assert!(dec(res.param[0]).abs() < 1e-15 && dec(res.param[1]).abs() < 1e-15);
    assert!(dec(res.cost) < 1e-30);
}

#[test]
fn barzilai_borwein_step_size() {
    let gd = descent();
    let gamma = gd.update_gamma::<Native>(
        &encs(&[1.0, 2.0, 3.0]),
        &encs(&[0.5, 4.0, 3.0]),
        &encs(&[2.0, 1.0, -1.0]),
        &encs(&[1.0, 2.0, 1.0]),
    );
    // Δx = [0.5, -2, 0], Δg = [1, -1, -2]: (0.5 + 2 + 0) / (1 + 1 + 4)
    assert_eq!(gamma.map(dec), Ok(2.5 / 6.0));
    let none = gd.update_gamma::<Native>(&[], &[], &[], &[]).map(dec).unwrap();
    assert!(none.is_nan());
}

#[test]
fn constant_step_size_ignores_the_points() {
    let mut gd = descent();
    gd.gamma_update(GDGammaUpdate::Constant(enc(0.75)));
    let gamma =
        gd.update_gamma::<Native>(&encs(&[1.0]), &encs(&[2.0]), &encs(&[3.0]), &encs(&[4.0]));
    assert_eq!(gamma.map(dec), Ok(0.75));
}

#[test]
fn line_search_is_given_the_negative_gradient_and_the_point() {
    let mut gd = descent();
    gd.gamma_update(GDGammaUpdate::BacktrackingLineSearch(Probe { fails: false }));
    let gamma = gd.update_gamma::<Native>(
        &encs(&[1.0, 2.0]),
        &encs(&[0.0, 0.0]),
        &encs(&[3.0, -4.0]),
        &encs(&[0.0, 0.0]),
    );
    assert_eq!(gamma.map(dec), Ok(-3.0 + 200.0));
}

#[test]
fn line_search_drives_the_descent() {
    let mut gd = descent();
    gd.gamma_update(GDGammaUpdate::BacktrackingLineSearch(Probe { fails: false })).max_iters(2);
    let res = run(&gd, &Bowl::sound(), &[1.0, 0.0]).unwrap();
    let x1 = 1.0 - 2.0 * 0.0001;
    let gamma = -(2.0 * x1) + 100.0 * 0.0;
    let x2 = x1 - (2.0 * x1) * gamma;
    assert_eq!(decs(&res.param), vec![x2, 0.0]);
    assert_eq!(res.iters, 2);
}

#[test]
fn a_failed_line_search_ends_the_run() {
    let mut gd = descent();
    gd.gamma_update(GDGammaUpdate::BacktrackingLineSearch(Probe { fails: true }));
    let res = run(&gd, &Bowl::sound(), &[1.0, 0.0]);
    assert_eq!(res.err(), Some(Error::OperatorEvaluationError { text: "line search gave up" }));
}

#[test]
fn a_failed_gradient_ends_the_run() {
    // the descent visits 8, 4, 2, 1, ...
    for bound in [9.0, 5.0, 3.0] {
        let mut problem = Bowl::sound();
        problem.fail_below = Some(bound);
        let mut gd = descent();
        gd.gamma_update(GDGammaUpdate::Constant(enc(0.25)));
        let res = run(&gd, &problem, &[8.0, -4.0]);
        assert_eq!(res.err(), Some(Error::OperatorEvaluationError { text: "no gradient" }));
    }
}

#[test]
fn a_gradient_of_the_wrong_length_ends_the_run() {
    for bound in [9.0, 5.0] {
        let mut problem = Bowl::sound();
        problem.short_below = Some(bound);
        let mut gd = descent();
        gd.gamma_update(GDGammaUpdate::Constant(enc(0.25)));
        let res = run(&gd, &problem, &[8.0, -4.0]);
        assert_eq!(
            res.err(),
            Some(Error::OperatorEvaluationError {
                text: "GradientDescent: gradient of the wrong length."
            })
        );
    }
}

#[test]
fn a_gradient_longer_than_the_parameter_is_used_with_a_constant_step() {
    // every gradient is long: the first, and those at 4, 2, ...
    for bound in [9.0, 5.0, f64::INFINITY] {
        let mut problem = Bowl::sound();
        problem.long_below = Some(bound);
        let mut gd = descent();
        gd.gamma_update(GDGammaUpdate::Constant(enc(0.25))).max_iters(3);
        let res = run(&gd, &problem, &[8.0, -4.0, 2.0]).unwrap();
        assert_eq!(decs(&res.param), vec![1.0, -0.5, 0.25]);
        assert_eq!(res.iters, 3);
        assert_eq!(dec(res.cost), 1.0 + 0.25 + 0.0625);
    }
}

#[test]
fn a_long_first_gradient_is_used_with_barzilai_borwein() {
    let plain = run(&descent(), &Bowl::sound(), &[3.0, -1.5]).unwrap();
    // only the gradient at the start, 3.0, is long
    let long_first = LongAt { at: 3.0 };
    let res = descent().run::<Native, LongAt>(&long_first, &encs(&[3.0, -1.5])).unwrap();
    assert_eq!(res, plain);
    assert_eq!(res.iters, 3);
}

#[test]
fn a_later_gradient_longer_than_the_parameter_stops_barzilai_borwein() {
    let mut problem = Bowl::sound();
    problem.long_below = Some(f64::INFINITY);
    let res = run(&descent(), &problem, &[3.0, -1.5]);
    assert_eq!(
        res.err(),
        Some(Error::OperatorEvaluationError {
            text: "GradientDescent: gradient of the wrong length."
        })
    );
}

#[test]
fn the_line_search_is_given_all_of_a_long_gradient() {
    let mut problem = Bowl::sound();
    problem.long_below = Some(f64::INFINITY);
    let mut gd = descent();
    gd.gamma_update(GDGammaUpdate::BacktrackingLineSearch(Probe { fails: false })).max_iters(2);
    let res = run(&gd, &problem, &[1.0, 0.0]).unwrap();
    let x1 = 1.0 - 2.0 * 0.0001;
    // the direction has the two entries of the gradient and the two beyond them
    let gamma = -(2.0 * x1) + 100.0 * 0.0 + 2000.0;
    let x2 = x1 - (2.0 * x1) * gamma;
    assert_eq!(decs(&res.param), vec![x2, 0.0]);
    assert_eq!(res.iters, 2);
}

#[test]
fn barzilai_borwein_refuses_a_gradient_longer_than_the_other_vectors() {
    let gd = descent();
    let wrong = Err(Error::OperatorEvaluationError {
        text: "GradientDescent: gradient of the wrong length.",
    });
    let (two, three) = (encs(&[1.0, 2.0]), encs(&[1.0, 2.0, 3.0]));
    assert_eq!(gd.update_gamma::<Native>(&two, &three, &three, &three), wrong);
    assert_eq!(gd.update_gamma::<Native>(&three, &two, &three, &three), wrong);
    assert_eq!(gd.update_gamma::<Native>(&three, &three, &three, &two), wrong);
    // a shorter gradient is summed over its own entries
    let gamma = gd.update_gamma::<Native>(
        &encs(&[1.0, 2.0, 3.0]),
        &encs(&[0.5, 4.0, 3.0]),
        &encs(&[2.0, 1.0]),
        &encs(&[1.0, 2.0, 9.0, 9.0]),
    );
    assert_eq!(gamma.map(dec), Ok(2.5 / 2.0));
}

#[test]
fn the_other_rules_take_vectors_of_any_length() {
    let (one, three) = (encs(&[1.0]), encs(&[3.0, -4.0, 5.0]));
    let mut gd = descent();
    gd.gamma_update(GDGammaUpdate::Constant(enc(0.75)));
    assert_eq!(gd.update_gamma::<Native>(&one, &[], &three, &one).map(dec), Ok(0.75));
    gd.gamma_update(GDGammaUpdate::BacktrackingLineSearch(Probe { fails: false }));
    let gamma = gd.update_gamma::<Native>(&encs(&[1.0, 2.0]), &[], &three, &one);
    assert_eq!(gamma.map(dec), Ok(-3.0 + 200.0 + 1000.0));
}

#[test]
fn a_short_parameter_runs_where_the_bound_allows_one_move() {
    for bound in [0u64, 1] {
        let mut gd = descent();
        gd.gamma_update(GDGammaUpdate::Constant(enc(0.25))).max_iters(bound);
        let res = run(&gd, &Bowl::sound(), &[8.0]).unwrap();
        assert_eq!(decs(&res.param), vec![4.0]);
        assert_eq!(res.iters, 1);
        assert_eq!(dec(res.cost), 16.0);
    }
}

#[test]
fn two_runs_on_the_same_input_give_the_same_result() {
    for init in [vec![3.0, -1.5], vec![8.0, -4.0, 2.0]] {
        let first = run(&descent(), &Bowl::sound(), &init).unwrap();
        let second = run(&descent(), &Bowl::sound(), &init).unwrap();
        assert_eq!(first, second);
    }
}

#[test]
fn a_descent_without_a_line_search() {
    let mut gd: GradientDescent<NoLineSearch> = GradientDescent::new();
    gd.max_iters(3);
    let res = gd.run::<Native, Bowl>(&Bowl::sound(), &encs(&[3.0, -1.5])).unwrap();
    assert_eq!(res, run(&descent(), &Bowl::sound(), &[3.0, -1.5]).unwrap());
    gd.gamma_update(GDGammaUpdate::BacktrackingLineSearch(NoLineSearch));
    let res = gd.run::<Native, Bowl>(&Bowl::sound(), &encs(&[3.0, -1.5]));
    assert_eq!(
        res.err(),
        Some(Error::InvalidParameter { text: "GradientDescent: no line search was given." })
    );
}
