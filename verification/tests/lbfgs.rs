use opensrdk_optimization::lbfgs::DEFAULT_MEMORY;
use opensrdk_optimization::{
    two_loop_schedule, Curvature, Evaluation, History, Lbfgs, LbfgsRun, LineSearch, Op, Status,
    Verdict, Wolfe,
};
use std::cell::Cell;
use std::f64::consts::{E, PI};

type Pair = (Vec<f64>, Vec<f64>, f64);

fn nothing_special<P>(curvature: Curvature<P>) -> Evaluation<P> {
    Evaluation {
        finite: true,
        delta: false,
        epsilon: false,
        curvature,
    }
}

/// A run that has taken `steps` steps, each with the pair of its number.
fn run_after(settings: Lbfgs, steps: usize) -> LbfgsRun<usize> {
    let mut run = settings.start();
    for step in 0..steps {
        assert_eq!(run.observe(nothing_special(Curvature::Pair(step))), None);
        assert_eq!(run.advance(true), None);
    }
    run
}

/// A run over pairs of bytes that has taken `steps` steps.
fn run_after_steps(steps: u8) -> LbfgsRun<u8> {
    let mut run = Lbfgs::default().start();
    for step in 0..steps {
        assert_eq!(run.observe(nothing_special(Curvature::Pair(step))), None);
        assert_eq!(run.advance(true), None);
    }
    run
}

fn dot(a: &[f64], b: &[f64]) -> f64 {
    a.iter().zip(b.iter()).map(|(ai, bi)| ai * bi).sum()
}

fn norm(a: &[f64]) -> f64 {
    dot(a, a).sqrt()
}

fn direction(gradient: &[f64], history: &History<Pair>) -> Vec<f64> {
    let mut alpha = vec![0.0; history.len()];
    let mut z = gradient.to_vec();
    for op in two_loop_schedule(history.len()) {
        match op {
            Op::Backward(i) => {
                let (s, y, rho) = history.get(i).unwrap();
                alpha[i] = rho * dot(s, &z);
                for (zj, yj) in z.iter_mut().zip(y.iter()) {
                    *zj -= alpha[i] * yj;
                }
            }
            Op::Scale(i) => {
                let (s, y, _) = history.get(i).unwrap();
                let gamma = dot(s, y) / dot(y, y);
                for zj in z.iter_mut() {
                    *zj *= gamma;
                }
            }
            Op::Forward(i) => {
                let (s, y, rho) = history.get(i).unwrap();
                let beta = rho * dot(y, &z);
                for (zj, sj) in z.iter_mut().zip(s.iter()) {
                    *zj += (alpha[i] - beta) * sj;
                }
            }
            Op::Negate => {
                for zj in z.iter_mut() {
                    *zj = -*zj;
                }
            }
        }
    }
    z
}

fn line_search(
    settings: LineSearch,
    fx_gfx: &dyn Fn(&[f64]) -> Result<(f64, Vec<f64>), String>,
    x: &[f64],
    d: &[f64],
) -> Result<f64, String> {
    let mut step = 1.0;
    let mut search = settings.begin();
    let (fx, gfx) = fx_gfx(x)?;
    let slope = dot(&gfx, d);
    loop {
        let xad = x
            .iter()
            .zip(d.iter())
            .map(|(xi, di)| xi + step * di)
            .collect::<Vec<_>>();
        let (fxad, gfxad) = fx_gfx(&xad)?;
        let wolfe = Wolfe {
            armijo: fxad <= fx + 0.1 * step * slope,
            curvature: 0.9 * slope <= dot(&gfxad, d),
        };
        match search.judge(wolfe) {
            Verdict::Accept => return Ok(step),
            Verdict::Shrink => step *= 0.9,
            Verdict::Grow => step *= 1.1,
            Verdict::GiveUp => return Err("line search gave up".to_string()),
        }
    }
}

/// Minimizes from `x` with the thresholds 1e-6 and returns the status with
/// the number of iterations begun.
fn minimize(
    settings: Lbfgs,
    x: &mut [f64],
    fx_gfx: &dyn Fn(&[f64]) -> Result<(f64, Vec<f64>), String>,
) -> Result<(Status, usize), String> {
    let mut run = settings.start::<Pair>();
    let mut x_prev = x.to_vec();
    let mut fx_prev = 0.0;
    let mut gfx_prev = vec![0.0; x.len()];
    loop {
        let (fx, gfx) = fx_gfx(x)?;
        let s = x
            .iter()
            .zip(x_prev.iter())
            .map(|(a, b)| a - b)
            .collect::<Vec<_>>();
        let y = gfx
            .iter()
            .zip(gfx_prev.iter())
            .map(|(a, b)| a - b)
            .collect::<Vec<_>>();
        let ys = dot(&y, &s);
        let rho = 1.0 / ys;
        let curvature = if !run.wants_curvature() || ys == 0.0 || !rho.is_finite() {
            Curvature::Degenerate
        } else {
            Curvature::Pair((s, y, rho))
        };
        let evaluation = Evaluation {
            finite: fx.is_finite() && gfx.iter().all(|gi| gi.is_finite()),
            delta: (fx - fx_prev).abs() / fx.abs() < 1e-6,
            epsilon: norm(&gfx) < 1e-6,
            curvature,
        };
        if let Some(status) = run.observe(evaluation) {
            return Ok((status, run.iteration()));
        }
        let d = direction(&gfx, run.history());
        let step = line_search(settings.line_search(), fx_gfx, x, &d)?;
        let dx = d.iter().map(|di| step * di).collect::<Vec<_>>();
        if let Some(status) = run.advance(norm(&dx).is_finite()) {
            return Ok((status, run.iteration()));
        }
        x_prev.copy_from_slice(x);
        for (xi, dxi) in x.iter_mut().zip(dx.iter()) {
            *xi += dxi;
        }
        fx_prev = fx;
        gfx_prev = gfx;
    }
}

fn numerical_diff(func: &dyn Fn(&[f64]) -> f64, x: &[f64], h: f64) -> Vec<f64> {
    (0..x.len())
        .map(|i| {
            let mut add = x.to_vec();
            let mut sub = x.to_vec();
            let h = if x[i] == 0.0 { h } else { x[i].abs() * h };
            add[i] += h;
            sub[i] -= h;
            (func(&add) - func(&sub)) / (2.0 * h)
        })
        .collect()
}

#[test]
fn l_bfgs_it_works() {
    assert_eq!(2 + 2, 4);
}

#[test]
fn lbfgs_it_works() {
    let mut x = vec![1.2, 3.456789];

    let fx_gfx = |x: &[f64]| {
        let fx = 1.0 + 2.0 * x[0].powi(2) + 3.0 * x[1].powi(4);
        let gx = vec![4.0 * x[0], 12.0 * x[1].powi(3)];

        Ok((fx, gx))
    };
    minimize(Lbfgs::default(), &mut x, &fx_gfx).unwrap();
}

#[test]
fn result() {
    let mut x = vec![1.2, 3.456789];

    let fx_gfx = |x: &[f64]| {
        let fx = 1.0 + 2.0 * x[0].powi(2) + 3.0 * x[1].powi(4);
        let gx = vec![4.0 * x[0], 12.0 * x[1].powi(3)];

        Ok((fx, gx))
    };
    let outcome = minimize(Lbfgs::default(), &mut x, &fx_gfx);

    println!("x: {:#?}", x);

    assert!(outcome.is_ok());
    assert!(x[0].abs() < 1e-2);
    assert!(x[1].abs() < 1e-1);
}

#[test]
fn result_() {
    let mut x = vec![30.0, -20.0];

    let fx = |x: &[f64]| {
        20.0 - 20.0
            * (-0.2 * (1.0 / x.len() as f64 * x.iter().map(|xi| xi.powi(2)).sum::<f64>()).sqrt())
                .exp()
            + E
            - (1.0 / x.len() as f64 * x.iter().map(|xi| (2.0 * PI * xi).cos()).sum::<f64>()).exp()
    };
    let fx_gfx = |x: &[f64]| {
        let gfx = numerical_diff(&fx, x, 1e-3);
        println!("{:#?}", gfx);

        Ok((fx(x), gfx))
    };
    let start = fx(&x);
    let outcome = minimize(Lbfgs::default(), &mut x, &fx_gfx);

    println!("x: {:#?}", x);

    assert!(outcome.is_ok());
    assert!(fx(&x) <= start);
}

#[test]
fn default_settings() {
    let settings = Lbfgs::default();
    assert_eq!(DEFAULT_MEMORY, 8);
    assert_eq!(settings.memory(), 8);
    assert_eq!(settings.max_iter(), 0);
    assert_eq!(settings.line_search(), LineSearch::default());
}

#[test]
fn builders_change_one_setting_each() {
    let search = LineSearch::default().with_max_adjustments(5);
    let settings = Lbfgs::default().with_memory(3);
    assert_eq!((settings.memory(), settings.max_iter()), (3, 0));
    assert_eq!(settings.line_search(), LineSearch::default());
    let settings = settings.with_max_iter(40);
    assert_eq!((settings.memory(), settings.max_iter()), (3, 40));
    assert_eq!(settings.line_search(), LineSearch::default());
    let settings = settings.with_line_search(search);
    assert_eq!((settings.memory(), settings.max_iter()), (3, 40));
    assert_eq!(settings.line_search(), search);
}

#[test]
fn a_run_starts_at_iteration_one_with_an_empty_history() {
    let run: LbfgsRun<Pair> = Lbfgs::default().with_memory(5).start();
    assert_eq!(run.iteration(), 1);
    assert_eq!(run.status(), None);
    assert!(!run.wants_curvature());
    assert_eq!(run.history().len(), 0);
    assert_eq!(run.history().capacity(), 5);
    assert_eq!(two_loop_schedule(run.history().len()), vec![Op::Negate]);
}

#[test]
fn an_evaluation_that_stops_nothing_lets_the_run_go_on() {
    let mut run = Lbfgs::default().start();
    assert_eq!(run.observe(nothing_special(Curvature::Pair(1))), None);
    assert_eq!(run.status(), None);
    assert_eq!(run.iteration(), 1);
    assert_eq!(run.advance(true), None);
    assert_eq!(run.iteration(), 2);
    assert!(run.wants_curvature());
}

#[test]
fn the_first_iteration_takes_no_pair() {
    let mut run = Lbfgs::default().start();
    assert_eq!(run.observe(nothing_special(Curvature::Pair(1))), None);
    assert_eq!(run.history().len(), 0);
    let mut run: LbfgsRun<u8> = Lbfgs::default().start();
    assert_eq!(run.observe(nothing_special(Curvature::Degenerate)), None);
    assert_eq!(run.history().len(), 0);
}

#[test]
fn later_iterations_remember_their_pairs_in_order() {
    let run = run_after(Lbfgs::default(), 4);
    assert_eq!(run.iteration(), 5);
    assert_eq!(run.history().len(), 3);
    assert_eq!(run.history().get(0), Some(&1));
    assert_eq!(run.history().get(1), Some(&2));
    assert_eq!(run.history().get(2), Some(&3));
}

#[test]
fn the_history_of_a_run_never_exceeds_its_memory() {
    let memory = 3;
    let mut run = Lbfgs::default().with_memory(memory).start();
    for step in 0..20usize {
        assert_eq!(run.observe(nothing_special(Curvature::Pair(step))), None);
        assert!(run.history().len() <= memory);
        assert_eq!(run.history().len(), std::cmp::min(step, memory));
        if step > 0 {
            assert_eq!(run.history().newest(), Some(&step));
        }
        assert_eq!(run.advance(true), None);
    }
    assert_eq!(run.history().get(0), Some(&17));
}

#[test]
fn a_run_without_memory_keeps_no_pair() {
    let run = run_after(Lbfgs::default().with_memory(0), 5);
    assert_eq!(run.history().len(), 0);
}

#[test]
fn a_run_stops_at_its_iteration_limit() {
    let mut run = run_after(Lbfgs::default().with_max_iter(3), 2);
    assert_eq!(run.iteration(), 3);
    assert_eq!(
        run.observe(nothing_special(Curvature::Pair(9))),
        Some(Status::MaxIter)
    );
    assert_eq!(run.status(), Some(Status::MaxIter));
    assert_eq!(run.history().len(), 1);
}

#[test]
fn an_iteration_limit_of_one_stops_the_first_iteration() {
    let mut run: LbfgsRun<u8> = Lbfgs::default().with_max_iter(1).start();
    assert_eq!(
        run.observe(nothing_special(Curvature::Degenerate)),
        Some(Status::MaxIter)
    );
}

#[test]
fn the_iteration_limit_comes_before_every_other_test() {
    let mut run: LbfgsRun<u8> = Lbfgs::default().with_max_iter(1).start();
    let evaluation = Evaluation {
        finite: false,
        delta: true,
        epsilon: true,
        curvature: Curvature::Degenerate,
    };
    assert_eq!(run.observe(evaluation), Some(Status::MaxIter));
}

#[test]
fn a_value_that_has_stopped_changing_ends_the_run() {
    let mut run: LbfgsRun<u8> = Lbfgs::default().start();
    let evaluation = Evaluation {
        finite: true,
        delta: true,
        epsilon: true,
        curvature: Curvature::Pair(1),
    };
    assert_eq!(run.observe(evaluation), Some(Status::Delta));
}

#[test]
fn a_small_gradient_ends_the_run() {
    let mut run: LbfgsRun<u8> = Lbfgs::default().start();
    let evaluation = Evaluation {
        finite: true,
        delta: false,
        epsilon: true,
        curvature: Curvature::Pair(1),
    };
    assert_eq!(run.observe(evaluation), Some(Status::Epsilon));
}

#[test]
fn an_evaluation_that_is_not_finite_ends_the_run() {
    let mut run = run_after(Lbfgs::default(), 2);
    let evaluation = Evaluation {
        finite: false,
        delta: false,
        epsilon: false,
        curvature: Curvature::Pair(9),
    };
    assert_eq!(run.observe(evaluation), Some(Status::NaN));
    assert_eq!(run.history().len(), 1);
}

#[test]
fn an_evaluation_that_is_not_finite_ends_the_first_iteration_too() {
    let mut run: LbfgsRun<u8> = Lbfgs::default().start();
    let evaluation = Evaluation {
        finite: false,
        delta: false,
        epsilon: false,
        curvature: Curvature::Degenerate,
    };
    assert_eq!(run.observe(evaluation), Some(Status::NaN));
}

#[test]
fn what_is_not_finite_comes_before_a_degenerate_pair() {
    let mut run: LbfgsRun<u8> = run_after_steps(1);
    let evaluation = Evaluation {
        finite: false,
        delta: false,
        epsilon: false,
        curvature: Curvature::Degenerate,
    };
    assert_eq!(run.observe(evaluation), Some(Status::NaN));
}

#[test]
fn a_value_that_has_stopped_changing_comes_before_what_is_not_finite() {
    let mut run = run_after(Lbfgs::default(), 2);
    let evaluation = Evaluation {
        finite: false,
        delta: true,
        epsilon: false,
        curvature: Curvature::Degenerate,
    };
    assert_eq!(run.observe(evaluation), Some(Status::Delta));
    assert_eq!(run.history().len(), 1);
}

#[test]
fn a_small_gradient_comes_before_what_is_not_finite() {
    let mut run = run_after(Lbfgs::default(), 2);
    let evaluation = Evaluation {
        finite: false,
        delta: false,
        epsilon: true,
        curvature: Curvature::Degenerate,
    };
    assert_eq!(run.observe(evaluation), Some(Status::Epsilon));
    assert_eq!(run.history().len(), 1);
}

#[test]
fn the_change_of_the_value_comes_before_the_gradient() {
    let mut run = run_after(Lbfgs::default(), 2);
    let evaluation = Evaluation {
        finite: true,
        delta: true,
        epsilon: true,
        curvature: Curvature::Pair(9),
    };
    assert_eq!(run.observe(evaluation), Some(Status::Delta));
}

#[test]
fn a_degenerate_pair_ends_the_run_without_an_error() {
    let mut run = run_after(Lbfgs::default(), 1);
    assert_eq!(
        run.observe(nothing_special(Curvature::Degenerate)),
        Some(Status::Delta)
    );
    assert_eq!(run.history().len(), 0);
}

#[test]
fn a_step_that_is_not_finite_ends_the_run() {
    let mut run: LbfgsRun<u8> = Lbfgs::default().start();
    assert_eq!(run.observe(nothing_special(Curvature::Degenerate)), None);
    assert_eq!(run.advance(false), Some(Status::NaN));
    assert_eq!(run.iteration(), 1);
}

#[test]
fn a_run_that_has_ended_stays_ended() {
    let mut run = run_after(Lbfgs::default().with_max_iter(2), 1);
    assert_eq!(
        run.observe(nothing_special(Curvature::Pair(5))),
        Some(Status::MaxIter)
    );
    assert_eq!(run.advance(false), Some(Status::MaxIter));
    assert_eq!(run.advance(true), Some(Status::MaxIter));
    let evaluation = Evaluation {
        finite: true,
        delta: true,
        epsilon: false,
        curvature: Curvature::Pair(6),
    };
    assert_eq!(run.observe(evaluation), Some(Status::MaxIter));
    assert_eq!(run.iteration(), 2);
    assert_eq!(run.history().len(), 0);
}

#[test]
fn the_sum_of_squares_is_minimized_within_fifty_iterations() {
    for dimension in 1..=10 {
        let mut x = (0..dimension)
            .map(|i| (i as f64 - 3.5) * 1.75)
            .collect::<Vec<_>>();
        let fx_gfx = |x: &[f64]| {
            Ok((
                x.iter().map(|xi| xi * xi).sum::<f64>(),
                x.iter().map(|xi| 2.0 * xi).collect::<Vec<_>>(),
            ))
        };
        let (status, iterations) = minimize(Lbfgs::default(), &mut x, &fx_gfx).unwrap();
        assert!(status == Status::Epsilon || status == Status::Delta);
        assert!(iterations <= 50);
        assert!(x.iter().all(|xi| (2.0 * xi).abs() < 1e-6));
    }
}

#[test]
fn the_first_step_is_along_the_negated_gradient() {
    let fx_gfx = |x: &[f64]| Ok((x[0] * x[0] + x[1] * x[1], vec![2.0 * x[0], 2.0 * x[1]]));
    let mut x = vec![1.0, -2.0];
    let (status, _) = minimize(Lbfgs::default().with_max_iter(2), &mut x, &fx_gfx).unwrap();
    assert_eq!(status, Status::MaxIter);
    // The direction is -g = (-2, 4); x = (1 - 2 a, -2 + 4 a) for the step a.
    let a = (1.0 - x[0]) / 2.0;
    assert!(a > 0.0);
    assert!((x[1] - (-2.0 + 4.0 * a)).abs() < 1e-12);
}

#[test]
fn a_gradient_that_is_not_a_number_ends_the_run_as_such() {
    let fx_gfx = |x: &[f64]| Ok((x[0] * x[0], vec![f64::NAN]));
    let mut x = vec![1.0];
    let (status, iterations) = minimize(Lbfgs::default(), &mut x, &fx_gfx).unwrap();
    assert_eq!(status, Status::NaN);
    assert_eq!(iterations, 1);
    assert_eq!(x, vec![1.0]);
}

#[test]
fn a_gradient_that_turns_into_no_number_ends_the_run_as_such() {
    // f(x) = x^2 / 2 from 1: the first trial step reaches 0 and is accepted
    // at the third evaluation. The fourth opens the second iteration.
    let calls = Cell::new(0);
    let fx_gfx = |x: &[f64]| {
        calls.set(calls.get() + 1);
        if calls.get() == 4 {
            Ok((x[0] * x[0] / 2.0, vec![f64::NAN]))
        } else {
            Ok((x[0] * x[0] / 2.0, vec![x[0]]))
        }
    };
    let mut x = vec![1.0];
    let (status, iterations) = minimize(Lbfgs::default(), &mut x, &fx_gfx).unwrap();
    assert_eq!(status, Status::NaN);
    assert_eq!(iterations, 2);
    assert_eq!(calls.get(), 4);
    assert!(x[0].is_finite());
}

#[test]
fn an_unchanged_value_ends_the_run_before_its_gradient_is_looked_at() {
    // As above, but the second iteration is shown the value of the first
    // again, under a gradient that is no number.
    let calls = Cell::new(0);
    let fx_gfx = |x: &[f64]| {
        calls.set(calls.get() + 1);
        if calls.get() == 4 {
            Ok((0.5, vec![f64::NAN]))
        } else {
            Ok((x[0] * x[0] / 2.0, vec![x[0]]))
        }
    };
    let mut x = vec![1.0];
    let (status, iterations) = minimize(Lbfgs::default(), &mut x, &fx_gfx).unwrap();
    assert_eq!(status, Status::Delta);
    assert_eq!(iterations, 2);
    assert_eq!(x, vec![0.0]);
}

#[test]
fn a_flat_curvature_ends_the_run_without_a_fault() {
    // As above, but the second iteration is shown the gradient of the first:
    // y = 0 and y . s = 0.
    let calls = Cell::new(0);
    let fx_gfx = |x: &[f64]| {
        calls.set(calls.get() + 1);
        if calls.get() == 4 {
            Ok((x[0] * x[0] / 2.0, vec![1.0]))
        } else {
            Ok((x[0] * x[0] / 2.0, vec![x[0]]))
        }
    };
    let mut x = vec![1.0];
    let (status, iterations) = minimize(Lbfgs::default(), &mut x, &fx_gfx).unwrap();
    assert_eq!(status, Status::Delta);
    assert_eq!(iterations, 2);
    assert_eq!(calls.get(), 4);
    assert_eq!(x, vec![0.0]);
}

#[test]
fn a_search_that_finds_no_step_ends_the_run_with_an_error() {
    // A linear objective has no step at which the slope has flattened.
    let fx_gfx = |x: &[f64]| Ok((10.0 - x[0], vec![-1.0]));
    let mut x = vec![0.0];
    let settings =
        Lbfgs::default().with_line_search(LineSearch::default().with_max_adjustments(20));
    assert_eq!(
        minimize(settings, &mut x, &fx_gfx),
        Err("line search gave up".to_string())
    );
    assert_eq!(x, vec![0.0]);
}

#[test]
fn a_failed_evaluation_ends_the_run_with_its_error() {
    let fx_gfx = |x: &[f64]| {
        if x[0] < 0.9 {
            Err("out of domain".to_string())
        } else {
            Ok((x[0] * x[0], vec![2.0 * x[0]]))
        }
    };
    let mut x = vec![1.0];
    assert_eq!(
        minimize(Lbfgs::default(), &mut x, &fx_gfx),
        Err("out of domain".to_string())
    );
}
