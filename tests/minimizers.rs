use core::f64::consts::{E, PI};
use nalgebra::{Matrix2, Vector2};

use omega_optimizer::minimizers::{
    BacktrackDescent, CombinedDescent, DescentAction, Failure, MinimizerMessage, NewtonAction,
    NewtonDescent, Point, ScheduleAction,
};

const GRADIENT_THRESHOLD: f64 = 1e-12;
const ARMIJO_C: f64 = 0.5;

/// The mean squared error of the line `a·x + b` over a data set.
struct LineError {
    x_ray: Vec<f64>,
    y_ray: Vec<f64>,
}

impl LineError {
    fn line(x: f64, p: &Vector2<f64>) -> f64 {
        p.x * x + p.y
    }

    fn f(&self, p: &Vector2<f64>) -> f64 {
        let mut sum = 0.0;
        for (x, y) in self.x_ray.iter().zip(self.y_ray.iter()) {
            sum += (y - Self::line(*x, p)).powi(2);
        }
        sum / self.x_ray.len() as f64
    }

    fn grad(&self, p: &Vector2<f64>) -> Vector2<f64> {
        let mut gradient = Vector2::zeros();
        for (x, y) in self.x_ray.iter().zip(self.y_ray.iter()) {
            gradient += (y - Self::line(*x, p)) * Vector2::new(*x, 1.0);
        }
        (-2.0 / self.x_ray.len() as f64) * gradient
    }

    fn hess(&self, p: &Vector2<f64>) -> Matrix2<f64> {
        let mut hess = Matrix2::zeros();
        for (x, y) in self.x_ray.iter().zip(self.y_ray.iter()) {
            let g = Vector2::new(*x, 1.0);
            hess += (y - Self::line(*x, p)) * Matrix2::zeros() - g * g.transpose();
        }
        (-2.0 / self.x_ray.len() as f64) * hess
    }
}

/// Noiseless samples of the line with slope e and intercept π at 100 evenly
/// spaced points of [0, 1].
fn line_data() -> LineError {
    const N: usize = 100;
    let parameters = Vector2::new(E, PI);
    let mut x_ray = Vec::with_capacity(N);
    let mut y_ray = Vec::with_capacity(N);
    for i in 0..N {
        let x = i as f64 / ((N - 1) as f64);
        x_ray.push(x);
        y_ray.push(LineError::line(x, &parameters));
    }
    LineError { x_ray, y_ray }
}

fn backtrack(x0: &Vector2<f64>, function: &LineError, max_steps: usize) -> (Vector2<f64>, MinimizerMessage) {
    let mut machine = BacktrackDescent::new(max_steps);
    let mut x = *x0;
    let mut g = Vector2::zeros();
    let (mut f_val, mut t) = (0.0, 0.0);
    let mut action = machine.pending();
    loop {
        action = match action {
            DescentAction::CheckGradient { step } => {
                if let Some(e) = step {
                    x -= 2f64.powi(-(e as i32)) * g;
                }
                g = function.grad(&x);
                let g_norm = g.dot(&g).sqrt();
                f_val = function.f(&x);
                t = ARMIJO_C * g_norm.powi(2);
                machine.answer(g_norm < GRADIENT_THRESHOLD)
            }
            DescentAction::CheckStep { exponent } => {
                let alpha = 2f64.powi(-(exponent as i32));
                machine.answer(f_val - function.f(&(x - alpha * g)) >= alpha * t)
            }
            DescentAction::Finish { step, message } => {
                if let Some(e) = step {
                    x -= 2f64.powi(-(e as i32)) * g;
                }
                return (x, message);
            }
        };
    }
}

fn newton(x0: &Vector2<f64>, function: &LineError, max_steps: usize) -> (Vector2<f64>, MinimizerMessage) {
    let mut machine = NewtonDescent::new(max_steps);
    let mut x = *x0;
    let mut prev_f = f64::INFINITY;
    let mut g = Vector2::zeros();
    let mut inv_hess = Matrix2::zeros();
    let mut candidate = x;
    let mut action = machine.pending();
    loop {
        action = match action {
            NewtonAction::CheckPositiveDefinite => machine.answer(function.hess(&x).cholesky().is_some()),
            NewtonAction::CheckGradient { step } => {
                if step.is_some() {
                    x = candidate;
                    prev_f = function.f(&x);
                }
                g = function.grad(&x);
                machine.answer(g.dot(&g).sqrt() < GRADIENT_THRESHOLD)
            }
            NewtonAction::InvertHessian => match function.hess(&x).try_inverse() {
                Some(inverse) => {
                    inv_hess = inverse;
                    machine.answer(true)
                }
                None => machine.answer(false),
            },
            NewtonAction::CheckDecrease { halvings } => {
                candidate = x - 0.5f64.powi(halvings as i32) * inv_hess * g;
                machine.answer(function.f(&candidate) < prev_f)
            }
            NewtonAction::Finish { step, message } => {
                if step.is_some() {
                    x = candidate;
                }
                return (x, message);
            }
        };
    }
}

fn combined(x0: &Vector2<f64>, function: &LineError) -> (Vector2<f64>, MinimizerMessage) {
    let mut schedule = CombinedDescent::new();
    let mut best = *x0;
    let mut best_f = function.f(&best);
    let (mut trial, mut trial_f, mut refined) = (best, best_f, best);
    let mut action = schedule.pending();
    loop {
        action = match action {
            ScheduleAction::Backtrack { adopt, max_steps } => {
                match adopt {
                    Some(Point::Trial) => {
                        best = trial;
                        best_f = trial_f;
                    }
                    Some(Point::Refined) => {
                        best = refined;
                        best_f = function.f(&refined);
                    }
                    _ => {}
                }
                let (point, message) = backtrack(&best, function, max_steps);
                trial = point;
                trial_f = function.f(&trial);
                schedule.report(message, !(trial_f > best_f))
            }
            ScheduleAction::Newton { max_steps } => {
                let (point, message) = newton(&trial, function, max_steps);
                refined = point;
                schedule.report(message, function.f(&refined) < trial_f)
            }
            ScheduleAction::FinishWithNewton { max_steps } => return newton(&refined, function, max_steps),
            ScheduleAction::Finish { point, message } => {
                let chosen = match point {
                    Point::Best => best,
                    Point::Trial => trial,
                    Point::Refined => refined,
                };
                return (chosen, message);
            }
        };
    }
}

#[derive(Debug)]
enum Mode {
    Backtrack,
    Newton,
    Combined,
}

fn test_minimizer(mode: Mode) {
    let parameters = Vector2::new(E, PI);
    let error_function = line_data();
    let p0 = Vector2::from_element(1.0);
    let (optimal_parameters, message) = match mode {
        Mode::Backtrack => backtrack(&p0, &error_function, 1000),
        Mode::Newton => newton(&p0, &error_function, 10),
        Mode::Combined => combined(&p0, &error_function),
    };

    let MinimizerMessage::Success = message else {
        let error = match message {
            MinimizerMessage::TimedOut => "Timed out",
            MinimizerMessage::Error(failure) => failure.reason(),
            MinimizerMessage::Success => "???",
        };
        panic!("{:?} got error: {:?}", mode, error);
    };

    let threshold = match mode {
        Mode::Backtrack => 1e-10,
        Mode::Newton => 1e-14,
        Mode::Combined => 0.0,
    };

    if (optimal_parameters - parameters).abs().max() > threshold {
        panic!(
            "{:?} got wrong parameters! {:?} > {}",
            mode,
            (optimal_parameters - parameters).abs(),
            threshold,
        );
    }
}

#[test]
fn test_newton_descent() {
    test_minimizer(Mode::Newton);
}

#[test]
fn test_backtrack_descent() {
    test_minimizer(Mode::Backtrack);
}

#[test]
fn test_combined_descent() {
    test_minimizer(Mode::Combined);
}

#[test]
fn refitting_a_converged_fit_succeeds_at_once() {
    let error_function = line_data();
    let (first, message) = combined(&Vector2::from_element(1.0), &error_function);
    assert_eq!(message, MinimizerMessage::Success);
    let (second, message) = combined(&first, &error_function);
    assert_eq!(message, MinimizerMessage::Success);
    assert_eq!(second, first);
}

#[test]
fn backtrack_stops_at_once_on_a_vanishing_gradient() {
    let mut machine = BacktrackDescent::new(10);
    assert_eq!(machine.pending(), DescentAction::CheckGradient { step: None });
    assert_eq!(
        machine.answer(true),
        DescentAction::Finish { step: None, message: MinimizerMessage::Success }
    );
    assert_eq!(
        machine.answer(false),
        DescentAction::Finish { step: None, message: MinimizerMessage::Success }
    );
}

#[test]
fn backtrack_without_budget_times_out() {
    let machine = BacktrackDescent::new(0);
    assert_eq!(
        machine.pending(),
        DescentAction::Finish { step: None, message: MinimizerMessage::TimedOut }
    );
}

#[test]
fn backtrack_grows_then_backs_off_once() {
    let mut machine = BacktrackDescent::new(3);
    assert_eq!(machine.answer(false), DescentAction::CheckStep { exponent: 0 });
    assert_eq!(machine.answer(true), DescentAction::CheckStep { exponent: -1 });
    assert_eq!(machine.answer(true), DescentAction::CheckStep { exponent: -2 });
    assert_eq!(machine.answer(false), DescentAction::CheckGradient { step: Some(-1) });
    // The next search starts from the accepted size.
    assert_eq!(machine.answer(false), DescentAction::CheckStep { exponent: -1 });
    assert_eq!(machine.answer(false), DescentAction::CheckStep { exponent: 0 });
    assert_eq!(machine.answer(true), DescentAction::CheckGradient { step: Some(0) });
    assert_eq!(machine.answer(false), DescentAction::CheckStep { exponent: 0 });
    assert_eq!(machine.answer(true), DescentAction::CheckStep { exponent: -1 });
    assert_eq!(
        machine.answer(false),
        DescentAction::Finish { step: Some(0), message: MinimizerMessage::TimedOut }
    );
}

#[test]
fn backtrack_collapses_below_machine_epsilon() {
    let mut machine = BacktrackDescent::new(5);
    machine.answer(false);
    let mut tried = Vec::new();
    let mut action = machine.answer(false);
    while let DescentAction::CheckStep { exponent } = action {
        tried.push(exponent);
        action = machine.answer(false);
    }
    assert_eq!(tried, (1..52).collect::<Vec<i64>>());
    assert_eq!(
        action,
        DescentAction::Finish { step: None, message: MinimizerMessage::Error(Failure::StepCollapsed) }
    );
}

#[test]
fn newton_rejects_an_indefinite_start() {
    let mut machine = NewtonDescent::new(10);
    assert_eq!(machine.pending(), NewtonAction::CheckPositiveDefinite);
    assert_eq!(
        machine.answer(false),
        NewtonAction::Finish {
            step: None,
            message: MinimizerMessage::Error(Failure::NotPositiveDefinite)
        }
    );
}

#[test]
fn newton_reports_a_singular_hessian() {
    let mut machine = NewtonDescent::new(10);
    assert_eq!(machine.answer(true), NewtonAction::CheckGradient { step: None });
    assert_eq!(machine.answer(false), NewtonAction::InvertHessian);
    assert_eq!(
        machine.answer(false),
        NewtonAction::Finish { step: None, message: MinimizerMessage::Error(Failure::Singular) }
    );
}

#[test]
fn newton_damping_underflow_counts_as_success() {
    let mut machine = NewtonDescent::new(10);
    machine.answer(true);
    machine.answer(false);
    let mut action = machine.answer(true);
    let mut tried = Vec::new();
    while let NewtonAction::CheckDecrease { halvings } = action {
        tried.push(halvings);
        action = machine.answer(false);
    }
    assert_eq!(tried, (0..53).collect::<Vec<u32>>());
    assert_eq!(action, NewtonAction::Finish { step: None, message: MinimizerMessage::Success });
}

#[test]
fn newton_times_out_after_its_budget() {
    let mut machine = NewtonDescent::new(1);
    machine.answer(true);
    machine.answer(false);
    machine.answer(true);
    assert_eq!(machine.pending(), NewtonAction::CheckDecrease { halvings: 0 });
    assert_eq!(machine.answer(false), NewtonAction::CheckDecrease { halvings: 1 });
    assert_eq!(
        machine.answer(true),
        NewtonAction::Finish { step: Some(1), message: MinimizerMessage::TimedOut }
    );
}

#[test]
fn schedule_falls_back_when_newton_rejects_the_start() {
    let mut schedule = CombinedDescent::new();
    assert_eq!(schedule.pending(), ScheduleAction::Backtrack { adopt: None, max_steps: 10 });
    assert_eq!(
        schedule.report(MinimizerMessage::TimedOut, true),
        ScheduleAction::Newton { max_steps: 10 }
    );
    assert_eq!(
        schedule.report(MinimizerMessage::Error(Failure::NotPositiveDefinite), false),
        ScheduleAction::Backtrack { adopt: Some(Point::Trial), max_steps: 100 }
    );
    assert_eq!(
        schedule.report(MinimizerMessage::TimedOut, true),
        ScheduleAction::Newton { max_steps: 10 }
    );
    assert_eq!(
        schedule.report(MinimizerMessage::Error(Failure::Singular), true),
        ScheduleAction::Backtrack { adopt: Some(Point::Refined), max_steps: 1000 }
    );
}

#[test]
fn schedule_gives_up_after_the_largest_budget() {
    let mut schedule = CombinedDescent::new();
    let mut budgets = Vec::new();
    let mut action = schedule.pending();
    loop {
        action = match action {
            ScheduleAction::Backtrack { max_steps, .. } => {
                budgets.push(max_steps);
                schedule.report(MinimizerMessage::TimedOut, true)
            }
            ScheduleAction::Newton { .. } => schedule.report(MinimizerMessage::TimedOut, false),
            other => break assert_eq!(
                other,
                ScheduleAction::Finish {
                    point: Point::Trial,
                    message: MinimizerMessage::Error(Failure::DidNotConverge)
                }
            ),
        };
    }
    assert_eq!(budgets, vec![10, 100, 1000, 10_000]);
}

#[test]
fn schedule_escalates_newton_that_makes_progress() {
    let mut schedule = CombinedDescent::new();
    schedule.report(MinimizerMessage::TimedOut, true);
    assert_eq!(
        schedule.report(MinimizerMessage::TimedOut, true),
        ScheduleAction::FinishWithNewton { max_steps: 10_000 }
    );
}

#[test]
fn schedule_aborts_on_backtracking_failures() {
    let mut schedule = CombinedDescent::new();
    assert_eq!(
        schedule.report(MinimizerMessage::TimedOut, false),
        ScheduleAction::Finish {
            point: Point::Best,
            message: MinimizerMessage::Error(Failure::BacktrackIncreasedError)
        }
    );

    let mut schedule = CombinedDescent::new();
    assert_eq!(
        schedule.report(MinimizerMessage::Error(Failure::StepCollapsed), true),
        ScheduleAction::Finish {
            point: Point::Best,
            message: MinimizerMessage::Error(Failure::BacktrackCannotImprove)
        }
    );

    let mut schedule = CombinedDescent::new();
    assert_eq!(
        schedule.report(MinimizerMessage::Success, true),
        ScheduleAction::Finish { point: Point::Trial, message: MinimizerMessage::Success }
    );
}

#[test]
fn failures_explain_themselves() {
    assert_eq!(Failure::NotPositiveDefinite.reason(), "Hessian is not positive-definite!");
    assert_eq!(Failure::Singular.reason(), "Hessian is singular!");
    assert_eq!(Failure::StepCollapsed.reason(), "Backtrack step size collapsed");
    assert_eq!(Failure::BacktrackCannotImprove.reason(), "Backtrack can't improve");
    assert_eq!(Failure::BacktrackIncreasedError.reason(), "Backtrack increased error?!");
    assert_eq!(Failure::DidNotConverge.reason(), "Combined descent never converged");
}

#[test]
fn search_shrinks_to_the_first_passing_size() {
    // Sizes 2^(-3) and smaller pass; the first trial, size 1, fails.
    let accepts = |exponent: i64| exponent >= 3;
    let mut machine = BacktrackDescent::new(2);
    let mut action = machine.answer(false);
    let mut tried = Vec::new();
    while let DescentAction::CheckStep { exponent } = action {
        tried.push(exponent);
        action = machine.answer(accepts(exponent));
    }
    assert_eq!(tried, vec![0, 1, 2, 3]);
    assert_eq!(action, DescentAction::CheckGradient { step: Some(3) });

    // The next search starts at 2^(-3), passes, and grows until 2^(-2) fails.
    let mut action = machine.answer(false);
    let mut tried = Vec::new();
    while let DescentAction::CheckStep { exponent } = action {
        tried.push(exponent);
        action = machine.answer(accepts(exponent));
    }
    assert_eq!(tried, vec![3, 2]);
    assert_eq!(
        action,
        DescentAction::Finish { step: Some(3), message: MinimizerMessage::TimedOut }
    );
}
