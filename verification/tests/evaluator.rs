//! Tests of the escape-time evaluator, driven through the verified decision
//! core: the floating-point iterate update and the smoothing logarithms run
//! here, and every decision (keep iterating, interior, escaped) and every
//! reported value comes from the library.

use mandelbrot_common::escape::{empty_budget_value, escape_value, step_outcome, StepOutcome};

/// Escape-time evaluation of the point `re + im*i`: iterate `z = z*z + c`
/// from `z = c`, asking the library at each step whether to continue, and
/// letting it turn the exit step and the rounded smoothing term into a byte.
fn evaluate(re: f64, im: f64, threshold: f64, max_steps: u8) -> u8 {
    if max_steps == 0 {
        return empty_budget_value();
    }
    let mut z_re: f64 = re;
    let mut z_im: f64 = im;
    let mut i: u8 = 1;
    loop {
        let norm_sqr: f64 = z_re * z_re + z_im * z_im;
        let below: bool = norm_sqr < threshold;
        match step_outcome(i, max_steps, below) {
            StepOutcome::KeepIterating => {
                let next_re: f64 = z_re * z_re - z_im * z_im + re;
                let next_im: f64 = 2.0 * (z_re * z_im) + im;
                z_re = next_re;
                z_im = next_im;
                i += 1;
            }
            StepOutcome::Interior => {
                return max_steps;
            }
            StepOutcome::Escaped => {
                let correction: u8 = norm_sqr.log2().log10().round() as u8;
                if correction <= i {
                    return escape_value(i, max_steps, correction);
                } else {
                    return i + 1 - correction;
                }
            }
        }
    }
}

#[test]
fn mandelbrot_it_works() {
    assert_eq!(evaluate(-2.0, 3.0, 4.0, 50u8), 1);
    assert_eq!(evaluate(-10000.0, 10000.0, 4.0, 50u8), 1);
    assert_eq!(evaluate(0.0, 0.0, 4.0, 50u8), 50);
    assert_eq!(evaluate(-1.0, 0.12, 4.0, 50u8), 50);
    assert_eq!(evaluate(-0.88, -0.44, 4.0, 50u8), 7);
}

#[test]
fn interior_sentinel() {
    assert_eq!(evaluate(0.0, 0.0, 4.0, 50), 50);
}

#[test]
fn immediate_escape() {
    assert_eq!(evaluate(-2.0, 3.0, 4.0, 50), 1);
    assert_eq!(evaluate(-10000.0, 10000.0, 4.0, 50), 1);
}

#[test]
fn smoothed_mid_range() {
    assert_eq!(evaluate(-0.88, -0.44, 4.0, 50), 7);
}

#[test]
fn near_boundary_interior() {
    assert_eq!(evaluate(-1.0, 0.12, 4.0, 50), 50);
}

#[test]
fn deterministic_evaluation() {
    let points: [(f64, f64); 4] = [(0.0, 0.0), (-0.88, -0.44), (-2.0, 3.0), (0.3, 0.5)];
    for &(re, im) in points.iter() {
        let first: u8 = evaluate(re, im, 4.0, 50);
        let second: u8 = evaluate(re, im, 4.0, 50);
        assert_eq!(first, second);
    }
}

#[test]
fn monotonic_budget() {
    let small: u8 = evaluate(-1.0, 0.12, 4.0, 10);
    assert_eq!(small, 10);
    let mut previous: u8 = small;
    for budget in 11u8..=80u8 {
        let value: u8 = evaluate(-1.0, 0.12, 4.0, budget);
        assert!(value >= previous);
        previous = value;
    }
    assert_eq!(evaluate(0.0, 0.0, 4.0, 10), 10);
    assert_eq!(evaluate(0.0, 0.0, 4.0, 255), 255);
}

#[test]
fn zero_budget_reports_instant_escape() {
    assert_eq!(evaluate(0.5, 0.5, 4.0, 0), 1);
    assert_eq!(evaluate(0.0, 0.0, 4.0, 0), 1);
}

#[test]
fn termination_policy_values() {
    assert_eq!(escape_value(50, 50, 3), 50);
    assert_eq!(escape_value(6, 50, 0), 7);
    assert_eq!(escape_value(1, 50, 1), 1);
    assert_eq!(empty_budget_value(), 1);
}

#[test]
fn step_outcome_decisions() {
    assert_eq!(step_outcome(1, 50, true), StepOutcome::KeepIterating);
    assert_eq!(step_outcome(1, 50, false), StepOutcome::Escaped);
    assert_eq!(step_outcome(50, 50, true), StepOutcome::Interior);
    assert_eq!(step_outcome(50, 50, false), StepOutcome::Interior);
}
