//! Tests of the three strategies and the dispatcher, on fixed-point values
//! (an `i64` counts thousandths of a unit: `21_500` stands for `21.5`).

use fancontrol::config::{
    FeedforwardQuadraticSettings, InterpolationSettings, PIDSettings, QuadraticSettings,
};
use fancontrol::control::{EvaluateError, Interpolator, QuadraticFeedforward, Quadratic, PID};

fn quad_settings(a: i64, b: i64, c: i64) -> QuadraticSettings {
    QuadraticSettings { a, b, c, t_threshold: 0 }
}

fn pid_settings(t_setpoint: i64, k_p: i64, k_i: i64, k_d: i64, windup_limit: i64) -> PIDSettings {
    PIDSettings { t_setpoint, k_p, k_i, k_d, windup_limit }
}

fn ff_settings(a_quad: i64, b_quad: i64, c_quad: i64, a_ff: i64, b_ff: i64) -> FeedforwardQuadraticSettings {
    FeedforwardQuadraticSettings { a_quad, b_quad, c_quad, a_ff, b_ff }
}

#[test]
fn quadratic_scenario() {
    // A=0, B=2, C=1 at x=10 gives 21.
    let mut q = Quadratic::new(quad_settings(0, 2_000, 1_000));
    assert_eq!(q.evaluate(10_000, 0), 21_000);
    assert_eq!(q.value, 21_000);
}

#[test]
fn quadratic_general_point() {
    // A=1, B=-2, C=0.5 at x=3: 9 - 6 + 0.5 = 3.5.
    let mut q = Quadratic::new(quad_settings(1_000, -2_000, 500));
    assert_eq!(q.evaluate(3_000, 0), 3_500);
}

#[test]
fn quadratic_ignores_power() {
    let mut q1 = Quadratic::new(quad_settings(500, 1_500, -250));
    let mut q2 = Quadratic::new(quad_settings(500, 1_500, -250));
    let out1 = q1.evaluate(42_000, 0);
    let out2 = q2.evaluate(42_000, 9_999_999);
    assert_eq!(out1, out2);
}

#[test]
fn pid_first_call_scenario() {
    // setpoint=60, K_p=2, temperature=70 on the first call: error = -10,
    // p_term = -20, output = 20.
    let mut p = PID::new(pid_settings(60_000, 2_000, 0, 0, 0));
    assert_eq!(p.evaluate(70_000, 0, 5_000), Ok(20_000));
}

#[test]
fn pid_first_call_derivative_zero() {
    // Pure-derivative controller: whatever wall-clock time the first call
    // sees, no time has elapsed and the derivative contributes nothing.
    let mut early = PID::new(pid_settings(50_000, 0, 0, 4_000, 0));
    let mut late = PID::new(pid_settings(50_000, 0, 0, 4_000, 0));
    assert_eq!(early.evaluate(30_000, 0, 1), Ok(0));
    assert_eq!(late.evaluate(30_000, 0, 999_999_999_999), Ok(0));
}

#[test]
fn pid_zero_dt_guard() {
    // Two calls with identical timestamps: the second sees dt = 0 and a
    // zero derivative term, with no division fault.
    let mut p = PID::new(pid_settings(50_000, 0, 0, 4_000, 0));
    assert_eq!(p.evaluate(30_000, 0, 7_000), Ok(0));
    // The error changes between the calls, so a nonzero dt would yield a
    // nonzero derivative term.
    assert_eq!(p.evaluate(45_000, 0, 7_000), Ok(0));
}

#[test]
fn pid_antiwindup_saturates() {
    // Pure-integral controller with a large constant error: the
    // accumulator saturates at exactly the windup limit, never beyond.
    let mut p = PID::new(pid_settings(100_000, 0, 1_000, 0, 5_000));
    // First call: no elapsed time, nothing accumulated yet.
    assert_eq!(p.evaluate(0, 0, 0), Ok(0));
    // Each later call sees dt = 1 s and would add error * dt = 100 to the
    // accumulator; the clamp holds it at the limit, 5.
    for tick in 1..6u64 {
        assert_eq!(p.evaluate(0, 0, tick * 1_000), Ok(-5_000));
        assert_eq!(p.i_term, 5_000);
    }
}

#[test]
fn pid_antiwindup_saturates_low() {
    // Temperature far above the setpoint: the accumulator saturates at
    // exactly the negative windup limit.
    let mut p = PID::new(pid_settings(0, 0, 1_000, 0, 5_000));
    assert_eq!(p.evaluate(100_000, 0, 0), Ok(0));
    for tick in 1..6u64 {
        assert_eq!(p.evaluate(100_000, 0, tick * 1_000), Ok(5_000));
        assert_eq!(p.i_term, -5_000);
    }
}

#[test]
fn pid_sign_scenario() {
    // K_p=1, K_i=0, K_d=0, error=5: output is exactly -5.
    let mut p = PID::new(pid_settings(5_000, 1_000, 0, 0, 0));
    assert_eq!(p.evaluate(0, 0, 123), Ok(-5_000));
}

#[test]
fn pid_derivative_running() {
    // Pure-derivative controller over a real interval: error moves from
    // -10 to -15 over 2 s, so d_term = -2.5 and the output is 2.5.
    let mut p = PID::new(pid_settings(50_000, 0, 0, 1_000, 0));
    assert_eq!(p.evaluate(60_000, 0, 1_000), Ok(0));
    assert_eq!(p.evaluate(65_000, 0, 3_000), Ok(2_500));
}

#[test]
fn pid_clock_regression_rejected() {
    let mut p = PID::new(pid_settings(50_000, 1_000, 1_000, 1_000, 9_000));
    assert_eq!(p.evaluate(40_000, 0, 10_000), Ok(-10_000));
    // An earlier timestamp is an environment fault and leaves the
    // controller untouched.
    assert_eq!(p.evaluate(41_000, 0, 9_999), Err(EvaluateError::ClockRegression));
    assert_eq!(p.previous_time, Some(10_000));
    assert_eq!(p.i_term, 0);
    assert_eq!(p.last_error, 10_000);
}

#[test]
fn feedforward_debounce_sequence() {
    // deadzone=2 and candidates [10, 10.5, 13] commit [10, 10, 13]: the
    // second candidate sits within the deadzone and is suppressed.
    let mut f = QuadraticFeedforward::new(ff_settings(0, 0, 0, 1_000, 1_000), 2_000);
    assert_eq!(f.get_ff_setpoint(10_000), 10_000);
    assert_eq!(f.get_ff_setpoint(10_500), 10_000);
    assert_eq!(f.get_ff_setpoint(13_000), 13_000);
}

#[test]
fn feedforward_composition() {
    // evaluate returns the inner curve value plus the committed setpoint,
    // on every call.
    let mut f = QuadraticFeedforward::new(ff_settings(0, 1_000, 0, 1_000, 1_000), 2_000);
    // Curve is the identity: quad part 5, committed setpoint 10. Only the
    // inner curve keeps a diagnostic cache; the outer slot is never written.
    assert_eq!(f.evaluate(5_000, 10_000), 15_000);
    assert_eq!(f.quad.value, 5_000);
    assert_eq!(f.value, 0);
    // Candidate 10.5 stays within the deadzone: the old setpoint holds.
    assert_eq!(f.evaluate(6_000, 10_500), 16_000);
    // Candidate 20 departs far enough and is committed.
    assert_eq!(f.evaluate(6_000, 20_000), 26_000);
    assert_eq!(f.ff_last_setpoint, 20_000);
}

#[test]
fn feedforward_product_form() {
    // The candidate is the plain product A_ff * power * B_ff, not an
    // affine form: 2 * 3 * 4 = 24.
    let mut f = QuadraticFeedforward::new(ff_settings(0, 0, 0, 2_000, 4_000), 0);
    assert_eq!(f.get_ff_setpoint(3_000), 24_000);
}

#[test]
fn dispatch_quadratic() {
    let settings = InterpolationSettings::Quadratic(quad_settings(0, 2_000, 1_000));
    let mut it = Interpolator::new(settings, 0);
    assert_eq!(it.evaluate(10_000, 0, 0), Ok(21_000));
}

#[test]
fn dispatch_feedforward() {
    let settings = InterpolationSettings::FFQuad(ff_settings(0, 1_000, 0, 1_000, 1_000));
    let mut it = Interpolator::new(settings, 2_000);
    assert_eq!(it.evaluate(5_000, 10_000, 0), Ok(15_000));
}

#[test]
fn dispatch_pid() {
    let settings = InterpolationSettings::PID(pid_settings(60_000, 2_000, 0, 0, 0));
    let mut it = Interpolator::new(settings, 0);
    assert_eq!(it.evaluate(70_000, 0, 5_000), Ok(20_000));
    assert_eq!(it.evaluate(70_000, 0, 4_000), Err(EvaluateError::ClockRegression));
}
