//! The interpolation strategies: quadratic curve, PID feedback, and
//! quadratic-plus-feedforward, plus the tagged dispatcher over them.
//!
//! Each strategy maps one `(temperature, power)` sample to a fan-speed
//! value, all fixed-point (thousandths of a unit). The PID controller also
//! takes the current wall-clock timestamp in milliseconds: the caller reads
//! the clock and hands it in, so a tick is a pure computation on values.

use crate::config::{
    FeedforwardQuadraticSettings, InterpolationSettings, PIDSettings, QuadraticSettings,
};
use crate::fixed::{
    clamped, fdiv, fmul, fx_div, fx_mul, in_output, in_param, lemma_fdiv_bound, lemma_fmul_bound,
    lemma_tdiv_bound, magnitude, tdiv, tdiv_i128, PARAM_LIMIT, SCALE, TIME_LIMIT,
};
use vstd::arithmetic::div_mod::lemma_div_pos_is_pos;
use vstd::prelude::*;

verus! {

/// The quadratic curve value `A*x*x + B*x + C` in fixed-point arithmetic.
pub open spec fn quad_out(s: QuadraticSettings, x: int) -> int {
    fmul(fmul(s.a as int, x), x) + fmul(s.b as int, x) + s.c as int
}

/// With coefficients and input within the parameter range, the curve value
/// stays well within the output range.
pub proof fn lemma_quad_out_bound(s: QuadraticSettings, x: int)
    requires
        s.wf(),
        in_param(x),
    ensures
        -2_000_000_000_000_000 <= quad_out(s, x) <= 2_000_000_000_000_000,
{
    lemma_fmul_bound(s.a as int, x, PARAM_LIMIT as int, PARAM_LIMIT as int);
    lemma_fmul_bound(
        fmul(s.a as int, x),
        x,
        tdiv(PARAM_LIMIT as int * PARAM_LIMIT as int, SCALE as int),
        PARAM_LIMIT as int,
    );
    lemma_fmul_bound(s.b as int, x, PARAM_LIMIT as int, PARAM_LIMIT as int);
}

/// Stateless quadratic curve evaluator. Beyond its coefficients it only
/// caches the last computed value, for diagnostics.
pub struct Quadratic {
    /// The curve coefficients.
    pub coeffs: QuadraticSettings,
    /// Last computed curve value; zero before the first evaluation.
    pub value: i64,
}

impl Quadratic {
    /// Coefficients are in range and the cached value is one the curve can
    /// produce sizewise.
    pub open spec fn wf(&self) -> bool {
        &&& self.coeffs.wf()
        &&& in_output(self.value as int)
    }

    /// A fresh evaluator for the given curve.
    pub fn new(coeffs: QuadraticSettings) -> (r: Quadratic)
        requires
            coeffs.wf(),
        ensures
            r.coeffs == coeffs,
            r.value == 0,
            r.wf(),
    {
        Quadratic { coeffs, value: 0 }
    }

    /// Computes `A*x*x + B*x + C`. The power sample is accepted, as every
    /// strategy accepts one, and ignored.
    pub fn evaluate(&mut self, x: i64, _power: i64) -> (r: i64)
        requires
            old(self).wf(),
            in_param(x as int),
        ensures
            r as int == quad_out(old(self).coeffs, x as int),
            final(self).coeffs == old(self).coeffs,
            final(self).value == r,
            final(self).wf(),
            in_output(r as int),
    {
        proof {
            lemma_quad_out_bound(self.coeffs, x as int);
            lemma_fmul_bound(self.coeffs.a as int, x as int, PARAM_LIMIT as int, PARAM_LIMIT as int);
            lemma_fmul_bound(
                fmul(self.coeffs.a as int, x as int),
                x as int,
                tdiv(PARAM_LIMIT as int * PARAM_LIMIT as int, SCALE as int),
                PARAM_LIMIT as int,
            );
            lemma_fmul_bound(self.coeffs.b as int, x as int, PARAM_LIMIT as int, PARAM_LIMIT as int);
        }
        let square_term = fx_mul(fx_mul(self.coeffs.a, x), x);
        let linear_term = fx_mul(self.coeffs.b, x);
        self.value = square_term + linear_term + self.coeffs.c;
        self.value
    }
}

/// Why an evaluation failed.
#[derive(Clone, Copy, Debug, PartialEq, Eq, Structural)]
pub enum EvaluateError {
    /// The clock handed in a timestamp earlier than the previous call's:
    /// an environment fault, reported rather than folded into the state.
    ClockRegression,
}

/// The PID error for one temperature sample: setpoint minus temperature.
pub open spec fn pid_error(p: PID, x: int) -> int {
    p.settings.t_setpoint - x
}

/// Elapsed time in fixed-point seconds (equal to elapsed milliseconds)
/// since the previous call; zero on the first call.
pub open spec fn pid_dt_of(p: PID, now: u64) -> int {
    match p.previous_time {
        Some(t) => now - t,
        None => 0,
    }
}

/// The timestamp runs backward relative to the previous call.
pub open spec fn clock_regressed(p: PID, now: u64) -> bool {
    match p.previous_time {
        Some(t) => now < t,
        None => false,
    }
}

/// The integral accumulator after one step: the error-times-time
/// contribution is added, then the result is clamped to the windup limit.
pub open spec fn pid_integral_next(i: int, error: int, dt: int, w: int) -> int {
    clamped(i + fmul(error, dt), -w, w)
}

/// The integral accumulator a step of `p` at time `now` retains.
pub open spec fn pid_next_integral(p: PID, x: int, now: u64) -> int {
    pid_integral_next(
        p.i_term as int,
        pid_error(p, x),
        pid_dt_of(p, now),
        p.settings.windup_limit as int,
    )
}

/// The derivative term: error change per elapsed second, and zero whenever
/// no time elapsed (first call, or duplicate timestamps).
pub open spec fn pid_d_term(error_delta: int, dt: int) -> int {
    if dt > 0 {
        fdiv(error_delta, dt)
    } else {
        0
    }
}

/// The controller output: the negated weighted sum of the proportional,
/// integral and derivative terms.
pub open spec fn pid_output(s: PIDSettings, error: int, integral: int, d_term: int) -> int {
    -(fmul(s.k_p as int, error) + fmul(s.k_i as int, integral) + fmul(s.k_d as int, d_term))
}

/// The output a step of `p` on sample `x` at time `now` returns.
pub open spec fn pid_output_of(p: PID, x: int, now: u64) -> int {
    pid_output(
        p.settings,
        pid_error(p, x),
        pid_next_integral(p, x, now),
        pid_d_term(pid_error(p, x) - p.last_error, pid_dt_of(p, now)),
    )
}

/// PID feedback controller. Uninitialized until its first call, which
/// establishes the previous timestamp and contributes no derivative term;
/// every later call computes true deltas.
pub struct PID {
    /// The controller gains, setpoint and windup limit.
    pub settings: PIDSettings,
    /// Wall-clock timestamp of the previous call, milliseconds; `None`
    /// before the first call.
    pub previous_time: Option<u64>,
    /// Accumulated integral term, held within the windup limit.
    pub i_term: i64,
    /// Error of the previous call; zero before the first call.
    pub last_error: i64,
}

impl PID {
    /// Parameters are in range, the accumulator sits within the windup
    /// limit, and the remembered error and timestamp are ones a call can
    /// leave behind.
    pub open spec fn wf(&self) -> bool {
        &&& self.settings.wf()
        &&& -self.settings.windup_limit <= self.i_term <= self.settings.windup_limit
        &&& -2 * PARAM_LIMIT <= self.last_error <= 2 * PARAM_LIMIT
        &&& match self.previous_time {
            Some(t) => t <= TIME_LIMIT,
            None => true,
        }
    }

    /// A fresh, uninitialized controller.
    pub fn new(settings: PIDSettings) -> (r: PID)
        requires
            settings.wf(),
        ensures
            r.settings == settings,
            r.previous_time is None,
            r.i_term == 0,
            r.last_error == 0,
            r.wf(),
    {
        PID { settings, previous_time: None, i_term: 0, last_error: 0 }
    }

    /// One control step: updates the remembered timestamp, error and
    /// integral accumulator and returns the negated weighted term sum.
    ///
    /// A timestamp earlier than the previous call's is rejected and leaves
    /// the controller untouched. Whenever no time elapsed — the first call,
    /// or a duplicate timestamp — the derivative term is zero.
    pub fn evaluate(&mut self, x: i64, _power: i64, now: u64) -> (r: Result<i64, EvaluateError>)
        requires
            old(self).wf(),
            in_param(x as int),
            now <= TIME_LIMIT,
        ensures
            r is Err <==> clock_regressed(*old(self), now),
            r is Err ==> *final(self) == *old(self) && r == Err::<i64, EvaluateError>(
                EvaluateError::ClockRegression,
            ),
            r is Ok ==> {
                &&& final(self).settings == old(self).settings
                &&& final(self).previous_time == Some(now)
                &&& final(self).last_error as int == pid_error(*old(self), x as int)
                &&& final(self).i_term as int == pid_next_integral(*old(self), x as int, now)
                &&& r->Ok_0 as int == pid_output_of(*old(self), x as int, now)
            },
            r is Ok && pid_dt_of(*old(self), now) == 0 ==> r->Ok_0 as int == pid_output(
                old(self).settings,
                pid_error(*old(self), x as int),
                pid_next_integral(*old(self), x as int, now),
                0,
            ),
            final(self).wf(),
    {
        let error: i64 = self.settings.t_setpoint - x;
        let dt: u64 = match self.previous_time {
            Some(prev) => {
                if now < prev {
                    return Err(EvaluateError::ClockRegression);
                }
                now - prev
            },
            None => 0,
        };
        self.previous_time = Some(now);

        let error_delta: i64 = error - self.last_error;
        self.last_error = error;

        proof {
            assert((error as int) * (dt as int) <= 2 * PARAM_LIMIT * TIME_LIMIT
                && -2 * PARAM_LIMIT * TIME_LIMIT <= (error as int) * (dt as int))
                by (nonlinear_arith)
                requires
                    -2 * PARAM_LIMIT <= error as int <= 2 * PARAM_LIMIT,
                    0 <= dt as int <= TIME_LIMIT,
            ;
            lemma_tdiv_bound(
                (error as int) * (dt as int),
                SCALE as int,
                2 * PARAM_LIMIT * TIME_LIMIT,
            );
        }
        let contribution: i128 = tdiv_i128((error as i128) * (dt as i128), SCALE as i128);
        let accumulated: i128 = (self.i_term as i128) + contribution;
        let limit: i128 = self.settings.windup_limit as i128;
        let retained: i128 = if accumulated < -limit {
            -limit
        } else if accumulated > limit {
            limit
        } else {
            accumulated
        };
        self.i_term = retained as i64;

        proof {
            lemma_fmul_bound(
                self.settings.k_p as int,
                error as int,
                PARAM_LIMIT as int,
                2 * PARAM_LIMIT,
            );
            lemma_fmul_bound(
                self.settings.k_i as int,
                self.i_term as int,
                PARAM_LIMIT as int,
                PARAM_LIMIT as int,
            );
        }
        let p_term: i64 = fx_mul(self.settings.k_p, error);
        let i_contrib: i64 = fx_mul(self.settings.k_i, self.i_term);
        let mut d_term: i64 = 0;
        if dt > 0 {
            proof {
                lemma_fdiv_bound(error_delta as int, dt as int, 4 * PARAM_LIMIT);
            }
            d_term = fx_div(error_delta, dt as i64);
        }
        proof {
            lemma_fmul_bound(
                self.settings.k_d as int,
                d_term as int,
                PARAM_LIMIT as int,
                4 * PARAM_LIMIT * SCALE,
            );
        }
        let d_contrib: i64 = fx_mul(self.settings.k_d, d_term);
        Ok(-(p_term + i_contrib + d_contrib))
    }
}

/// First-call law: with no prior call the elapsed time counts as zero, so
/// the derivative term is zero whatever wall-clock time the call sees.
pub proof fn lemma_first_call_no_derivative(p: PID, x: int, now: u64)
    requires
        p.previous_time is None,
    ensures
        pid_dt_of(p, now) == 0,
        pid_d_term(pid_error(p, x) - p.last_error, pid_dt_of(p, now)) == 0,
{
}

/// Zero-dt law: a call repeating the previous timestamp sees no elapsed
/// time and a zero derivative term — no division happens.
pub proof fn lemma_zero_dt_no_derivative(p: PID, x: int, now: u64)
    requires
        p.previous_time == Some(now),
    ensures
        pid_dt_of(p, now) == 0,
        pid_d_term(pid_error(p, x) - p.last_error, pid_dt_of(p, now)) == 0,
{
}

/// Anti-windup law, never beyond: whatever one step adds, the retained
/// accumulator stays within the windup limit.
pub proof fn lemma_integral_never_beyond(p: PID, x: int, now: u64)
    requires
        p.settings.windup_limit >= 0,
    ensures
        -p.settings.windup_limit <= pid_next_integral(p, x, now) <= p.settings.windup_limit,
{
}

/// Anti-windup law, saturation: a step whose raw accumulation reaches or
/// passes the windup limit retains exactly the limit, so repeated large
/// constant errors hold the accumulator at exactly the limit.
pub proof fn lemma_integral_saturates(p: PID, x: int, now: u64)
    requires
        p.settings.windup_limit >= 0,
    ensures
        p.i_term + fmul(pid_error(p, x), pid_dt_of(p, now)) >= p.settings.windup_limit
            ==> pid_next_integral(p, x, now) == p.settings.windup_limit,
        p.i_term + fmul(pid_error(p, x), pid_dt_of(p, now)) <= -p.settings.windup_limit
            ==> pid_next_integral(p, x, now) == -p.settings.windup_limit,
{
}

/// Largest magnitude a committed feedforward setpoint can reach when the
/// coefficients and the power sample stay within the parameter range.
pub const FF_SETPOINT_LIMIT: i64 = 1_000_000_000_000_000;

/// The raw feedforward candidate for one power sample: the product
/// `A_ff * power * B_ff` (a product, not an affine form).
pub open spec fn ff_candidate(s: FeedforwardQuadraticSettings, power: int) -> int {
    fmul(fmul(s.a_ff as int, power), s.b_ff as int)
}

/// The debounce rule: the candidate is committed only when it departs from
/// the last committed setpoint by more than the deadzone; otherwise the
/// previous setpoint is kept.
pub open spec fn ff_commit(candidate: int, last: int, deadzone: int) -> int {
    if magnitude(candidate - last) > deadzone {
        candidate
    } else {
        last
    }
}

/// With coefficients and power within the parameter range, the feedforward
/// candidate stays within the committed-setpoint bound.
pub proof fn lemma_ff_candidate_bound(s: FeedforwardQuadraticSettings, power: int)
    requires
        s.wf(),
        in_param(power),
    ensures
        -FF_SETPOINT_LIMIT <= ff_candidate(s, power) <= FF_SETPOINT_LIMIT,
{
    lemma_fmul_bound(s.a_ff as int, power, PARAM_LIMIT as int, PARAM_LIMIT as int);
    lemma_fmul_bound(
        fmul(s.a_ff as int, power),
        s.b_ff as int,
        tdiv(PARAM_LIMIT as int * PARAM_LIMIT as int, SCALE as int),
        PARAM_LIMIT as int,
    );
}

/// Quadratic curve composed with a debounced feedforward term: the curve
/// value for the temperature plus the committed setpoint for the power.
pub struct QuadraticFeedforward {
    /// The curve and feedforward coefficients.
    pub coeffs: FeedforwardQuadraticSettings,
    /// Band within which a feedforward candidate is suppressed as chatter;
    /// a construction parameter, the settings carry no field for it.
    pub ff_deadzone: i64,
    /// Last committed feedforward setpoint; zero before the first call.
    pub ff_last_setpoint: i64,
    /// The owned inner curve evaluator.
    pub quad: Quadratic,
    /// Output cache slot carried by the state; no step writes it (only the
    /// inner curve keeps a diagnostic cache).
    pub value: i64,
}

/// The output of one feedforward-quadratic step: the inner curve value plus
/// the setpoint the debounce rule commits.
pub open spec fn ff_output_of(f: QuadraticFeedforward, x: int, power: int) -> int {
    quad_out(f.quad.coeffs, x) + ff_commit(
        ff_candidate(f.coeffs, power),
        f.ff_last_setpoint as int,
        f.ff_deadzone as int,
    )
}

impl QuadraticFeedforward {
    /// Coefficients are in range, the inner curve carries the quadratic
    /// third of them, the deadzone is a usable band, and the committed
    /// setpoint is one a call can leave behind.
    pub open spec fn wf(&self) -> bool {
        &&& self.coeffs.wf()
        &&& 0 <= self.ff_deadzone
        &&& -FF_SETPOINT_LIMIT <= self.ff_last_setpoint <= FF_SETPOINT_LIMIT
        &&& self.quad.wf()
        &&& self.quad.coeffs.a == self.coeffs.a_quad
        &&& self.quad.coeffs.b == self.coeffs.b_quad
        &&& self.quad.coeffs.c == self.coeffs.c_quad
        &&& in_output(self.value as int)
    }

    /// A fresh evaluator owning a curve built from the quadratic third of
    /// the coefficients, with the given debounce band.
    pub fn new(coeffs: FeedforwardQuadraticSettings, ff_deadzone: i64) -> (r: QuadraticFeedforward)
        requires
            coeffs.wf(),
            0 <= ff_deadzone <= PARAM_LIMIT,
        ensures
            r.coeffs == coeffs,
            r.ff_deadzone == ff_deadzone,
            r.ff_last_setpoint == 0,
            r.quad.coeffs == (QuadraticSettings {
                a: coeffs.a_quad,
                b: coeffs.b_quad,
                c: coeffs.c_quad,
                t_threshold: 0,
            }),
            r.quad.value == 0,
            r.value == 0,
            r.wf(),
    {
        let quad = Quadratic::new(
            QuadraticSettings { a: coeffs.a_quad, b: coeffs.b_quad, c: coeffs.c_quad, t_threshold: 0 },
        );
        QuadraticFeedforward { coeffs, ff_deadzone, ff_last_setpoint: 0, quad, value: 0 }
    }

    /// Computes the feedforward candidate for the power sample, commits it
    /// only when it departs from the last committed setpoint by more than
    /// the deadzone, and returns the committed setpoint.
    pub fn get_ff_setpoint(&mut self, power: i64) -> (r: i64)
        requires
            old(self).wf(),
            in_param(power as int),
        ensures
            final(self).ff_last_setpoint as int == ff_commit(
                ff_candidate(old(self).coeffs, power as int),
                old(self).ff_last_setpoint as int,
                old(self).ff_deadzone as int,
            ),
            r == final(self).ff_last_setpoint,
            final(self).coeffs == old(self).coeffs,
            final(self).ff_deadzone == old(self).ff_deadzone,
            final(self).quad == old(self).quad,
            final(self).value == old(self).value,
            final(self).wf(),
    {
        proof {
            lemma_ff_candidate_bound(self.coeffs, power as int);
            lemma_fmul_bound(self.coeffs.a_ff as int, power as int, PARAM_LIMIT as int, PARAM_LIMIT as int);
            lemma_fmul_bound(
                fmul(self.coeffs.a_ff as int, power as int),
                self.coeffs.b_ff as int,
                tdiv(PARAM_LIMIT as int * PARAM_LIMIT as int, SCALE as int),
                PARAM_LIMIT as int,
            );
        }
        let rpm_setpoint = fx_mul(fx_mul(self.coeffs.a_ff, power), self.coeffs.b_ff);
        let departure = rpm_setpoint - self.ff_last_setpoint;
        let distance = if departure < 0 {
            -departure
        } else {
            departure
        };
        if distance > self.ff_deadzone {
            self.ff_last_setpoint = rpm_setpoint;
        }
        self.ff_last_setpoint
    }

    /// One step: evaluates the inner curve on the temperature, debounces
    /// the feedforward setpoint for the power, and returns their sum.
    pub fn evaluate(&mut self, x: i64, power: i64) -> (r: i64)
        requires
            old(self).wf(),
            in_param(x as int),
            in_param(power as int),
        ensures
            r as int == ff_output_of(*old(self), x as int, power as int),
            final(self).value == old(self).value,
            final(self).coeffs == old(self).coeffs,
            final(self).ff_deadzone == old(self).ff_deadzone,
            final(self).quad.coeffs == old(self).quad.coeffs,
            final(self).quad.value as int == quad_out(old(self).quad.coeffs, x as int),
            final(self).ff_last_setpoint as int == ff_commit(
                ff_candidate(old(self).coeffs, power as int),
                old(self).ff_last_setpoint as int,
                old(self).ff_deadzone as int,
            ),
            final(self).wf(),
            in_output(r as int),
    {
        proof {
            lemma_quad_out_bound(self.quad.coeffs, x as int);
        }
        let quad_value = self.quad.evaluate(x, power);
        let ff_output = self.get_ff_setpoint(power);
        quad_value + ff_output
    }
}

/// The live strategy a device owns for its lifetime, dispatching on the
/// configured settings tag.
pub enum Interpolator {
    /// Stateless quadratic curve.
    Quadratic(Quadratic),
    /// Quadratic curve plus debounced feedforward term.
    FFQuad(QuadraticFeedforward),
    /// PID feedback controller.
    PID(PID),
}

/// The fresh strategy state built for the given settings: matching variant,
/// no call history. The deadzone applies only to the feedforward variant.
pub open spec fn fresh_interpolator(
    settings: InterpolationSettings,
    ff_deadzone: i64,
) -> Interpolator {
    match settings {
        InterpolationSettings::Quadratic(q) => Interpolator::Quadratic(
            Quadratic { coeffs: q, value: 0 },
        ),
        InterpolationSettings::FFQuad(f) => Interpolator::FFQuad(
            QuadraticFeedforward {
                coeffs: f,
                ff_deadzone,
                ff_last_setpoint: 0,
                quad: Quadratic {
                    coeffs: QuadraticSettings {
                        a: f.a_quad,
                        b: f.b_quad,
                        c: f.c_quad,
                        t_threshold: 0,
                    },
                    value: 0,
                },
                value: 0,
            },
        ),
        InterpolationSettings::PID(p) => Interpolator::PID(
            PID { settings: p, previous_time: None, i_term: 0, last_error: 0 },
        ),
    }
}

impl Interpolator {
    /// The held strategy state is acceptable.
    pub open spec fn wf(&self) -> bool {
        match *self {
            Interpolator::Quadratic(q) => q.wf(),
            Interpolator::FFQuad(f) => f.wf(),
            Interpolator::PID(p) => p.wf(),
        }
    }

    /// The value one step on this state returns (when it returns one).
    pub open spec fn step_value(self, x: int, power: int, now: u64) -> int {
        match self {
            Interpolator::Quadratic(q) => quad_out(q.coeffs, x),
            Interpolator::FFQuad(f) => ff_output_of(f, x, power),
            Interpolator::PID(p) => pid_output_of(p, x, now),
        }
    }

    /// The state one step leaves behind.
    pub open spec fn step_state(self, x: int, power: int, now: u64) -> Interpolator {
        match self {
            Interpolator::Quadratic(q) => Interpolator::Quadratic(
                Quadratic { coeffs: q.coeffs, value: quad_out(q.coeffs, x) as i64 },
            ),
            Interpolator::FFQuad(f) => Interpolator::FFQuad(
                QuadraticFeedforward {
                    coeffs: f.coeffs,
                    ff_deadzone: f.ff_deadzone,
                    ff_last_setpoint: ff_commit(
                        ff_candidate(f.coeffs, power),
                        f.ff_last_setpoint as int,
                        f.ff_deadzone as int,
                    ) as i64,
                    quad: Quadratic {
                        coeffs: f.quad.coeffs,
                        value: quad_out(f.quad.coeffs, x) as i64,
                    },
                    value: f.value,
                },
            ),
            Interpolator::PID(p) => Interpolator::PID(
                PID {
                    settings: p.settings,
                    previous_time: Some(now),
                    i_term: pid_next_integral(p, x, now) as i64,
                    last_error: pid_error(p, x) as i64,
                },
            ),
        }
    }

    /// Whether one step on this state rejects the given timestamp.
    pub open spec fn step_fails(self, now: u64) -> bool {
        match self {
            Interpolator::PID(p) => clock_regressed(p, now),
            _ => false,
        }
    }

    /// Builds the strategy the settings tag calls for, with no call
    /// history. The deadzone applies only to the feedforward variant.
    pub fn new(settings: InterpolationSettings, ff_deadzone: i64) -> (r: Interpolator)
        requires
            settings.wf(),
            0 <= ff_deadzone <= PARAM_LIMIT,
        ensures
            r == fresh_interpolator(settings, ff_deadzone),
            r.wf(),
    {
        match settings {
            InterpolationSettings::Quadratic(q) => Interpolator::Quadratic(Quadratic::new(q)),
            InterpolationSettings::FFQuad(f) => Interpolator::FFQuad(
                QuadraticFeedforward::new(f, ff_deadzone),
            ),
            InterpolationSettings::PID(p) => Interpolator::PID(PID::new(p)),
        }
    }

    /// One control step for the owned strategy. Only the PID variant can
    /// fail, and only on a timestamp earlier than its previous call's; the
    /// other variants ignore the timestamp.
    pub fn evaluate(&mut self, x: i64, power: i64, now: u64) -> (r: Result<i64, EvaluateError>)
        requires
            old(self).wf(),
            in_param(x as int),
            in_param(power as int),
            now <= TIME_LIMIT,
        ensures
            r is Err <==> old(self).step_fails(now),
            r is Err ==> *final(self) == *old(self) && r == Err::<i64, EvaluateError>(
                EvaluateError::ClockRegression,
            ),
            r is Ok ==> r->Ok_0 as int == old(self).step_value(x as int, power as int, now),
            r is Ok ==> *final(self) == old(self).step_state(x as int, power as int, now),
            final(self).wf(),
    {
        match self {
            Interpolator::Quadratic(q) => {
                proof {
                    lemma_quad_out_bound(q.coeffs, x as int);
                }
                Ok(q.evaluate(x, power))
            },
            Interpolator::FFQuad(f) => Ok(f.evaluate(x, power)),
            Interpolator::PID(p) => p.evaluate(x, power, now),
        }
    }
}

/// Power-irrelevance law: the quadratic strategy's output depends on its
/// coefficients and the temperature alone, never on the power sample.
pub proof fn lemma_quadratic_ignores_power(q: Quadratic, x: int, p1: int, p2: int, now: u64)
    ensures
        Interpolator::Quadratic(q).step_value(x, p1, now) == Interpolator::Quadratic(q).step_value(
            x,
            p2,
            now,
        ),
{
}

/// Sign law: with a nonnegative proportional gain, a positive error (the
/// temperature below the setpoint) can only lower the output relative to a
/// zero error, the integral and derivative terms held fixed.
pub proof fn lemma_positive_error_lowers_output(
    s: PIDSettings,
    error: int,
    integral: int,
    d_term: int,
)
    requires
        s.k_p >= 0,
        error >= 0,
    ensures
        pid_output(s, error, integral, d_term) <= pid_output(s, 0, integral, d_term),
{
    assert((s.k_p as int) * error >= 0) by (nonlinear_arith)
        requires
            s.k_p >= 0,
            error >= 0,
    ;
    lemma_div_pos_is_pos((s.k_p as int) * error, SCALE as int);
}

} // verus!
