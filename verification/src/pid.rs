//! Fixed-point PID state for the closed-loop velocity controller.
//!
//! Gains are thousandths (a `kp_milli` of 1500 is a proportional gain of
//! 1.5). The update step is pure integer arithmetic: the caller passes the
//! control period explicitly, and the output and the integral accumulator
//! are clamped to their configured bounds, so no intermediate value can
//! overflow 64 bits.

use vstd::prelude::*;

use crate::wire;

verus! {

/// Largest admissible gain, in thousandths (a gain of 1000.0).
pub const GAIN_LIMIT_MILLI: i32 = 1000000;

/// Bound the integral accumulator is clamped to (anti-windup).
pub const INTEGRAL_LIMIT: i64 = 1000000000000;

/// Period of the conventional 100 Hz control loop, in milliseconds.
pub const CONTROL_PERIOD_MS: u16 = 10;

/// State of a velocity PID controller: gains, output clamp, and the
/// integral/derivative accumulators mutated once per control period.
#[derive(Clone, Copy, Debug, PartialEq, Eq, Structural)]
pub struct VelPid {
    pub kp_milli: i32,
    pub ki_milli: i32,
    pub kd_milli: i32,
    pub output_min: i16,
    pub output_max: i16,
    pub integral: i64,
    pub prev_error: i32,
}

/// Truncating (round-toward-zero) division, as the executable code divides.
pub open spec fn tdiv(a: int, b: int) -> int {
    if a >= 0 {
        a / b
    } else {
        -((-a) / b)
    }
}

/// The velocity error a PID step works on.
pub open spec fn pid_error(target: int, measured: int) -> int {
    target - measured
}

/// The integral accumulator after one step, clamped for anti-windup.
pub open spec fn pid_integral_next(s: VelPid, err: int, period_ms: int) -> int {
    wire::clamp(s.integral + err * period_ms, -(INTEGRAL_LIMIT as int), INTEGRAL_LIMIT as int)
}

/// The derivative term of one step, in error units per second.
pub open spec fn pid_derivative(s: VelPid, err: int, period_ms: int) -> int {
    tdiv((err - s.prev_error) * 1000, period_ms)
}

/// The unclamped output of one step, with the gains applied in thousandths.
pub open spec fn pid_raw_output(s: VelPid, err: int, period_ms: int) -> int {
    tdiv(
        s.kp_milli * err + s.ki_milli * pid_integral_next(s, err, period_ms) + s.kd_milli
            * pid_derivative(s, err, period_ms),
        1000,
    )
}

/// The output of one PID step, clamped to the configured output interval.
pub open spec fn pid_output(s: VelPid, target: int, measured: int, period_ms: int) -> int {
    wire::clamp(
        pid_raw_output(s, pid_error(target, measured), period_ms),
        s.output_min as int,
        s.output_max as int,
    )
}

/// The controller state after one PID step.
pub open spec fn pid_next(s: VelPid, target: int, measured: int, period_ms: int) -> VelPid {
    VelPid {
        kp_milli: s.kp_milli,
        ki_milli: s.ki_milli,
        kd_milli: s.kd_milli,
        output_min: s.output_min,
        output_max: s.output_max,
        integral: pid_integral_next(s, pid_error(target, measured), period_ms) as i64,
        prev_error: pid_error(target, measured) as i32,
    }
}

proof fn lemma_abs_mul_bound(a: int, b: int, a_bound: int, b_bound: int)
    requires
        -a_bound <= a <= a_bound,
        -b_bound <= b <= b_bound,
        0 <= a_bound,
        0 <= b_bound,
    ensures
        -(a_bound * b_bound) <= a * b <= a_bound * b_bound,
{
    assert(-(a_bound * b_bound) <= a * b <= a_bound * b_bound) by (nonlinear_arith)
        requires
            -a_bound <= a <= a_bound,
            -b_bound <= b <= b_bound,
            0 <= a_bound,
            0 <= b_bound,
    ;
}

fn tdiv_i64(a: i64, b: i64) -> (q: i64)
    requires
        b >= 1,
        i64::MIN < a,
    ensures
        q as int == tdiv(a as int, b as int),
{
    if a >= 0 {
        ((a as u64) / (b as u64)) as i64
    } else {
        let m: u64 = (-a) as u64;
        proof {
            assert(m / (b as u64) <= m) by {
                vstd::arithmetic::div_mod::lemma_div_nonincreasing(m as int, b as int);
            }
        }
        -((m / (b as u64)) as i64)
    }
}

impl VelPid {
    /// Gains within their bounds, accumulators within their clamps, and a
    /// non-empty output interval.
    pub open spec fn wf(self) -> bool {
        &&& -GAIN_LIMIT_MILLI <= self.kp_milli <= GAIN_LIMIT_MILLI
        &&& -GAIN_LIMIT_MILLI <= self.ki_milli <= GAIN_LIMIT_MILLI
        &&& -GAIN_LIMIT_MILLI <= self.kd_milli <= GAIN_LIMIT_MILLI
        &&& -INTEGRAL_LIMIT <= self.integral <= INTEGRAL_LIMIT
        &&& -0xffff <= self.prev_error <= 0xffff
        &&& self.output_min <= self.output_max
    }

    /// Builds a controller with the given gains and output clamp and zeroed
    /// accumulators.
    pub fn new(
        kp_milli: i32,
        ki_milli: i32,
        kd_milli: i32,
        output_min: i16,
        output_max: i16,
    ) -> (pid: VelPid)
        requires
            -GAIN_LIMIT_MILLI <= kp_milli <= GAIN_LIMIT_MILLI,
            -GAIN_LIMIT_MILLI <= ki_milli <= GAIN_LIMIT_MILLI,
            -GAIN_LIMIT_MILLI <= kd_milli <= GAIN_LIMIT_MILLI,
            output_min <= output_max,
        ensures
            pid.wf(),
            pid == (VelPid {
                kp_milli,
                ki_milli,
                kd_milli,
                output_min,
                output_max,
                integral: 0i64,
                prev_error: 0i32,
            }),
    {
        VelPid { kp_milli, ki_milli, kd_milli, output_min, output_max, integral: 0, prev_error: 0 }
    }

    /// Runs one PID step for the given target and measured velocities and
    /// the given control period, updating the accumulators and returning the
    /// clamped output.
    pub fn update(&mut self, target: i16, measured: i16, period_ms: u16) -> (out: i16)
        requires
            old(self).wf(),
            period_ms >= 1,
        ensures
            final(self).wf(),
            *final(self) == pid_next(*old(self), target as int, measured as int, period_ms as int),
            out as int == pid_output(*old(self), target as int, measured as int, period_ms as int),
    {
        let err: i32 = (target as i32) - (measured as i32);
        proof {
            lemma_abs_mul_bound(err as int, period_ms as int, 0xffff, 0xffff);
        }
        let unclamped: i64 = self.integral + (err as i64) * (period_ms as i64);
        let integral: i64 = if unclamped < -INTEGRAL_LIMIT {
            -INTEGRAL_LIMIT
        } else if unclamped > INTEGRAL_LIMIT {
            INTEGRAL_LIMIT
        } else {
            unclamped
        };
        let diff: i64 = (err as i64) - (self.prev_error as i64);
        let derivative: i64 = tdiv_i64(diff * 1000, period_ms as i64);
        proof {
            assert(-132000000 <= derivative <= 132000000) by {
                if diff * 1000 >= 0 {
                    vstd::arithmetic::div_mod::lemma_div_nonincreasing(
                        diff * 1000,
                        period_ms as int,
                    );
                    vstd::arithmetic::div_mod::lemma_div_pos_is_pos(diff * 1000, period_ms as int);
                } else {
                    vstd::arithmetic::div_mod::lemma_div_nonincreasing(
                        -(diff * 1000),
                        period_ms as int,
                    );
                    vstd::arithmetic::div_mod::lemma_div_pos_is_pos(
                        -(diff * 1000),
                        period_ms as int,
                    );
                }
            }
            lemma_abs_mul_bound(
                self.kp_milli as int,
                err as int,
                GAIN_LIMIT_MILLI as int,
                0xffff,
            );
            lemma_abs_mul_bound(
                self.ki_milli as int,
                integral as int,
                GAIN_LIMIT_MILLI as int,
                INTEGRAL_LIMIT as int,
            );
            lemma_abs_mul_bound(
                self.kd_milli as int,
                derivative as int,
                GAIN_LIMIT_MILLI as int,
                132000000,
            );
        }
        let sum: i64 = (self.kp_milli as i64) * (err as i64) + (self.ki_milli as i64) * integral + (
        self.kd_milli as i64) * derivative;
        let raw: i64 = tdiv_i64(sum, 1000);
        let out: i16 = if raw < (self.output_min as i64) {
            self.output_min
        } else if raw > (self.output_max as i64) {
            self.output_max
        } else {
            raw as i16
        };
        self.integral = integral;
        self.prev_error = err;
        out
    }
}

} // verus!
