//! Proportional-integral-derivative regulator with an optional integrator clamp.
use vstd::prelude::*;
use vstd::arithmetic::div_mod::lemma_div_by_multiple;
use crate::fixed::{div_trunc, div_trunc_exec, fx_div, fx_mul, lemma_div_trunc_shrinks, ONE};

verus! {

/// `x` limited to `[lo, hi]`.
pub open spec fn clamp(x: int, lo: int, hi: int) -> int {
    if x < lo {
        lo
    } else if x > hi {
        hi
    } else {
        x
    }
}

/// Accumulated error after integrating `error` over `dt`, clamped to `[-l, l]` when a
/// limit `l` is set.
pub open spec fn integrate(accumulated: int, error: int, dt: int, limit: Option<i64>) -> int {
    let a = accumulated + fx_mul(error, dt);
    match limit {
        Some(l) => clamp(a, -l, l as int),
        None => a,
    }
}

/// Control signal `k_p * e + k_i * accumulated + k_d * (e - previous) / dt`.
pub open spec fn pid_law(
    k_p: int,
    k_i: int,
    k_d: int,
    previous: int,
    accumulated: int,
    error: int,
    dt: int,
) -> int {
    fx_mul(k_p, error) + fx_mul(k_i, accumulated) + fx_div(fx_mul(k_d, error - previous), dt)
}

/// Largest magnitude of an error: the difference of two `i32` values.
pub open spec fn error_bound() -> int {
    0x1_0000_0000
}

/// `x` is a value of `i64`.
pub open spec fn in_i64(x: int) -> bool {
    i64::MIN <= x <= i64::MAX
}

/// A PID controller whose gains, inputs and time steps are Q16.16 numbers; the integral
/// and derivative gains are per unit of the time step.
pub struct PIDController {
    /// Proportional gain
    pub k_p: i32,
    /// Integral gain
    pub k_i: i32,
    /// Derivative gain
    pub k_d: i32,
    /// Error of the previous step
    previous_error: i64,
    /// Integral of the error over time
    accumulated_error: i64,
    /// Symmetric clamp of the integral, if any
    limit: Option<i64>,
}

impl PIDController {
    /// Proportional gain.
    pub closed spec fn gain_p(&self) -> int {
        self.k_p as int
    }

    /// Integral gain.
    pub closed spec fn gain_i(&self) -> int {
        self.k_i as int
    }

    /// Derivative gain.
    pub closed spec fn gain_d(&self) -> int {
        self.k_d as int
    }

    /// Error of the previous step.
    pub closed spec fn previous(&self) -> int {
        self.previous_error as int
    }

    /// Integral of the error so far.
    pub closed spec fn accumulated(&self) -> int {
        self.accumulated_error as int
    }

    /// The integrator clamp.
    pub closed spec fn integrator_limit(&self) -> Option<i64> {
        self.limit
    }

    /// The clamp is non-negative and holds the integral; the previous error is the
    /// difference of two `i32` values.
    pub open spec fn wf(&self) -> bool {
        &&& -error_bound() <= self.previous() <= error_bound()
        &&& match self.integrator_limit() {
            Some(l) => 0 <= l && -l <= self.accumulated() <= l,
            None => true,
        }
    }

    /// Integral after a step with these inputs.
    pub open spec fn next_accumulated(&self, setpoint: i32, measurement: i32, dt: i32) -> int {
        integrate(self.accumulated(), setpoint - measurement, dt as int, self.integrator_limit())
    }

    /// Control signal of a step with these inputs.
    pub open spec fn next_output(&self, setpoint: i32, measurement: i32, dt: i32) -> int {
        pid_law(
            self.gain_p(),
            self.gain_i(),
            self.gain_d(),
            self.previous(),
            self.next_accumulated(setpoint, measurement, dt),
            setpoint - measurement,
            dt as int,
        )
    }

    /// The integral and the control signal of a step fit in `i64`.
    pub open spec fn fits(&self, setpoint: i32, measurement: i32, dt: i32) -> bool {
        &&& in_i64(self.next_accumulated(setpoint, measurement, dt))
        &&& in_i64(self.next_output(setpoint, measurement, dt))
    }

    /// A controller with these gains, zero error history and no integrator clamp.
    pub closed spec fn new_spec(k_p: i32, k_i: i32, k_d: i32) -> Self {
        Self { k_p, k_i, k_d, previous_error: 0, accumulated_error: 0, limit: None }
    }

    /// Creates a controller with zero error history; `limit` clamps the integral.
    pub fn new(k_p: i32, k_i: i32, k_d: i32, limit: Option<i64>) -> (r: Self)
        requires
            match limit {
                Some(l) => l >= 0,
                None => true,
            },
        ensures
            r.wf(),
            r.gain_p() == k_p,
            r.gain_i() == k_i,
            r.gain_d() == k_d,
            r.previous() == 0,
            r.accumulated() == 0,
            r.integrator_limit() == limit,
            limit is None ==> r == Self::new_spec(k_p, k_i, k_d),
    {
        Self { k_p, k_i, k_d, previous_error: 0, accumulated_error: 0, limit }
    }

    /// Replaces the gains; the error history and the clamp are kept.
    pub fn modify(&mut self, k_p: i32, k_i: i32, k_d: i32)
        ensures
            final(self).gain_p() == k_p,
            final(self).gain_i() == k_i,
            final(self).gain_d() == k_d,
            final(self).previous() == old(self).previous(),
            final(self).accumulated() == old(self).accumulated(),
            final(self).integrator_limit() == old(self).integrator_limit(),
    {
        self.k_p = k_p;
        self.k_i = k_i;
        self.k_d = k_d;
    }

    /// The integral so far.
    pub fn accumulated_error(&self) -> (r: i64)
        ensures
            r == self.accumulated(),
    {
        self.accumulated_error
    }

    /// The integral and the control signal of a step, in wide arithmetic.
    fn step(&self, setpoint: i32, measurement: i32, dt: i32) -> (r: (i128, i128))
        requires
            self.wf(),
            dt > 0,
        ensures
            r.0 == self.next_accumulated(setpoint, measurement, dt),
            r.1 == self.next_output(setpoint, measurement, dt),
    {
        let one = ONE as i128;
        let error = setpoint as i128 - measurement as i128;
        assert(error * dt < 0x1_0000_0000_0000_0000_0000) by (nonlinear_arith)
            requires
                -0x1_0000_0000 <= error <= 0x1_0000_0000,
                0 < dt <= 0x8000_0000,
        ;
        assert(error * dt > -0x1_0000_0000_0000_0000_0000) by (nonlinear_arith)
            requires
                -0x1_0000_0000 <= error <= 0x1_0000_0000,
                0 < dt <= 0x8000_0000,
        ;
        let increment = div_trunc_exec(error * dt as i128, one);
        proof {
            lemma_div_trunc_shrinks(error * dt, one as int);
        }
        let mut acc = self.accumulated_error as i128 + increment;
        if let Some(l) = self.limit {
            let l = l as i128;
            if acc < -l {
                acc = -l;
            } else if acc > l {
                acc = l;
            }
        }
        // the old integral is an i64 and the increment below 2^48; a clamp only shrinks it
        assert(-0x1_0000_0000_0000_0000_0000 < acc < 0x1_0000_0000_0000_0000_0000);
        let kp = self.k_p as i128;
        let ki = self.k_i as i128;
        let kd = self.k_d as i128;
        let diff = error - self.previous_error as i128;
        proof {
            assert(-0x1_0000_0000_0000_0000_0000_0000 < kp * error < 0x1_0000_0000_0000_0000_0000_0000)
                by (nonlinear_arith)
                requires
                    -0x1_0000_0000 <= error <= 0x1_0000_0000,
                    -0x8000_0000 <= kp < 0x8000_0000,
            ;
            assert(-0x1_0000_0000_0000_0000_0000_0000_0000 < ki * acc
                < 0x1_0000_0000_0000_0000_0000_0000_0000) by (nonlinear_arith)
                requires
                    -0x1_0000_0000_0000_0000_0000 < acc < 0x1_0000_0000_0000_0000_0000,
                    -0x8000_0000 <= ki < 0x8000_0000,
            ;
            assert(-0x1_0000_0000_0000_0000_0000_0000 < kd * diff < 0x1_0000_0000_0000_0000_0000_0000)
                by (nonlinear_arith)
                requires
                    -0x2_0000_0000 <= diff <= 0x2_0000_0000,
                    -0x8000_0000 <= kd < 0x8000_0000,
            ;
        }
        let kp_e = kp * error;
        let ki_acc = ki * acc;
        let kd_diff = kd * diff;
        proof {
            lemma_div_trunc_shrinks(kp_e as int, one as int);
            lemma_div_trunc_shrinks(ki_acc as int, one as int);
            lemma_div_trunc_shrinks(kd_diff as int, one as int);
        }
        let p = div_trunc_exec(kp_e, one);
        let i = div_trunc_exec(ki_acc, one);
        let kd_part = div_trunc_exec(kd_diff, one);
        proof {
            lemma_div_trunc_shrinks(kd_part * one, dt as int);
        }
        let d = div_trunc_exec(kd_part * one, dt as i128);
        (acc, p + i + d)
    }

    /// Whether a step with these inputs stays within the range of `i64`.
    pub fn step_fits(&self, setpoint: i32, measurement: i32, dt: i32) -> (r: bool)
        requires
            self.wf(),
            dt > 0,
        ensures
            r == self.fits(setpoint, measurement, dt),
    {
        let (acc, out) = self.step(setpoint, measurement, dt);
        i64::MIN as i128 <= acc && acc <= i64::MAX as i128 && i64::MIN as i128 <= out && out
            <= i64::MAX as i128
    }

    /// Takes one step toward `setpoint` from `measurement`, `dt` after the previous
    /// step, and returns the control signal.
    pub fn output(&mut self, setpoint: i32, measurement: i32, dt: i32) -> (r: i64)
        requires
            old(self).wf(),
            dt > 0,
            old(self).fits(setpoint, measurement, dt),
        ensures
            final(self).wf(),
            r == old(self).next_output(setpoint, measurement, dt),
            final(self).accumulated() == old(self).next_accumulated(setpoint, measurement, dt),
            final(self).previous() == setpoint - measurement,
            final(self).integrator_limit() == old(self).integrator_limit(),
            final(self).gain_p() == old(self).gain_p(),
            final(self).gain_i() == old(self).gain_i(),
            final(self).gain_d() == old(self).gain_d(),
    {
        let (acc, out) = self.step(setpoint, measurement, dt);
        self.accumulated_error = acc as i64;
        self.previous_error = setpoint as i64 - measurement as i64;
        out as i64
    }
}

/// With gains `k_p = 1`, `k_i = 0`, `k_d = 0` the controller is bare proportional control:
/// the signal is `setpoint - measurement`, whatever the error history.
pub proof fn lemma_proportional_only(previous: int, accumulated: int, setpoint: int, measurement: int, dt: int)
    requires
        dt > 0,
    ensures
        pid_law(ONE as int, 0, 0, previous, accumulated, setpoint - measurement, dt) == setpoint
            - measurement,
{
    let e = setpoint - measurement;
    if e >= 0 {
        lemma_div_by_multiple(e, ONE as int);
    } else {
        lemma_div_by_multiple(-e, ONE as int);
    }
    assert(ONE * e == e * ONE);
    assert((ONE as int) * (-e) == -(ONE * e));
    assert(fx_mul(ONE as int, e) == e);
    assert(fx_mul(0, accumulated) == 0);
    assert(fx_mul(0, e - previous) == 0);
    assert(fx_div(0, dt) == 0);
}

/// With a limit `l`, the integral after any step lies in `[-l, l]`, whatever the
/// integral, the error and the time step were.
pub proof fn lemma_integrator_clamped(accumulated: int, error: int, dt: int, l: i64)
    requires
        l >= 0,
    ensures
        -l <= integrate(accumulated, error, dt, Some(l)) <= l,
{
}

} // verus!
