//! The control-loop state machine: angle calibration, closed-loop current regulation
//! and fault shutdown, one sampling period per call.
//!
//! The caller samples the sensors, evaluates the sine and cosine of the electrical angle,
//! and drives the PWM outputs with the returned [`PhaseCommand`].
use vstd::prelude::*;
use crate::fixed::{div_trunc, div_trunc_exec, fx_div, fx_mul, lemma_div_trunc_bounds, ONE};
use crate::pid::{clamp, PIDController};
use crate::transforms::{
    clarke_alpha, clarke_beta, clarke_transform, inverse_clarke_phase, inverse_clarke_transform,
    inverse_park_transform, park_transform, rotate_first, rotate_second,
};

verus! {

/// Phase current that calibration regulates to, 3 A in Q16.16.
pub const CALIBRATION_CURRENT: i32 = 196608;

/// Supply voltage that full duty corresponds to, 12.6 V in Q16.16.
pub const SUPPLY_VOLTAGE: i32 = 825754;

/// q-axis current at full throttle, 16.95 A in Q16.16.
pub const FULL_THROTTLE_CURRENT: i32 = 1110835;

/// Which test vector a calibration run drives.
#[derive(Debug, Clone, Copy, PartialEq, Eq, Structural)]
pub enum CalibrationRun {
    /// Phase A against phase B
    PhaseAB,
    /// Phase A against phase C
    PhaseAC,
}

/// State of the control loop.
#[derive(Debug, Clone, Copy, PartialEq, Eq, Structural)]
pub enum ControlState {
    /// Measuring the angle offset with a fixed test vector.
    Calibrating {
        /// The test vector being driven
        run: CalibrationRun,
        /// Sum of the angles measured after the settling window (Q16.16 degrees)
        accumulated_angle: i64,
        /// Samples taken in this run
        sample_count: u32,
        /// Mean angle of the first run (Q16.16 degrees); zero during the first run
        first_reference: i32,
    },
    /// Regulating the phase currents.
    Running {
        /// Offset between the measured and the electrical angle (Q16.16 degrees)
        angle_offset: i32,
    },
    /// Shut down after a fault; only a restart leaves this state.
    Faulted,
}

/// Duty fractions (Q16.16, within `[0, 1]`) and enables of the three PWM channels.
#[derive(Debug, Clone, Copy, PartialEq, Eq, Structural)]
pub struct PhaseCommand {
    /// Duty of phase A
    pub duty_a: i32,
    /// Duty of phase B
    pub duty_b: i32,
    /// Duty of phase C
    pub duty_c: i32,
    /// Phase A is switching
    pub enable_a: bool,
    /// Phase B is switching
    pub enable_b: bool,
    /// Phase C is switching
    pub enable_c: bool,
}

/// All channels off at zero duty.
pub open spec fn idle_command() -> PhaseCommand {
    PhaseCommand {
        duty_a: 0,
        duty_b: 0,
        duty_c: 0,
        enable_a: false,
        enable_b: false,
        enable_c: false,
    }
}

/// `x` limited to the range of `i32`.
pub open spec fn saturate(x: int) -> int {
    clamp(x, i32::MIN as int, i32::MAX as int)
}

/// Duty that drives phase A toward the calibration current with signal `v`.
pub open spec fn calibration_duty(v: int) -> int {
    clamp(fx_div(v, SUPPLY_VOLTAGE as int), 0, ONE as int)
}

/// Calibration output: phase A switching at `duty` against the run's return phase.
pub open spec fn calibration_command(run: CalibrationRun, duty: int) -> PhaseCommand {
    PhaseCommand {
        duty_a: duty as i32,
        duty_b: 0,
        duty_c: 0,
        enable_a: true,
        enable_b: run == CalibrationRun::PhaseAB,
        enable_c: run == CalibrationRun::PhaseAC,
    }
}

/// State after a calibration sample at `angle`, with `settle` samples discarded of
/// `samples` per run.
pub open spec fn calibration_next(
    run: CalibrationRun,
    accumulated: int,
    count: int,
    first: int,
    angle: int,
    settle: int,
    samples: int,
) -> ControlState {
    let acc = if count >= settle {
        accumulated + angle
    } else {
        accumulated
    };
    if count + 1 < samples {
        ControlState::Calibrating {
            run,
            accumulated_angle: acc as i64,
            sample_count: (count + 1) as u32,
            first_reference: first as i32,
        }
    } else {
        let reference = div_trunc(acc, samples - settle);
        match run {
            CalibrationRun::PhaseAB => ControlState::Calibrating {
                run: CalibrationRun::PhaseAC,
                accumulated_angle: 0,
                sample_count: 0,
                first_reference: reference as i32,
            },
            CalibrationRun::PhaseAC => ControlState::Running {
                angle_offset: div_trunc(first + reference, 2) as i32,
            },
        }
    }
}

/// Duty of a phase whose voltage command is `v`: `v / supply` clamped to `[-1, 1]`,
/// mapped onto `[0, 1]`.
pub open spec fn phase_duty(v: int) -> int {
    div_trunc(clamp(fx_div(v, SUPPLY_VOLTAGE as int), -ONE as int, ONE as int) + ONE, 2)
}

/// Output of a running cycle whose regulators produced `v_d` and `v_q`.
pub open spec fn running_command(v_d: int, v_q: int, sin: int, cos: int) -> PhaseCommand {
    let d = saturate(v_d);
    let q = saturate(v_q);
    let alpha = saturate(rotate_first(d, q, -sin, cos));
    let beta = saturate(rotate_second(d, q, -sin, cos));
    PhaseCommand {
        duty_a: phase_duty(alpha) as i32,
        duty_b: phase_duty(inverse_clarke_phase(alpha, beta, 1)) as i32,
        duty_c: phase_duty(inverse_clarke_phase(alpha, beta, -1)) as i32,
        enable_a: true,
        enable_b: true,
        enable_c: true,
    }
}

/// q-axis current setpoint for a throttle in Q16.16.
pub open spec fn q_setpoint(throttle: int) -> int {
    saturate(fx_mul(throttle, FULL_THROTTLE_CURRENT as int))
}

/// Measured `(d, q)` currents of the phase currents at the given angle.
pub open spec fn measured_dq(i_a: int, i_b: int, i_c: int, sin: int, cos: int) -> (int, int) {
    let alpha = saturate(clarke_alpha(i_a, i_b, i_c));
    let beta = saturate(clarke_beta(i_b, i_c));
    (saturate(rotate_first(alpha, beta, sin, cos)), saturate(rotate_second(alpha, beta, sin, cos)))
}

/// Samples that a calibration sum holds after `count` samples of which `settle` are
/// discarded.
pub open spec fn held_samples(count: int, settle: int) -> int {
    if count > settle {
        count - settle
    } else {
        0
    }
}

/// `x` limited to the range of `i32`.
fn saturate_exec(x: i64) -> (r: i32)
    ensures
        r == saturate(x as int),
{
    if x < i32::MIN as i64 {
        i32::MIN
    } else if x > i32::MAX as i64 {
        i32::MAX
    } else {
        x as i32
    }
}

/// `v / supply` in Q16.16, clamped to `[lo, hi]`.
fn supply_fraction(v: i64, lo: i32, hi: i32) -> (r: i32)
    requires
        lo <= hi,
    ensures
        r == clamp(fx_div(v as int, SUPPLY_VOLTAGE as int), lo as int, hi as int),
{
    assert(-0x8000_0000_0000_0000_0000_0000 <= v * 65536 <= 0x8000_0000_0000_0000_0000_0000) by (nonlinear_arith)
        requires
            -0x8000_0000_0000_0000 <= v <= 0x8000_0000_0000_0000,
    ;
    let wide = v as i128 * ONE as i128;
    let f = div_trunc_exec(wide, SUPPLY_VOLTAGE as i128);
    if f < lo as i128 {
        lo
    } else if f > hi as i128 {
        hi
    } else {
        f as i32
    }
}

/// Duty of a phase whose voltage command is `v`.
fn phase_duty_exec(v: i64) -> (r: i32)
    ensures
        r == phase_duty(v as int),
        0 <= r <= ONE,
{
    let x = supply_fraction(v, -ONE, ONE) as i128;
    proof {
        lemma_div_trunc_bounds(x + ONE, 2, 0, ONE as int);
    }
    div_trunc_exec(x + ONE as i128, 2) as i32
}

/// The control loop and its regulators.
pub struct ControlLoop {
    /// Where the loop stands
    state: ControlState,
    /// Samples discarded at the start of each calibration run
    settle: u32,
    /// Samples per calibration run
    samples: u32,
    /// Regulator of the calibration current
    pid_cal: PIDController,
    /// Regulator of the d-axis current
    pid_d: PIDController,
    /// Regulator of the q-axis current
    pid_q: PIDController,
}

impl ControlLoop {
    /// The state.
    pub closed spec fn spec_state(&self) -> ControlState {
        self.state
    }

    /// Samples discarded at the start of each calibration run.
    pub closed spec fn spec_settle(&self) -> int {
        self.settle as int
    }

    /// Samples per calibration run.
    pub closed spec fn spec_samples(&self) -> int {
        self.samples as int
    }

    /// The calibration regulator.
    pub closed spec fn spec_pid_cal(&self) -> PIDController {
        self.pid_cal
    }

    /// The d-axis regulator.
    pub closed spec fn spec_pid_d(&self) -> PIDController {
        self.pid_d
    }

    /// The q-axis regulator.
    pub closed spec fn spec_pid_q(&self) -> PIDController {
        self.pid_q
    }

    /// Regulators well formed, settling window shorter than a run, and the calibration
    /// sum bounded by the samples it holds.
    pub open spec fn wf(&self) -> bool {
        &&& self.spec_pid_cal().wf()
        &&& self.spec_pid_d().wf()
        &&& self.spec_pid_q().wf()
        &&& self.spec_settle() < self.spec_samples()
        &&& match self.spec_state() {
            ControlState::Calibrating { accumulated_angle, sample_count, .. } => {
                let held = held_samples(sample_count as int, self.spec_settle());
                &&& sample_count < self.spec_samples()
                &&& held * (i32::MIN as int) <= accumulated_angle <= held * (i32::MAX as int)
            },
            _ => true,
        }
    }

    /// A loop about to calibrate: `settle` samples of each run of `samples` are
    /// discarded; the three regulators share the gains and have no integrator clamp.
    pub fn new(settle: u32, samples: u32, k_p: i32, k_i: i32, k_d: i32) -> (r: Self)
        requires
            settle < samples,
        ensures
            r.wf(),
            r.spec_state() == (ControlState::Calibrating {
                run: CalibrationRun::PhaseAB,
                accumulated_angle: 0,
                sample_count: 0,
                first_reference: 0,
            }),
            r.spec_settle() == settle,
            r.spec_samples() == samples,
            r.spec_pid_cal() == PIDController::new_spec(k_p, k_i, k_d),
            r.spec_pid_d() == PIDController::new_spec(k_p, k_i, k_d),
            r.spec_pid_q() == PIDController::new_spec(k_p, k_i, k_d),
    {
        Self {
            state: ControlState::Calibrating {
                run: CalibrationRun::PhaseAB,
                accumulated_angle: 0,
                sample_count: 0,
                first_reference: 0,
            },
            settle,
            samples,
            pid_cal: PIDController::new(k_p, k_i, k_d, None),
            pid_d: PIDController::new(k_p, k_i, k_d, None),
            pid_q: PIDController::new(k_p, k_i, k_d, None),
        }
    }

    /// The state.
    pub fn state(&self) -> (r: ControlState)
        ensures
            r == self.spec_state(),
    {
        self.state
    }

    /// Takes one calibration sample: the measured `angle` (Q16.16 degrees), the phase A
    /// current `i_a`, and the time `dt` since the previous sample. Returns the test
    /// vector to drive. A regulator step beyond the range of `i64` shuts the loop down.
    pub fn calibrate(&mut self, angle: i32, i_a: i32, dt: i32) -> (r: PhaseCommand)
        requires
            old(self).wf(),
            old(self).spec_state() is Calibrating,
            dt > 0,
        ensures
            final(self).wf(),
            final(self).spec_settle() == old(self).spec_settle(),
            final(self).spec_samples() == old(self).spec_samples(),
            final(self).spec_pid_d() == old(self).spec_pid_d(),
            final(self).spec_pid_q() == old(self).spec_pid_q(),
            match old(self).spec_state() {
                ControlState::Calibrating {
                    run,
                    accumulated_angle,
                    sample_count,
                    first_reference,
                } => if old(self).spec_pid_cal().fits(CALIBRATION_CURRENT, i_a, dt) {
                    &&& r == calibration_command(
                        run,
                        calibration_duty(
                            old(self).spec_pid_cal().next_output(CALIBRATION_CURRENT, i_a, dt),
                        ),
                    )
                    &&& final(self).spec_state() == calibration_next(
                        run,
                        accumulated_angle as int,
                        sample_count as int,
                        first_reference as int,
                        angle as int,
                        old(self).spec_settle(),
                        old(self).spec_samples(),
                    )
                    &&& final(self).spec_pid_cal().accumulated() == old(
                        self,
                    ).spec_pid_cal().next_accumulated(CALIBRATION_CURRENT, i_a, dt)
                    &&& final(self).spec_pid_cal().previous() == CALIBRATION_CURRENT - i_a
                } else {
                    &&& final(self).spec_state() == ControlState::Faulted
                    &&& r == idle_command()
                },
                _ => false,
            },
    {
        let (run, accumulated_angle, sample_count, first_reference) = match self.state {
            ControlState::Calibrating { run, accumulated_angle, sample_count, first_reference } => (
                run,
                accumulated_angle,
                sample_count,
                first_reference,
            ),
            _ => {
                proof {
                    assert(false);
                }
                return self.fault();
            },
        };
        if !self.pid_cal.step_fits(CALIBRATION_CURRENT, i_a, dt) {
            return self.fault();
        }
        let v = self.pid_cal.output(CALIBRATION_CURRENT, i_a, dt);
        let duty = supply_fraction(v, 0, ONE);
        let ghost settle = self.settle as int;
        let ghost held = held_samples(sample_count as int, settle);
        assert(held * (i32::MIN as int) >= (u32::MAX as int) * (i32::MIN as int)) by (nonlinear_arith)
            requires
                0 <= held <= u32::MAX,
        ;
        assert(held * (i32::MAX as int) <= (u32::MAX as int) * (i32::MAX as int)) by (nonlinear_arith)
            requires
                0 <= held <= u32::MAX,
        ;
        let acc: i64 = if sample_count >= self.settle {
            accumulated_angle + angle as i64
        } else {
            accumulated_angle
        };
        let count = sample_count + 1;
        if count < self.samples {
            self.state = ControlState::Calibrating {
                run,
                accumulated_angle: acc,
                sample_count: count,
                first_reference,
            };
        } else {
            let held_all = (self.samples - self.settle) as i128;
            proof {
                assert(held_samples(count as int, settle) == held_all);
                lemma_div_trunc_bounds(acc as int, held_all as int, i32::MIN as int, i32::MAX as int);
            }
            let reference = div_trunc_exec(acc as i128, held_all) as i32;
            self.state = match run {
                CalibrationRun::PhaseAB => ControlState::Calibrating {
                    run: CalibrationRun::PhaseAC,
                    accumulated_angle: 0,
                    sample_count: 0,
                    first_reference: reference,
                },
                CalibrationRun::PhaseAC => {
                    proof {
                        lemma_div_trunc_bounds(
                            first_reference + reference,
                            2,
                            i32::MIN as int,
                            i32::MAX as int,
                        );
                    }
                    ControlState::Running {
                        angle_offset: div_trunc_exec(first_reference as i128 + reference as i128, 2)
                            as i32,
                    }
                },
            };
        }
        PhaseCommand {
            duty_a: duty,
            duty_b: 0,
            duty_c: 0,
            enable_a: true,
            enable_b: run == CalibrationRun::PhaseAB,
            enable_c: run == CalibrationRun::PhaseAC,
        }
    }

    /// Electrical angle (Q16.16 degrees) of the measured `physical` angle: twice its
    /// distance from the calibrated offset.
    pub fn electrical_angle(&self, physical: i32) -> (r: i64)
        requires
            self.spec_state() is Running,
        ensures
            self.spec_state() matches ControlState::Running { angle_offset } && r == 2 * (
            angle_offset - physical),
    {
        match self.state {
            ControlState::Running { angle_offset } => 2 * (angle_offset as i64 - physical as i64),
            _ => 0,
        }
    }

    /// Runs one control cycle. Without a throttle (disabled input) every output is off
    /// and nothing changes. With a throttle (Q16.16), the phase currents `i_a`, `i_b`,
    /// `i_c` are turned into the rotating frame of the electrical angle whose sine and
    /// cosine are given, the d-axis current is regulated to zero and the q-axis current
    /// to the throttle's share of full current, and the regulators' voltages are turned
    /// back into three phase duties. A regulator step beyond the range of `i64` shuts the
    /// loop down.
    pub fn cycle(
        &mut self,
        throttle: Option<i32>,
        i_a: i32,
        i_b: i32,
        i_c: i32,
        angle_sin: i32,
        angle_cos: i32,
        dt: i32,
    ) -> (r: PhaseCommand)
        requires
            old(self).wf(),
            old(self).spec_state() is Running,
            dt > 0,
        ensures
            final(self).wf(),
            final(self).spec_settle() == old(self).spec_settle(),
            final(self).spec_samples() == old(self).spec_samples(),
            final(self).spec_pid_cal() == old(self).spec_pid_cal(),
            match throttle {
                None => {
                    &&& r == idle_command()
                    &&& *final(self) == *old(self)
                },
                Some(t) => {
                    let (d, q) = measured_dq(
                        i_a as int,
                        i_b as int,
                        i_c as int,
                        angle_sin as int,
                        angle_cos as int,
                    );
                    let sp = q_setpoint(t as int);
                    if old(self).spec_pid_d().fits(0, d as i32, dt) && old(self).spec_pid_q().fits(
                        sp as i32,
                        q as i32,
                        dt,
                    ) {
                        &&& r == running_command(
                            old(self).spec_pid_d().next_output(0, d as i32, dt),
                            old(self).spec_pid_q().next_output(sp as i32, q as i32, dt),
                            angle_sin as int,
                            angle_cos as int,
                        )
                        &&& final(self).spec_state() == old(self).spec_state()
                        &&& final(self).spec_pid_d().accumulated() == old(
                            self,
                        ).spec_pid_d().next_accumulated(0, d as i32, dt)
                        &&& final(self).spec_pid_d().previous() == 0 - d
                        &&& final(self).spec_pid_q().accumulated() == old(
                            self,
                        ).spec_pid_q().next_accumulated(sp as i32, q as i32, dt)
                        &&& final(self).spec_pid_q().previous() == sp - q
                    } else {
                        &&& final(self).spec_state() == ControlState::Faulted
                        &&& r == idle_command()
                    }
                },
            },
    {
        let t = match throttle {
            None => {
                return PhaseCommand {
                    duty_a: 0,
                    duty_b: 0,
                    duty_c: 0,
                    enable_a: false,
                    enable_b: false,
                    enable_c: false,
                };
            },
            Some(t) => t,
        };
        let (alpha, beta) = clarke_transform(i_a, i_b, i_c);
        let alpha = saturate_exec(alpha);
        let beta = saturate_exec(beta);
        let (d, q) = park_transform(alpha, beta, angle_sin, angle_cos);
        let d = saturate_exec(d);
        let q = saturate_exec(q);
        assert(-0x8000_0000_0000_0000 <= t * FULL_THROTTLE_CURRENT <= 0x8000_0000_0000_0000) by (nonlinear_arith)
            requires
                -0x8000_0000 <= t <= 0x8000_0000,
                FULL_THROTTLE_CURRENT == 1110835,
        ;
        let scaled = t as i128 * FULL_THROTTLE_CURRENT as i128;
        proof {
            lemma_div_trunc_bounds(
                scaled as int,
                ONE as int,
                -0x8000_0000_0000,
                0x8000_0000_0000,
            );
        }
        let sp = saturate_exec(div_trunc_exec(scaled, ONE as i128) as i64);
        if !(self.pid_d.step_fits(0, d, dt) && self.pid_q.step_fits(sp, q, dt)) {
            return self.fault();
        }
        let v_d = saturate_exec(self.pid_d.output(0, d, dt));
        let v_q = saturate_exec(self.pid_q.output(sp, q, dt));
        let (x, y) = inverse_park_transform(v_d, v_q, angle_sin, angle_cos);
        let x = saturate_exec(x);
        let y = saturate_exec(y);
        let (v_a, v_b, v_c) = inverse_clarke_transform(x, y);
        PhaseCommand {
            duty_a: phase_duty_exec(v_a),
            duty_b: phase_duty_exec(v_b),
            duty_c: phase_duty_exec(v_c),
            enable_a: true,
            enable_b: true,
            enable_c: true,
        }
    }

    /// Shuts the loop down: it stays faulted with every output off.
    pub fn fault(&mut self) -> (r: PhaseCommand)
        requires
            old(self).wf(),
        ensures
            final(self).wf(),
            final(self).spec_state() == ControlState::Faulted,
            final(self).spec_settle() == old(self).spec_settle(),
            final(self).spec_samples() == old(self).spec_samples(),
            final(self).spec_pid_cal() == old(self).spec_pid_cal(),
            final(self).spec_pid_d() == old(self).spec_pid_d(),
            final(self).spec_pid_q() == old(self).spec_pid_q(),
            r == idle_command(),
    {
        self.state = ControlState::Faulted;
        PhaseCommand {
            duty_a: 0,
            duty_b: 0,
            duty_c: 0,
            enable_a: false,
            enable_b: false,
            enable_c: false,
        }
    }
}

} // verus!
