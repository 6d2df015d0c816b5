use foc_core::control::{CalibrationRun, ControlLoop, ControlState, PhaseCommand};
use foc_core::fixed::ONE;
use foc_core::throttle::{throttle_command, ThrottleCell};

fn idle() -> PhaseCommand {
    PhaseCommand {
        duty_a: 0,
        duty_b: 0,
        duty_c: 0,
        enable_a: false,
        enable_b: false,
        enable_c: false,
    }
}

fn calibrated() -> ControlLoop {
    let mut ctl = ControlLoop::new(2, 4, 0, 0, 0);
    for angle in [10, 20, 30 * ONE, 50 * ONE] {
        ctl.calibrate(angle, 0, 100);
    }
    for angle in [0, 0, 20 * ONE, 40 * ONE] {
        ctl.calibrate(angle, 0, 100);
    }
    ctl
}

#[test]
fn calibration_averages_the_two_runs() {
    let mut ctl = ControlLoop::new(2, 4, 0, 0, 0);
    let first = ctl.calibrate(10, 0, 100);
    assert_eq!(
        first,
        PhaseCommand {
            duty_a: 0,
            duty_b: 0,
            duty_c: 0,
            enable_a: true,
            enable_b: true,
            enable_c: false,
        }
    );
    for angle in [20, 30 * ONE, 50 * ONE] {
        ctl.calibrate(angle, 0, 100);
    }
    assert_eq!(
        ctl.state(),
        ControlState::Calibrating {
            run: CalibrationRun::PhaseAC,
            accumulated_angle: 0,
            sample_count: 0,
            first_reference: 40 * ONE,
        }
    );
    let second = ctl.calibrate(0, 0, 100);
    assert!(second.enable_c && !second.enable_b);
    for angle in [0, 20 * ONE, 40 * ONE] {
        ctl.calibrate(angle, 0, 100);
    }
    assert_eq!(ctl.state(), ControlState::Running { angle_offset: 35 * ONE });
}

#[test]
fn calibration_drives_phase_a_toward_reference_current() {
    let mut ctl = ControlLoop::new(2, 4, ONE, 0, 0);
    let cmd = ctl.calibrate(0, 0, 100);
    assert_eq!(cmd.duty_a, 15603);
    let saturated = ctl.calibrate(0, -1000 * ONE, 100);
    assert_eq!(saturated.duty_a, ONE);
    let reversed = ctl.calibrate(0, 1000 * ONE, 100);
    assert_eq!(reversed.duty_a, 0);
}

#[test]
fn electrical_angle_is_twice_distance_from_offset() {
    let ctl = calibrated();
    assert_eq!(ctl.electrical_angle(5 * ONE), 60 * ONE as i64);
    assert_eq!(ctl.electrical_angle(40 * ONE), -10 * ONE as i64);
}

#[test]
fn disabled_cycle_outputs_nothing_and_keeps_offset() {
    let mut ctl = calibrated();
    let cmd = ctl.cycle(None, 5 * ONE, -ONE, 3, 0, ONE, 100);
    assert_eq!(cmd, idle());
    assert_eq!(cmd.duty_a + cmd.duty_b + cmd.duty_c, 0);
    assert_eq!(ctl.state(), ControlState::Running { angle_offset: 35 * ONE });
}

#[test]
fn enabled_cycle_with_no_error_is_centred() {
    let mut ctl = calibrated();
    let cmd = ctl.cycle(Some(0), 0, 0, 0, 0, ONE, 100);
    assert_eq!(
        cmd,
        PhaseCommand {
            duty_a: ONE / 2,
            duty_b: ONE / 2,
            duty_c: ONE / 2,
            enable_a: true,
            enable_b: true,
            enable_c: true,
        }
    );
}

#[test]
fn enabled_cycle_regulates_q_current() {
    let mut ctl = ControlLoop::new(0, 1, ONE, 0, 0);
    ctl.calibrate(0, 0, 100);
    ctl.calibrate(0, 0, 100);
    assert_eq!(ctl.state(), ControlState::Running { angle_offset: 0 });
    // zero angle: q is beta; throttle 1/2 asks for 16.95 / 2 A on q
    let cmd = ctl.cycle(Some(ONE / 2), 0, 0, 0, 0, ONE, 100);
    // v_q = 555417 (8.475 V): phase b gets +sqrt(3)/2 of it, phase c the opposite
    assert_eq!(cmd.duty_a, ONE / 2);
    assert_eq!(cmd.duty_b, 51855);
    assert_eq!(cmd.duty_c, 13680);
}

#[test]
fn fault_is_terminal_and_idle() {
    let mut ctl = calibrated();
    assert_eq!(ctl.fault(), idle());
    assert_eq!(ctl.state(), ControlState::Faulted);
}

#[test]
fn fault_clears_throttle_despite_later_radio_writes() {
    let mut cell = ThrottleCell::new();
    assert_eq!(cell.read(), None);
    cell.write(Some(ONE / 2));
    assert_eq!(cell.read(), Some(ONE / 2));
    cell.trip();
    assert_eq!(cell.read(), None);
    cell.write(Some(ONE));
    cell.write(throttle_command(1900, 2000));
    assert_eq!(cell.read(), None);
}

#[test]
fn receiver_channels_map_to_throttle() {
    assert_eq!(throttle_command(1000, 1500), Some(0));
    assert_eq!(throttle_command(1900, 1500), Some(ONE));
    assert_eq!(throttle_command(1450, 1201), Some(ONE / 2));
    assert_eq!(throttle_command(1450, 1200), None);
    assert_eq!(throttle_command(500, 2000), Some(0));
    assert_eq!(throttle_command(2047, 2000), Some(ONE));
}

#[test]
fn tripped_cell_reports_latch() {
    let mut cell = ThrottleCell::new();
    assert!(!cell.is_latched());
    cell.trip();
    assert!(cell.is_latched());
}

#[test]
fn regulator_overflow_shuts_the_loop_down() {
    let mut ctl = ControlLoop::new(2, 4, i32::MAX, 0, i32::MAX);
    let first = ctl.calibrate(0, i32::MIN, 1);
    assert!(first.enable_a);
    let second = ctl.calibrate(0, i32::MAX, 1);
    assert_eq!(second, idle());
    assert_eq!(ctl.state(), ControlState::Faulted);
}
