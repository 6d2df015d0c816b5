use foc_core::fixed::ONE;
use foc_core::pid::PIDController;

#[test]
fn proportional_only_reproduces_error() {
    let mut pid = PIDController::new(ONE, 0, 0, Some(3 * ONE as i64));
    assert_eq!(pid.output(5 * ONE, 2 * ONE, ONE), 3 * ONE as i64);
    assert_eq!(pid.output(-ONE, 4 * ONE, 100), -5 * ONE as i64);
    assert_eq!(pid.output(7, 7, 1), 0);
    let mut free = PIDController::new(ONE, 0, 0, None);
    for k in 0..50 {
        assert_eq!(free.output(k * 1000, -k * 333, 17), (k * 1333) as i64);
    }
}

#[test]
fn integrator_is_clamped_to_limit() {
    let limit = 10 * ONE as i64;
    let mut pid = PIDController::new(0, ONE, 0, Some(limit));
    for step in 1..=100i64 {
        let out = pid.output(ONE, 0, ONE);
        assert!(pid.accumulated_error().abs() <= limit);
        assert_eq!(pid.accumulated_error(), (step * ONE as i64).min(limit));
        assert_eq!(out, pid.accumulated_error());
    }
    for _ in 0..100 {
        pid.output(-ONE, 0, ONE);
        assert!(pid.accumulated_error() >= -limit);
    }
    assert_eq!(pid.accumulated_error(), -limit);
}

#[test]
fn derivative_divides_by_time_step() {
    let mut pid = PIDController::new(0, 0, ONE, None);
    assert_eq!(pid.output(2 * ONE, 0, ONE / 2), 4 * ONE as i64);
    assert_eq!(pid.output(2 * ONE, 0, ONE / 2), 0);
}

#[test]
fn integral_uses_time_step() {
    let mut pid = PIDController::new(0, ONE, 0, None);
    assert_eq!(pid.output(ONE, 0, ONE / 4), (ONE / 4) as i64);
    assert_eq!(pid.output(ONE, 0, ONE / 4), (ONE / 2) as i64);
}

#[test]
fn modify_keeps_history() {
    let mut pid = PIDController::new(0, ONE, 0, None);
    pid.output(ONE, 0, ONE);
    pid.modify(ONE, ONE, 0);
    assert_eq!(pid.k_p, ONE);
    assert_eq!(pid.accumulated_error(), ONE as i64);
    assert_eq!(pid.output(ONE, 0, ONE), 3 * ONE as i64);
}

#[test]
fn step_beyond_i64_is_detected() {
    let pid = PIDController::new(i32::MAX, 0, i32::MAX, None);
    assert!(!pid.step_fits(i32::MAX, i32::MIN, 1));
    assert!(pid.step_fits(ONE, 0, ONE));
}
