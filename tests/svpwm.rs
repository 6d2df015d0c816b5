use foc_core::fixed::ONE;
use foc_core::svpwm::{isqrt, sector, svpwm, SvpwmError, SECTOR_WIDTH, TURN};

#[test]
fn zero_reference_is_half_period_everywhere() {
    for (angle, s, c) in [(0, 0, ONE), (1_000_000, 9000, 60000), (-77, -ONE, 0)] {
        assert_eq!(svpwm(0, 0, angle, s, c, 12 * ONE, ONE), Ok((32768, 32768, 32768)));
    }
    assert_eq!(svpwm(0, 0, 0, 0, ONE, ONE, 1001), Ok((500, 500, 500)));
}

#[test]
fn longer_than_dc_link_is_refused() {
    let v_dc = 12 * ONE;
    assert_eq!(svpwm(v_dc, 1, 0, 0, ONE, v_dc, ONE), Err(SvpwmError::OverModulation));
    assert_eq!(svpwm(v_dc / 2, v_dc, 0, 0, ONE, v_dc, ONE), Err(SvpwmError::OverModulation));
}

#[test]
fn reference_equal_to_dc_link_is_refused() {
    let v_dc = 12 * ONE;
    assert_eq!(svpwm(v_dc, 0, 0, 0, ONE, v_dc, ONE), Err(SvpwmError::OverModulation));
    assert_eq!(svpwm(3, 4, 0, 0, ONE, 5, ONE), Err(SvpwmError::OverModulation));
}

#[test]
fn reference_just_below_dc_link_stays_within_period() {
    let v_dc = 12 * ONE;
    let t = svpwm(v_dc - 1, 0, 0, 0, ONE, v_dc, ONE).unwrap();
    assert_eq!(t, (61145, 4390, 4390));
    for x in [t.0, t.1, t.2] {
        assert!(0 <= x && x <= ONE as i64);
    }
}

#[test]
fn sector_boundaries_hold_lower_edge() {
    let w = SECTOR_WIDTH as i32;
    assert_eq!(sector(0), 1);
    assert_eq!(sector(w - 1), 1);
    assert_eq!(sector(w), 2);
    assert_eq!(sector(w + 1), 2);
    assert_eq!(sector(5 * w + 1), 6);
    assert_eq!(sector(TURN as i32), 1);
    assert_eq!(sector(-1), 6);
}

#[test]
fn sector_mapping_of_second_sector() {
    let w = SECTOR_WIDTH as i32;
    // 90 degrees: sin 1, cos 0, sector 2
    let t = svpwm(ONE, 0, w + w / 2, ONE, 0, 2 * ONE, ONE).unwrap();
    // t1 = t2 = ts * |v| / v_dc * sin(30) = ONE / 4; null time ONE / 2
    assert_eq!(t, (ONE as i64 / 4 + ONE as i64 / 4, ONE as i64 * 3 / 4, ONE as i64 / 4));
}

#[test]
fn integer_square_roots() {
    assert_eq!(isqrt(0), 0);
    assert_eq!(isqrt(15), 3);
    assert_eq!(isqrt(16), 4);
    assert_eq!(isqrt(u64::MAX), 4294967295);
}
