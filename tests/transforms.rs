use foc_core::fixed::ONE;
use foc_core::transforms::{
    clarke_transform, inverse_clarke_transform, inverse_park_transform, park_transform,
};

#[test]
fn clarke_of_phase_a_peak() {
    assert_eq!(clarke_transform(ONE, -ONE / 2, -ONE / 2), (ONE as i64, 0));
}

#[test]
fn clarke_of_b_minus_c() {
    assert_eq!(clarke_transform(0, ONE, -ONE), (0, 75674));
}

#[test]
fn inverse_clarke_values() {
    assert_eq!(inverse_clarke_transform(ONE, 0), (ONE as i64, -(ONE as i64) / 2, -(ONE as i64) / 2));
    assert_eq!(inverse_clarke_transform(0, 75674), (0, 65535, -65535));
}

#[test]
fn clarke_round_trip_of_balanced_triples() {
    for (a, b, c) in [(ONE, -ONE / 2, -ONE / 2), (1000, 2000, -3000), (123456, -654321, 530865)] {
        let (alpha, beta) = clarke_transform(a, b, c);
        let (a2, b2, c2) = inverse_clarke_transform(alpha as i32, beta as i32);
        assert_eq!(a2, a as i64);
        let tol = 2 + ((b as i64 - c as i64).abs() >> 19);
        assert!((b2 - b as i64).abs() <= tol);
        assert!((c2 - c as i64).abs() <= tol);
    }
    let (alpha, beta) = clarke_transform(123456, -654321, 530865);
    assert_eq!((alpha, beta), (123456, -684263));
    assert_eq!(inverse_clarke_transform(123456, -684263), (123456, -654318, 530862));
}

#[test]
fn park_at_zero_angle_is_identity() {
    assert_eq!(park_transform(1234, -5678, 0, ONE), (1234, -5678));
    assert_eq!(inverse_park_transform(1234, -5678, 0, ONE), (1234, -5678));
}

#[test]
fn park_at_quarter_turn() {
    assert_eq!(park_transform(3, 7, ONE, 0), (7, -3));
    assert_eq!(inverse_park_transform(7, -3, ONE, 0), (3, 7));
}

#[test]
fn park_round_trip_at_thirty_degrees() {
    let (s, c) = (32768, 56756);
    let (d, q) = park_transform(100000, -50000, s, c);
    assert_eq!((d, q), (61602, -93301));
    assert_eq!(inverse_park_transform(d as i32, q as i32, s, c), (99999, -50000));
}
