use soccer_core::angles::clamp_angle;
use soccer_core::num::{div_trunc, isqrt64};
use soccer_core::trig::{atan2_deg, construct_vector, cos_q, sin_q};

#[test]
fn normalize_range_and_values() {
    assert_eq!(clamp_angle(0), 0);
    assert_eq!(clamp_angle(180), 180);
    assert_eq!(clamp_angle(181), -179);
    assert_eq!(clamp_angle(-180), 180);
    assert_eq!(clamp_angle(359), -1);
    assert_eq!(clamp_angle(360), 0);
    assert_eq!(clamp_angle(-360), 0);
    assert_eq!(clamp_angle(1125), 45);
    assert_eq!(clamp_angle(-1000000), 80);
    assert_eq!(clamp_angle(1000000), -80);
}

#[test]
fn normalize_idempotent() {
    for a in [
        0, 1, -1, 45, 179, 180, 181, -179, -180, 359, 360, 720, 123456, -123456, 1000000,
        -1000000,
    ] {
        let once = clamp_angle(a);
        assert_eq!(clamp_angle(once), once);
        assert!(-180 < once && once <= 180);
    }
}

#[test]
fn sine_exact_points() {
    assert_eq!(sin_q(0), 0);
    assert_eq!(sin_q(30), 5000);
    assert_eq!(sin_q(90), 10000);
    assert_eq!(sin_q(150), 5000);
    assert_eq!(sin_q(180), 0);
    assert_eq!(sin_q(-30), -5000);
    assert_eq!(sin_q(-90), -10000);
    assert_eq!(sin_q(45), 7058);
    assert_eq!(sin_q(60), 8648);
}

#[test]
fn cosine_exact_points() {
    assert_eq!(cos_q(0), 10000);
    assert_eq!(cos_q(60), 5000);
    assert_eq!(cos_q(90), 0);
    assert_eq!(cos_q(180), -10000);
    assert_eq!(cos_q(-90), 0);
    assert_eq!(cos_q(-60), 5000);
}

#[test]
fn sine_odd_and_opposite() {
    for a in [1, 17, 45, 89, 90, 135, 179] {
        assert_eq!(sin_q(-a), -sin_q(a));
        let opp = clamp_angle(a + 180);
        assert_eq!(sin_q(opp), -sin_q(a));
        assert_eq!(cos_q(opp), -cos_q(a));
    }
}

#[test]
fn vector_angle_exact_points() {
    assert_eq!(atan2_deg(0, 5), 0);
    assert_eq!(atan2_deg(5, 5), 45);
    assert_eq!(atan2_deg(5, 0), 90);
    assert_eq!(atan2_deg(0, -5), 180);
    assert_eq!(atan2_deg(-5, 5), -45);
    assert_eq!(atan2_deg(5, -5), 135);
    assert_eq!(atan2_deg(-5, -5), -135);
    assert_eq!(atan2_deg(3, 4), 36);
    assert_eq!(atan2_deg(0, 0), 0);
}

#[test]
fn vector_length() {
    let (d, a) = construct_vector(300, 400);
    assert_eq!(d, 500);
    assert_eq!(a, 36);
    let (d, a) = construct_vector(0, 0);
    assert_eq!(d, 0);
    assert_eq!(a, 0);
}

#[test]
fn integer_square_root() {
    assert_eq!(isqrt64(0), 0);
    assert_eq!(isqrt64(1), 1);
    assert_eq!(isqrt64(3), 1);
    assert_eq!(isqrt64(4), 2);
    assert_eq!(isqrt64(249999), 499);
    assert_eq!(isqrt64(250000), 500);
}

#[test]
fn truncating_division() {
    assert_eq!(div_trunc(7, 2), 3);
    assert_eq!(div_trunc(-7, 2), -3);
    assert_eq!(div_trunc(0, 5), 0);
    assert_eq!(div_trunc(-1, 10000), 0);
}
