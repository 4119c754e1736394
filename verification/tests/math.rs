//! Fixed-point arithmetic, trigonometry and decay on concrete values.

use drift::fx::{fx_add, fx_mul, isqrt_u128, FX_MAX, SCALE};
use drift::decay::{exp_neg, E_INV};
use drift::trig::{cos_fx, sin_fx, wrap_angle, HALF_TURN, QUARTER_TURN, TURN};
use drift::vec2::Vec2;
use drift::misc::{get_angle_diff, get_components, rotate_vec};

#[test]
fn fx_mul_scales_and_truncates() {
    assert_eq!(fx_mul(3_500_000, 2_000_000), 7_000_000);
    assert_eq!(fx_mul(-3, SCALE), -3);
    assert_eq!(fx_mul(1, 1), 0); // truncation toward zero
    assert_eq!(fx_mul(-1, 1), 0);
    assert_eq!(fx_mul(50_000_000, 904_838), 45_241_900);
}

#[test]
fn fx_ops_clamp_at_range_edge() {
    assert_eq!(fx_mul(FX_MAX, 2 * SCALE), FX_MAX);
    assert_eq!(fx_mul(-FX_MAX, 2 * SCALE), -FX_MAX);
    assert_eq!(fx_add(FX_MAX, FX_MAX), FX_MAX);
    assert_eq!(fx_add(-FX_MAX, -1), -FX_MAX);
}

#[test]
fn isqrt_exact_and_floor() {
    assert_eq!(isqrt_u128(0), 0);
    assert_eq!(isqrt_u128(1), 1);
    assert_eq!(isqrt_u128(24), 4);
    assert_eq!(isqrt_u128(25), 5);
    assert_eq!(isqrt_u128(2_500_000_000_000_000), 50_000_000);
}

#[test]
fn wrap_angle_covers_negatives() {
    assert_eq!(wrap_angle(0), 0);
    assert_eq!(wrap_angle(TURN), 0);
    assert_eq!(wrap_angle(-250_000), 750_000);
    assert_eq!(wrap_angle(2_300_000), 300_000);
    assert_eq!(wrap_angle(-2_300_000), 700_000);
}

#[test]
fn sine_cardinal_values_are_exact() {
    assert_eq!(sin_fx(0), 0);
    assert_eq!(sin_fx(QUARTER_TURN), SCALE);
    assert_eq!(sin_fx(HALF_TURN), 0);
    assert_eq!(sin_fx(3 * QUARTER_TURN), -SCALE);
    assert_eq!(cos_fx(0), SCALE);
    assert_eq!(cos_fx(QUARTER_TURN), 0);
    assert_eq!(cos_fx(HALF_TURN), -SCALE);
    assert_eq!(cos_fx(3 * QUARTER_TURN), 0);
}

#[test]
fn sine_is_odd_cosine_is_even() {
    for a in [1, 123_456, 333_333, 499_999, 740_000, 999_999, 1_234_567] {
        assert_eq!(sin_fx(-a), -sin_fx(a));
        assert_eq!(cos_fx(-a), cos_fx(a));
    }
    assert_eq!(sin_fx(-123_456), -699_011);
    assert_eq!(cos_fx(123_456), 712_688);
}

#[test]
fn sine_eighth_turn_close_to_reference() {
    // sin(pi/4) is about 0.70711; the quarter-wave approximation gives
    // 0.70588, within two thousandths.
    assert_eq!(sin_fx(TURN / 8), 705_882);
}

#[test]
fn exp_neg_known_values() {
    assert_eq!(exp_neg(0), SCALE);
    assert_eq!(exp_neg(100_000), 904_838); // e^-0.1 ~ 0.904837
    assert_eq!(exp_neg(500_000), 606_771); // e^-0.5 ~ 0.606531
    assert_eq!(exp_neg(SCALE), E_INV); // e^-1
    assert_eq!(exp_neg(14_000_000), 0);
}

#[test]
fn exp_neg_strictly_below_one_for_positive_input() {
    for x in [1, 10, 999, 100_000, 999_999, 1_000_001, 5_000_000] {
        let v = exp_neg(x);
        assert!(v < SCALE);
        assert!(v >= 0);
    }
}

#[test]
fn vector_length_and_distance() {
    let v = Vec2 { x: 3_000_000, y: 4_000_000 };
    assert_eq!(v.length(), 5_000_000);
    assert_eq!(Vec2 { x: 0, y: 0 }.length(), 0);
    let a = Vec2 { x: 10_000_000, y: 0 };
    let b = Vec2 { x: 7_000_000, y: 4_000_000 };
    assert_eq!(a.distance_to(b), 5_000_000);
}

#[test]
fn components_along_half_turn_heading() {
    let v = get_components(50_000_000, HALF_TURN);
    assert_eq!(v.x, 0);
    assert_eq!(v.y, -50_000_000);
    let w = get_components(50_000_000, QUARTER_TURN);
    assert_eq!(w.x, 50_000_000);
    assert_eq!(w.y, 0);
}

#[test]
fn rotate_quarter_turn_moves_x_to_y() {
    let v = Vec2 { x: SCALE, y: 0 };
    let r = rotate_vec(v, QUARTER_TURN);
    assert_eq!(r.x, 0);
    assert_eq!(r.y, SCALE);
    let back = rotate_vec(r, -QUARTER_TURN);
    assert_eq!(back.x, SCALE);
    assert_eq!(back.y, 0);
}

#[test]
fn angle_diff_folds_once_about_half_turn() {
    assert_eq!(get_angle_diff(900_000, 0), -100_000);
    assert_eq!(get_angle_diff(0, 900_000), 100_000);
    assert_eq!(get_angle_diff(400_000, 100_000), 300_000);
    assert_eq!(get_angle_diff(100_000, 400_000), -300_000);
}
