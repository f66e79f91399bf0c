//! Tests of the interpolation protocol and the fixed-point scalars.

use black::{Interpolate, Vec2, Vec3, Vec4};
use black::fixed::{div_trunc, fx_clamp, fx_div, fx_mul, FX_ONE};
use black::interpolate::{fx_correct, fx_interp};

#[test]
fn truncating_division_rounds_toward_zero() {
    assert_eq!(div_trunc(7, 2), 3);
    assert_eq!(div_trunc(-7, 2), -3);
    assert_eq!(div_trunc(7, -2), -3);
    assert_eq!(div_trunc(-7, -2), 3);
}

#[test]
fn fixed_point_products_and_quotients() {
    assert_eq!(fx_mul(3 * FX_ONE, 2 * FX_ONE), 6 * FX_ONE);
    assert_eq!(fx_mul(FX_ONE / 2, FX_ONE / 2), FX_ONE / 4);
    assert_eq!(fx_div(FX_ONE, 2 * FX_ONE), FX_ONE / 2);
    assert_eq!(fx_div(-FX_ONE, 3 * FX_ONE), -21845);
}

#[test]
fn clamp_pins_to_the_interval() {
    assert_eq!(fx_clamp(5, 0, 10), 5);
    assert_eq!(fx_clamp(-5, 0, 10), 0);
    assert_eq!(fx_clamp(15, 0, 10), 10);
}

#[test]
fn correction_divides_each_field() {
    assert_eq!(fx_correct(6 * FX_ONE, 2 * FX_ONE), 3 * FX_ONE);
    assert_eq!(fx_correct(FX_ONE, -2 * FX_ONE), -FX_ONE / 2);
}

#[test]
fn interpolation_blends_and_divides() {
    // equal thirds of 3, 6 and 9, with a unit reciprocal divisor
    let third = FX_ONE / 3;
    let r = fx_interp(
        3 * FX_ONE,
        6 * FX_ONE,
        9 * FX_ONE,
        third,
        third,
        third,
        FX_ONE,
    );
    // the blend is just below 6 because each weight truncates
    assert!((r - 6 * FX_ONE).abs() < 8);
}

#[test]
fn roundtrip_at_first_vertex_is_exact_for_unit_divisors() {
    // a divisor that divides the fixed-point unit exactly: 0.5
    let w: i64 = FX_ONE / 2;
    let v = Vec4 { x: 300, y: -700, z: 12345, w: -FX_ONE };
    let corrected = <Vec4 as Interpolate>::correct(&v, &w);
    let invw = fx_correct(FX_ONE, w);
    let round = <Vec4 as Interpolate>::interpolate(
        &corrected,
        &corrected,
        &corrected,
        &FX_ONE,
        &0,
        &0,
        &invw,
    );
    assert_eq!(round, v);
}

#[test]
fn zero_bundles_are_all_zero() {
    assert_eq!(<Vec2 as Interpolate>::new(), Vec2 { x: 0, y: 0 });
    assert_eq!(<Vec3 as Interpolate>::new(), Vec3 { x: 0, y: 0, z: 0 });
    assert_eq!(<Vec4 as Interpolate>::new(), Vec4 { x: 0, y: 0, z: 0, w: 0 });
}

#[test]
fn in_range_rejects_oversized_fields() {
    let ok = Vec2 { x: 0x8000_0000, y: -0x8000_0000 };
    assert!(ok.in_range());
    let too_big = Vec2 { x: 0x8000_0001, y: 0 };
    assert!(!too_big.in_range());
}
