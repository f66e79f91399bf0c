//! Tests of the fixed-point vector operations.

use black::{Vec2, Vec3, Vec4};
use black::fixed::FX_ONE;
use black::vec2::lerp_component;
use black::fixed::{fx_sqrt, isqrt};

#[test]
fn vec2_arithmetic() {
    let a = Vec2 { x: FX_ONE, y: 2 * FX_ONE };
    let b = Vec2 { x: 3 * FX_ONE, y: -FX_ONE };
    assert_eq!(Vec2::add(&a, &b), Vec2 { x: 4 * FX_ONE, y: FX_ONE });
    assert_eq!(Vec2::sub(&a, &b), Vec2 { x: -2 * FX_ONE, y: 3 * FX_ONE });
    assert_eq!(Vec2::mul(&a, &b), Vec2 { x: 3 * FX_ONE, y: -2 * FX_ONE });
    assert_eq!(Vec2::scale(&a, 2 * FX_ONE), Vec2 { x: 2 * FX_ONE, y: 4 * FX_ONE });
    assert_eq!(Vec2::dot(&a, &b), FX_ONE);
    assert_eq!(Vec2::negate(&a), Vec2 { x: -FX_ONE, y: -2 * FX_ONE });
    assert!(Vec2::equals(&a, &a));
    assert!(!Vec2::equals(&a, &b));
}

#[test]
fn vec3_cross_product_of_axes() {
    let x = Vec3::unit_x();
    let y = Vec3::unit_y();
    assert_eq!(Vec3::cross(&x, &y), Vec3::unit_z());
    assert_eq!(Vec3::cross(&y, &x), Vec3 { x: 0, y: 0, z: -FX_ONE });
}

#[test]
fn vec3_length_sq() {
    let v = Vec3 { x: 3 * FX_ONE, y: 4 * FX_ONE, z: 0 };
    assert_eq!(Vec3::length_sq(&v), 25 * FX_ONE);
}

#[test]
fn vec4_componentwise_ops() {
    let a = Vec4 { x: FX_ONE, y: -FX_ONE, z: 2 * FX_ONE, w: FX_ONE };
    let b = Vec4::all(2 * FX_ONE);
    assert_eq!(
        Vec4::mul(&a, &b),
        Vec4 { x: 2 * FX_ONE, y: -2 * FX_ONE, z: 4 * FX_ONE, w: 2 * FX_ONE }
    );
    assert_eq!(Vec4::div(&a, &b), Vec4 { x: FX_ONE / 2, y: -FX_ONE / 2, z: FX_ONE, w: FX_ONE / 2 });
    assert_eq!(Vec4::xyz(&a), black::Vec3 { x: FX_ONE, y: -FX_ONE, z: 2 * FX_ONE });
    assert_eq!(Vec3::xyzw(&Vec4::xyz(&a), FX_ONE).w, FX_ONE);
}

#[test]
fn clamp_and_min_max_are_componentwise() {
    let v = Vec4 { x: 5 * FX_ONE, y: -5 * FX_ONE, z: 0, w: FX_ONE };
    let lo = Vec4::zero();
    let hi = Vec4::one();
    assert_eq!(
        Vec4::clamp(&v, &lo, &hi),
        Vec4 { x: FX_ONE, y: 0, z: 0, w: FX_ONE }
    );
    assert_eq!(Vec4::min(&v, &lo), Vec4 { x: 0, y: -5 * FX_ONE, z: 0, w: 0 });
    assert_eq!(Vec4::max(&v, &hi), Vec4 { x: 5 * FX_ONE, y: FX_ONE, z: FX_ONE, w: FX_ONE });
}

#[test]
fn lerp_walks_the_segment() {
    assert_eq!(lerp_component(0, 10 * FX_ONE, FX_ONE / 2), 5 * FX_ONE);
    assert_eq!(lerp_component(0, 10 * FX_ONE, 0), 0);
    assert_eq!(lerp_component(0, 10 * FX_ONE, FX_ONE), 10 * FX_ONE);
    let a = Vec2::zero();
    let b = Vec2 { x: 4 * FX_ONE, y: -4 * FX_ONE };
    assert_eq!(Vec2::lerp(&a, &b, FX_ONE / 4), Vec2 { x: FX_ONE, y: -FX_ONE });
}

#[test]
fn integer_square_roots() {
    assert_eq!(isqrt(0), 0);
    assert_eq!(isqrt(1), 1);
    assert_eq!(isqrt(15), 3);
    assert_eq!(isqrt(16), 4);
    assert_eq!(isqrt(u64::MAX), 0xFFFF_FFFF);
}

#[test]
fn fixed_point_square_roots() {
    assert_eq!(fx_sqrt(4 * FX_ONE), 2 * FX_ONE);
    assert_eq!(fx_sqrt(0), 0);
    // the square root of two, rounded down in 16.16 fixed point
    assert_eq!(fx_sqrt(2 * FX_ONE), 92681);
}

#[test]
fn length_and_normalize() {
    let v = Vec3 { x: 3 * FX_ONE, y: 4 * FX_ONE, z: 0 };
    assert_eq!(Vec3::length(&v), 5 * FX_ONE);
    let n = Vec3::normalize(&v);
    assert_eq!(n, Vec3 { x: 39321, y: 52428, z: 0 });
    let u = Vec2 { x: FX_ONE, y: 0 };
    assert_eq!(Vec2::length(&u), FX_ONE);
    assert_eq!(Vec2::normalize(&u), Vec2 { x: FX_ONE, y: 0 });
    let w = Vec4 { x: 0, y: 0, z: 0, w: 2 * FX_ONE };
    assert_eq!(Vec4::length(&w), 2 * FX_ONE);
}
