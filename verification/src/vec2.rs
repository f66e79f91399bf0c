//! A two-component fixed-point vector.

use vstd::prelude::*;

verus! {

use crate::fixed::FX_ONE;
use crate::fixed::VAL_MAX;
use crate::fixed::div_trunc_wide;
use crate::fixed::fx_clamp;
use crate::fixed::fx_div;
use crate::fixed::fx_div_s;
use crate::fixed::fx_mag;
use crate::fixed::fx_max;
use crate::fixed::fx_min;
use crate::fixed::fx_mul;
use crate::fixed::fx_mul_s;
use crate::fixed::fx_corr;
use crate::fixed::fx_val;
use crate::fixed::mag;
use crate::fixed::tdiv;
use crate::interpolate::Interpolate;
use crate::interpolate::corr_s;
use crate::interpolate::fx_correct;
use crate::interpolate::fx_interp;
use crate::interpolate::interp_s;

/// Linear interpolation of one fixed-point scalar from `a` toward `b`.
pub open spec fn fx_lerp_s(a: int, b: int, t: int) -> int {
    a + tdiv((b - a) * t, FX_ONE as int)
}

/// A 2D vector of 16.16 fixed-point scalars.
#[derive(Clone, Copy, Debug, PartialEq, Eq, Structural)]
pub struct Vec2 {
    pub x: i64,
    pub y: i64,
}

impl Vec2 {
    /// Every component within the raw attribute range.
    pub open spec fn wf(&self) -> bool {
        fx_val(self.x as int) && fx_val(self.y as int)
    }

    /// Every component within the perspective-corrected range.
    pub open spec fn wf_corrected(&self) -> bool {
        fx_corr(self.x as int) && fx_corr(self.y as int)
    }

    /// The vector with the given components.
    pub fn new(x: i64, y: i64) -> (r: Vec2)
        ensures
            r == (Vec2 { x, y }),
    {
        Vec2 { x, y }
    }

    /// The zero vector.
    pub fn zero() -> (r: Vec2)
        ensures
            r == (Vec2 { x: 0i64, y: 0i64 }),
    {
        Vec2 { x: 0, y: 0 }
    }

    /// The vector of ones.
    pub fn one() -> (r: Vec2)
        ensures
            r == (Vec2 { x: FX_ONE, y: FX_ONE }),
    {
        Vec2 { x: FX_ONE, y: FX_ONE }
    }

    /// The unit vector along x.
    pub fn unit_x() -> (r: Vec2)
        ensures
            r == (Vec2 { x: FX_ONE, y: 0i64 }),
    {
        Vec2 { x: FX_ONE, y: 0 }
    }

    /// The unit vector along y.
    pub fn unit_y() -> (r: Vec2)
        ensures
            r == (Vec2 { x: 0i64, y: FX_ONE }),
    {
        Vec2 { x: 0, y: FX_ONE }
    }

    /// Component equality.
    pub fn equals(a: &Vec2, b: &Vec2) -> (r: bool)
        ensures
            r == (a == b),
    {
        a.x == b.x && a.y == b.y
    }

    /// Component-wise sum.
    pub fn add(a: &Vec2, b: &Vec2) -> (r: Vec2)
        requires
            a.wf(),
            b.wf(),
        ensures
            r.x == a.x + b.x,
            r.y == a.y + b.y,
    {
        Vec2 { x: a.x + b.x, y: a.y + b.y }
    }

    /// Component-wise difference.
    pub fn sub(a: &Vec2, b: &Vec2) -> (r: Vec2)
        requires
            a.wf(),
            b.wf(),
        ensures
            r.x == a.x - b.x,
            r.y == a.y - b.y,
    {
        Vec2 { x: a.x - b.x, y: a.y - b.y }
    }

    /// Component-wise fixed-point product.
    pub fn mul(a: &Vec2, b: &Vec2) -> (r: Vec2)
        requires
            a.wf(),
            b.wf(),
        ensures
            r.x == fx_mul_s(a.x as int, b.x as int),
            r.y == fx_mul_s(a.y as int, b.y as int),
    {
        Vec2 { x: fx_mul(a.x, b.x), y: fx_mul(a.y, b.y) }
    }

    /// Component-wise fixed-point quotient.
    pub fn div(a: &Vec2, b: &Vec2) -> (r: Vec2)
        requires
            a.wf(),
            b.wf(),
            b.x != 0,
            b.y != 0,
        ensures
            r.x == fx_div_s(a.x as int, b.x as int),
            r.y == fx_div_s(a.y as int, b.y as int),
    {
        Vec2 { x: fx_div(a.x, b.x), y: fx_div(a.y, b.y) }
    }

    /// Every component multiplied by the scalar `s`.
    pub fn scale(a: &Vec2, s: i64) -> (r: Vec2)
        requires
            a.wf(),
            fx_val(s as int),
        ensures
            r.x == fx_mul_s(a.x as int, s as int),
            r.y == fx_mul_s(a.y as int, s as int),
    {
        Vec2 { x: fx_mul(a.x, s), y: fx_mul(a.y, s) }
    }

    /// The vector with every component negated.
    pub fn negate(a: &Vec2) -> (r: Vec2)
        requires
            a.wf(),
        ensures
            r.x == -a.x,
            r.y == -a.y,
    {
        Vec2 { x: -a.x, y: -a.y }
    }

    /// The fixed-point dot product.
    pub fn dot(a: &Vec2, b: &Vec2) -> (r: i64)
        requires
            a.wf(),
            b.wf(),
        ensures
            r == fx_mul_s(a.x as int, b.x as int) + fx_mul_s(a.y as int, b.y as int),
    {
        proof {
            assert(mag(a.x * b.x) <= 0x4000_0000_0000_0000 && mag(a.y * b.y)
                <= 0x4000_0000_0000_0000) by (nonlinear_arith)
                requires
                    a.wf(),
                    b.wf();
        }
        fx_mul(a.x, b.x) + fx_mul(a.y, b.y)
    }

    /// The squared length, as a fixed-point scalar.
    pub fn length_sq(a: &Vec2) -> (r: i64)
        requires
            a.wf(),
        ensures
            r == fx_mul_s(a.x as int, a.x as int) + fx_mul_s(a.y as int, a.y as int),
    {
        Vec2::dot(a, a)
    }

    /// The component-wise magnitude.
    pub fn abs(a: &Vec2) -> (r: Vec2)
        requires
            a.wf(),
        ensures
            r.x == mag(a.x as int),
            r.y == mag(a.y as int),
    {
        Vec2 { x: fx_mag(a.x), y: fx_mag(a.y) }
    }

    /// The component-wise minimum.
    pub fn min(a: &Vec2, b: &Vec2) -> (r: Vec2)
        ensures
            r.x == vstd::math::min(a.x as int, b.x as int),
            r.y == vstd::math::min(a.y as int, b.y as int),
    {
        Vec2 { x: fx_min(a.x, b.x), y: fx_min(a.y, b.y) }
    }

    /// The component-wise maximum.
    pub fn max(a: &Vec2, b: &Vec2) -> (r: Vec2)
        ensures
            r.x == vstd::math::max(a.x as int, b.x as int),
            r.y == vstd::math::max(a.y as int, b.y as int),
    {
        Vec2 { x: fx_max(a.x, b.x), y: fx_max(a.y, b.y) }
    }

    /// Every component pinned to the interval given by `lo` and `hi`.
    pub fn clamp(a: &Vec2, lo: &Vec2, hi: &Vec2) -> (r: Vec2)
        requires
            lo.x <= hi.x,
            lo.y <= hi.y,
        ensures
            r.x == vstd::math::max(lo.x as int, vstd::math::min(a.x as int, hi.x as int)),
            r.y == vstd::math::max(lo.y as int, vstd::math::min(a.y as int, hi.y as int)),
    {
        Vec2 { x: fx_clamp(a.x, lo.x, hi.x), y: fx_clamp(a.y, lo.y, hi.y) }
    }

    /// Component-wise linear interpolation from `a` toward `b` by `t`.
    pub fn lerp(a: &Vec2, b: &Vec2, t: i64) -> (r: Vec2)
        requires
            a.wf(),
            b.wf(),
            fx_val(t as int),
        ensures
            r.x == fx_lerp_s(a.x as int, b.x as int, t as int),
            r.y == fx_lerp_s(a.y as int, b.y as int, t as int),
    {
        Vec2 { x: lerp_component(a.x, b.x, t), y: lerp_component(a.y, b.y, t) }
    }
}

/// Linear interpolation of one component, widening to 128 bits for the
/// intermediate product.
pub fn lerp_component(a: i64, b: i64, t: i64) -> (r: i64)
    requires
        fx_val(a as int),
        fx_val(b as int),
        fx_val(t as int),
    ensures
        r == fx_lerp_s(a as int, b as int, t as int),
{
    proof {
        assert(-0x1_0000_0000_0000_0000 <= (b - a) * t <= 0x1_0000_0000_0000_0000)
            by (nonlinear_arith)
            requires
                fx_val(a as int),
                fx_val(b as int),
                fx_val(t as int);
    }
    let d: i128 = (b as i128 - a as i128) * (t as i128);
    let q: i128 = div_trunc_wide(d, FX_ONE as i128);
    proof {
        crate::fixed::lemma_tdiv_mag(d as int, FX_ONE as int);
        vstd::arithmetic::div_mod::lemma_div_is_ordered(
            mag(d as int),
            0x1_0000_0000_0000_0000,
            FX_ONE as int,
        );
        assert(mag(q as int) <= 0x1_0000_0000_0000);
    }
    a + (q as i64)
}

impl Interpolate for Vec2 {
    open spec fn zero_spec() -> Vec2 {
        Vec2 { x: 0i64, y: 0i64 }
    }

    open spec fn wf(&self) -> bool {
        Vec2::wf(self)
    }

    open spec fn wf_corrected(&self) -> bool {
        Vec2::wf_corrected(self)
    }

    open spec fn correct_spec(v: Vec2, w: int) -> Vec2 {
        Vec2 { x: corr_s(v.x as int, w) as i64, y: corr_s(v.y as int, w) as i64 }
    }

    open spec fn interpolate_spec(
        v0: Vec2,
        v1: Vec2,
        v2: Vec2,
        w0: int,
        w1: int,
        w2: int,
        w: int,
    ) -> Vec2 {
        Vec2 {
            x: interp_s(v0.x as int, v1.x as int, v2.x as int, w0, w1, w2, w) as i64,
            y: interp_s(v0.y as int, v1.y as int, v2.y as int, w0, w1, w2, w) as i64,
        }
    }

    fn new() -> (r: Vec2) {
        Vec2 { x: 0, y: 0 }
    }

    fn in_range(&self) -> (b: bool) {
        -VAL_MAX <= self.x && self.x <= VAL_MAX && -VAL_MAX <= self.y && self.y <= VAL_MAX
    }

    fn correct(v: &Vec2, w: &i64) -> (r: Vec2) {
        Vec2 { x: fx_correct(v.x, *w), y: fx_correct(v.y, *w) }
    }

    fn interpolate(v0: &Vec2, v1: &Vec2, v2: &Vec2, w0: &i64, w1: &i64, w2: &i64, w: &i64) -> (r:
        Vec2) {
        Vec2 {
            x: fx_interp(v0.x, v1.x, v2.x, *w0, *w1, *w2, *w),
            y: fx_interp(v0.y, v1.y, v2.y, *w0, *w1, *w2, *w),
        }
    }
}

/// The squared length of a vector, as a fixed-point scalar.
pub open spec fn length_sq_s(a: Vec2) -> int {
    fx_mul_s(a.x as int, a.x as int) + fx_mul_s(a.y as int, a.y as int)
}

impl Vec2 {
    /// The length, as a fixed-point scalar rounded down.
    pub fn length(a: &Vec2) -> (r: i64)
        requires
            a.wf(),
        ensures
            crate::fixed::is_sqrt(length_sq_s(*a) * FX_ONE, r as int),
    {
        proof {
        crate::fixed::lemma_sq_term(a.x as int);
        crate::fixed::lemma_sq_term(a.y as int);
        }
        let ls: i64 = Vec2::length_sq(a);
        crate::fixed::fx_sqrt(ls)
    }

    /// The vector scaled to unit length: each component divided by the
    /// rounded-down fixed-point length.
    pub fn normalize(a: &Vec2) -> (r: Vec2)
        requires
            a.wf(),
            length_sq_s(*a) >= FX_ONE,
        ensures
            exists|l: int|
                crate::fixed::is_sqrt(length_sq_s(*a) * FX_ONE, l) && r.x == fx_div_s(a.x as int, l) && r.y == fx_div_s(a.y as int, l),
    {
        let len: i64 = Vec2::length(a);
        proof {
            crate::fixed::lemma_sq_term(a.x as int);
            crate::fixed::lemma_sq_term(a.y as int);
            assert(len <= 0x1_0000_0000) by (nonlinear_arith)
                requires
                    len >= 0,
                    (len as int) * (len as int) <= length_sq_s(*a) * FX_ONE,
                    length_sq_s(*a) <= 0x1_0000_0000_0000;
            assert(len >= FX_ONE) by (nonlinear_arith)
                requires
                    len >= 0,
                    (len as int) * (len as int) <= length_sq_s(*a) * FX_ONE,
                    ((len as int) + 1) * ((len as int) + 1) > length_sq_s(*a) * FX_ONE,
                    length_sq_s(*a) >= FX_ONE;
        }
        let r = Vec2 { x: fx_div(a.x, len), y: fx_div(a.y, len) };
        proof {
            assert(crate::fixed::is_sqrt(length_sq_s(*a) * FX_ONE, len as int) && r.x == fx_div_s(a.x as int, len as int) && r.y == fx_div_s(a.y as int, len as int));
        }
        r
    }
}

} // verus!
