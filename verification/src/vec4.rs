//! A four-component fixed-point vector: homogeneous clip-space positions
//! and colors.

use vstd::prelude::*;

verus! {

use crate::fixed::FX_ONE;
use crate::fixed::VAL_MAX;
use crate::fixed::fx_clamp;
use crate::fixed::fx_div;
use crate::fixed::fx_div_s;
use crate::fixed::fx_mag;
use crate::fixed::fx_max;
use crate::fixed::fx_min;
use crate::fixed::fx_mul;
use crate::fixed::fx_mul_s;
use crate::fixed::fx_corr;
use crate::fixed::fx_val;
use crate::fixed::mag;
use crate::interpolate::Interpolate;
use crate::interpolate::corr_s;
use crate::interpolate::fx_correct;
use crate::interpolate::fx_interp;
use crate::interpolate::interp_s;
use crate::vec2::fx_lerp_s;
use crate::vec2::lerp_component;
use crate::vec3::Vec3;

/// A 4D vector of 16.16 fixed-point scalars.
#[derive(Clone, Copy, Debug, PartialEq, Eq, Structural)]
pub struct Vec4 {
    pub x: i64,
    pub y: i64,
    pub z: i64,
    pub w: i64,
}

impl Vec4 {
    /// Every component within the raw attribute range.
    pub open spec fn wf(&self) -> bool {
        fx_val(self.x as int) && fx_val(self.y as int) && fx_val(self.z as int) && fx_val(
            self.w as int,
        )
    }

    /// Every component within the perspective-corrected range.
    pub open spec fn wf_corrected(&self) -> bool {
        fx_corr(self.x as int) && fx_corr(self.y as int) && fx_corr(self.z as int) && fx_corr(
            self.w as int,
        )
    }

    /// The vector with the given components.
    pub fn new(x: i64, y: i64, z: i64, w: i64) -> (r: Vec4)
        ensures
            r == (Vec4 { x, y, z, w }),
    {
        Vec4 { x, y, z, w }
    }

    /// The vector with every component equal to `s`.
    pub fn all(s: i64) -> (r: Vec4)
        ensures
            r == (Vec4 { x: s, y: s, z: s, w: s }),
    {
        Vec4 { x: s, y: s, z: s, w: s }
    }

    /// The zero vector.
    pub fn zero() -> (r: Vec4)
        ensures
            r == (Vec4 { x: 0i64, y: 0i64, z: 0i64, w: 0i64 }),
    {
        Vec4 { x: 0, y: 0, z: 0, w: 0 }
    }

    /// The vector of ones.
    pub fn one() -> (r: Vec4)
        ensures
            r == (Vec4 { x: FX_ONE, y: FX_ONE, z: FX_ONE, w: FX_ONE }),
    {
        Vec4 { x: FX_ONE, y: FX_ONE, z: FX_ONE, w: FX_ONE }
    }

    /// The unit vector along x.
    pub fn unit_x() -> (r: Vec4)
        ensures
            r == (Vec4 { x: FX_ONE, y: 0i64, z: 0i64, w: 0i64 }),
    {
        Vec4 { x: FX_ONE, y: 0, z: 0, w: 0 }
    }

    /// The unit vector along y.
    pub fn unit_y() -> (r: Vec4)
        ensures
            r == (Vec4 { x: 0i64, y: FX_ONE, z: 0i64, w: 0i64 }),
    {
        Vec4 { x: 0, y: FX_ONE, z: 0, w: 0 }
    }

    /// The unit vector along z.
    pub fn unit_z() -> (r: Vec4)
        ensures
            r == (Vec4 { x: 0i64, y: 0i64, z: FX_ONE, w: 0i64 }),
    {
        Vec4 { x: 0, y: 0, z: FX_ONE, w: 0 }
    }

    /// The unit vector along w.
    pub fn unit_w() -> (r: Vec4)
        ensures
            r == (Vec4 { x: 0i64, y: 0i64, z: 0i64, w: FX_ONE }),
    {
        Vec4 { x: 0, y: 0, z: 0, w: FX_ONE }
    }

    /// Component equality.
    pub fn equals(a: &Vec4, b: &Vec4) -> (r: bool)
        ensures
            r == (a == b),
    {
        a.x == b.x && a.y == b.y && a.z == b.z && a.w == b.w
    }

    /// Component-wise sum.
    pub fn add(a: &Vec4, b: &Vec4) -> (r: Vec4)
        requires
            a.wf(),
            b.wf(),
        ensures
            r.x == a.x + b.x,
            r.y == a.y + b.y,
            r.z == a.z + b.z,
            r.w == a.w + b.w,
    {
        Vec4 { x: a.x + b.x, y: a.y + b.y, z: a.z + b.z, w: a.w + b.w }
    }

    /// Component-wise difference.
    pub fn sub(a: &Vec4, b: &Vec4) -> (r: Vec4)
        requires
            a.wf(),
            b.wf(),
        ensures
            r.x == a.x - b.x,
            r.y == a.y - b.y,
            r.z == a.z - b.z,
            r.w == a.w - b.w,
    {
        Vec4 { x: a.x - b.x, y: a.y - b.y, z: a.z - b.z, w: a.w - b.w }
    }

    /// Component-wise fixed-point product.
    pub fn mul(a: &Vec4, b: &Vec4) -> (r: Vec4)
        requires
            a.wf(),
            b.wf(),
        ensures
            r.x == fx_mul_s(a.x as int, b.x as int),
            r.y == fx_mul_s(a.y as int, b.y as int),
            r.z == fx_mul_s(a.z as int, b.z as int),
            r.w == fx_mul_s(a.w as int, b.w as int),
    {
        Vec4 { x: fx_mul(a.x, b.x), y: fx_mul(a.y, b.y), z: fx_mul(a.z, b.z), w: fx_mul(a.w, b.w) }
    }

    /// Component-wise fixed-point quotient.
    pub fn div(a: &Vec4, b: &Vec4) -> (r: Vec4)
        requires
            a.wf(),
            b.wf(),
            b.x != 0,
            b.y != 0,
            b.z != 0,
            b.w != 0,
        ensures
            r.x == fx_div_s(a.x as int, b.x as int),
            r.y == fx_div_s(a.y as int, b.y as int),
            r.z == fx_div_s(a.z as int, b.z as int),
            r.w == fx_div_s(a.w as int, b.w as int),
    {
        Vec4 { x: fx_div(a.x, b.x), y: fx_div(a.y, b.y), z: fx_div(a.z, b.z), w: fx_div(a.w, b.w) }
    }

    /// Every component multiplied by the scalar `s`.
    pub fn scale(a: &Vec4, s: i64) -> (r: Vec4)
        requires
            a.wf(),
            fx_val(s as int),
        ensures
            r.x == fx_mul_s(a.x as int, s as int),
            r.y == fx_mul_s(a.y as int, s as int),
            r.z == fx_mul_s(a.z as int, s as int),
            r.w == fx_mul_s(a.w as int, s as int),
    {
        Vec4 { x: fx_mul(a.x, s), y: fx_mul(a.y, s), z: fx_mul(a.z, s), w: fx_mul(a.w, s) }
    }

    /// The vector with every component negated.
    pub fn negate(a: &Vec4) -> (r: Vec4)
        requires
            a.wf(),
        ensures
            r.x == -a.x,
            r.y == -a.y,
            r.z == -a.z,
            r.w == -a.w,
    {
        Vec4 { x: -a.x, y: -a.y, z: -a.z, w: -a.w }
    }

    /// The fixed-point dot product.
    pub fn dot(a: &Vec4, b: &Vec4) -> (r: i64)
        requires
            a.wf(),
            b.wf(),
        ensures
            r == fx_mul_s(a.x as int, b.x as int) + fx_mul_s(a.y as int, b.y as int) + fx_mul_s(
                a.z as int,
                b.z as int,
            ) + fx_mul_s(a.w as int, b.w as int),
    {
        proof {
            lemma_vec4_products_bounded(*a, *b);
        }
        fx_mul(a.x, b.x) + fx_mul(a.y, b.y) + fx_mul(a.z, b.z) + fx_mul(a.w, b.w)
    }

    /// The squared length, as a fixed-point scalar.
    pub fn length_sq(a: &Vec4) -> (r: i64)
        requires
            a.wf(),
        ensures
            r == fx_mul_s(a.x as int, a.x as int) + fx_mul_s(a.y as int, a.y as int) + fx_mul_s(
                a.z as int,
                a.z as int,
            ) + fx_mul_s(a.w as int, a.w as int),
    {
        Vec4::dot(a, a)
    }

    /// The component-wise magnitude.
    pub fn abs(a: &Vec4) -> (r: Vec4)
        requires
            a.wf(),
        ensures
            r.x == mag(a.x as int),
            r.y == mag(a.y as int),
            r.z == mag(a.z as int),
            r.w == mag(a.w as int),
    {
        Vec4 { x: fx_mag(a.x), y: fx_mag(a.y), z: fx_mag(a.z), w: fx_mag(a.w) }
    }

    /// The component-wise minimum.
    pub fn min(a: &Vec4, b: &Vec4) -> (r: Vec4)
        ensures
            r.x == vstd::math::min(a.x as int, b.x as int),
            r.y == vstd::math::min(a.y as int, b.y as int),
            r.z == vstd::math::min(a.z as int, b.z as int),
            r.w == vstd::math::min(a.w as int, b.w as int),
    {
        Vec4 { x: fx_min(a.x, b.x), y: fx_min(a.y, b.y), z: fx_min(a.z, b.z), w: fx_min(a.w, b.w) }
    }

    /// The component-wise maximum.
    pub fn max(a: &Vec4, b: &Vec4) -> (r: Vec4)
        ensures
            r.x == vstd::math::max(a.x as int, b.x as int),
            r.y == vstd::math::max(a.y as int, b.y as int),
            r.z == vstd::math::max(a.z as int, b.z as int),
            r.w == vstd::math::max(a.w as int, b.w as int),
    {
        Vec4 { x: fx_max(a.x, b.x), y: fx_max(a.y, b.y), z: fx_max(a.z, b.z), w: fx_max(a.w, b.w) }
    }

    /// Every component pinned to the interval given by `lo` and `hi`.
    pub fn clamp(a: &Vec4, lo: &Vec4, hi: &Vec4) -> (r: Vec4)
        requires
            lo.x <= hi.x,
            lo.y <= hi.y,
            lo.z <= hi.z,
            lo.w <= hi.w,
        ensures
            r.x == vstd::math::max(lo.x as int, vstd::math::min(a.x as int, hi.x as int)),
            r.y == vstd::math::max(lo.y as int, vstd::math::min(a.y as int, hi.y as int)),
            r.z == vstd::math::max(lo.z as int, vstd::math::min(a.z as int, hi.z as int)),
            r.w == vstd::math::max(lo.w as int, vstd::math::min(a.w as int, hi.w as int)),
    {
        Vec4 {
            x: fx_clamp(a.x, lo.x, hi.x),
            y: fx_clamp(a.y, lo.y, hi.y),
            z: fx_clamp(a.z, lo.z, hi.z),
            w: fx_clamp(a.w, lo.w, hi.w),
        }
    }

    /// Component-wise linear interpolation from `a` toward `b` by `t`.
    pub fn lerp(a: &Vec4, b: &Vec4, t: i64) -> (r: Vec4)
        requires
            a.wf(),
            b.wf(),
            fx_val(t as int),
        ensures
            r.x == fx_lerp_s(a.x as int, b.x as int, t as int),
            r.y == fx_lerp_s(a.y as int, b.y as int, t as int),
            r.z == fx_lerp_s(a.z as int, b.z as int, t as int),
            r.w == fx_lerp_s(a.w as int, b.w as int, t as int),
    {
        Vec4 {
            x: lerp_component(a.x, b.x, t),
            y: lerp_component(a.y, b.y, t),
            z: lerp_component(a.z, b.z, t),
            w: lerp_component(a.w, b.w, t),
        }
    }

    /// The first three components.
    pub fn xyz(a: &Vec4) -> (r: Vec3)
        ensures
            r == (Vec3 { x: a.x, y: a.y, z: a.z }),
    {
        Vec3 { x: a.x, y: a.y, z: a.z }
    }
}

/// The pairwise component products of two bounded vectors fit in 64 bits.
proof fn lemma_vec4_products_bounded(a: Vec4, b: Vec4)
    by (nonlinear_arith)
    requires
        a.wf(),
        b.wf(),
    ensures
        mag(a.x * b.x) <= 0x4000_0000_0000_0000,
        mag(a.y * b.y) <= 0x4000_0000_0000_0000,
        mag(a.z * b.z) <= 0x4000_0000_0000_0000,
        mag(a.w * b.w) <= 0x4000_0000_0000_0000,
{
}

impl Interpolate for Vec4 {
    open spec fn zero_spec() -> Vec4 {
        Vec4 { x: 0i64, y: 0i64, z: 0i64, w: 0i64 }
    }

    open spec fn wf(&self) -> bool {
        Vec4::wf(self)
    }

    open spec fn wf_corrected(&self) -> bool {
        Vec4::wf_corrected(self)
    }

    open spec fn correct_spec(v: Vec4, w: int) -> Vec4 {
        Vec4 {
            x: corr_s(v.x as int, w) as i64,
            y: corr_s(v.y as int, w) as i64,
            z: corr_s(v.z as int, w) as i64,
            w: corr_s(v.w as int, w) as i64,
        }
    }

    open spec fn interpolate_spec(
        v0: Vec4,
        v1: Vec4,
        v2: Vec4,
        w0: int,
        w1: int,
        w2: int,
        w: int,
    ) -> Vec4 {
        Vec4 {
            x: interp_s(v0.x as int, v1.x as int, v2.x as int, w0, w1, w2, w) as i64,
            y: interp_s(v0.y as int, v1.y as int, v2.y as int, w0, w1, w2, w) as i64,
            z: interp_s(v0.z as int, v1.z as int, v2.z as int, w0, w1, w2, w) as i64,
            w: interp_s(v0.w as int, v1.w as int, v2.w as int, w0, w1, w2, w) as i64,
        }
    }

    fn new() -> (r: Vec4) {
        Vec4 { x: 0, y: 0, z: 0, w: 0 }
    }

    fn in_range(&self) -> (b: bool) {
        -VAL_MAX <= self.x && self.x <= VAL_MAX && -VAL_MAX <= self.y && self.y <= VAL_MAX
            && -VAL_MAX <= self.z && self.z <= VAL_MAX && -VAL_MAX <= self.w && self.w <= VAL_MAX
    }

    fn correct(v: &Vec4, w: &i64) -> (r: Vec4) {
        Vec4 {
            x: fx_correct(v.x, *w),
            y: fx_correct(v.y, *w),
            z: fx_correct(v.z, *w),
            w: fx_correct(v.w, *w),
        }
    }

    fn interpolate(v0: &Vec4, v1: &Vec4, v2: &Vec4, w0: &i64, w1: &i64, w2: &i64, w: &i64) -> (r:
        Vec4) {
        Vec4 {
            x: fx_interp(v0.x, v1.x, v2.x, *w0, *w1, *w2, *w),
            y: fx_interp(v0.y, v1.y, v2.y, *w0, *w1, *w2, *w),
            z: fx_interp(v0.z, v1.z, v2.z, *w0, *w1, *w2, *w),
            w: fx_interp(v0.w, v1.w, v2.w, *w0, *w1, *w2, *w),
        }
    }
}

/// The squared length of a vector, as a fixed-point scalar.
pub open spec fn length_sq_s(a: Vec4) -> int {
    fx_mul_s(a.x as int, a.x as int) + fx_mul_s(a.y as int, a.y as int) + fx_mul_s(a.z as int, a.z as int) + fx_mul_s(a.w as int, a.w as int)
}

impl Vec4 {
    /// The length, as a fixed-point scalar rounded down.
    pub fn length(a: &Vec4) -> (r: i64)
        requires
            a.wf(),
        ensures
            crate::fixed::is_sqrt(length_sq_s(*a) * FX_ONE, r as int),
    {
        proof {
        crate::fixed::lemma_sq_term(a.x as int);
        crate::fixed::lemma_sq_term(a.y as int);
        crate::fixed::lemma_sq_term(a.z as int);
        crate::fixed::lemma_sq_term(a.w as int);
        }
        let ls: i64 = Vec4::length_sq(a);
        crate::fixed::fx_sqrt(ls)
    }

    /// The vector scaled to unit length: each component divided by the
    /// rounded-down fixed-point length.
    pub fn normalize(a: &Vec4) -> (r: Vec4)
        requires
            a.wf(),
            length_sq_s(*a) >= FX_ONE,
        ensures
            exists|l: int|
                crate::fixed::is_sqrt(length_sq_s(*a) * FX_ONE, l) && r.x == fx_div_s(a.x as int, l) && r.y == fx_div_s(a.y as int, l) && r.z == fx_div_s(a.z as int, l) && r.w == fx_div_s(a.w as int, l),
    {
        let len: i64 = Vec4::length(a);
        proof {
            crate::fixed::lemma_sq_term(a.x as int);
            crate::fixed::lemma_sq_term(a.y as int);
            crate::fixed::lemma_sq_term(a.z as int);
            crate::fixed::lemma_sq_term(a.w as int);
            assert(len <= 0x1_0000_0000) by (nonlinear_arith)
                requires
                    len >= 0,
                    (len as int) * (len as int) <= length_sq_s(*a) * FX_ONE,
                    length_sq_s(*a) <= 0x1_0000_0000_0000;
            assert(len >= FX_ONE) by (nonlinear_arith)
                requires
                    len >= 0,
                    (len as int) * (len as int) <= length_sq_s(*a) * FX_ONE,
                    ((len as int) + 1) * ((len as int) + 1) > length_sq_s(*a) * FX_ONE,
                    length_sq_s(*a) >= FX_ONE;
        }
        let r = Vec4 { x: fx_div(a.x, len), y: fx_div(a.y, len), z: fx_div(a.z, len), w: fx_div(a.w, len) };
        proof {
            assert(crate::fixed::is_sqrt(length_sq_s(*a) * FX_ONE, len as int) && r.x == fx_div_s(a.x as int, len as int) && r.y == fx_div_s(a.y as int, len as int) && r.z == fx_div_s(a.z as int, len as int) && r.w == fx_div_s(a.w as int, len as int));
        }
        r
    }
}

} // verus!
