//! The interpolation protocol every varying type must satisfy.
//!
//! A varying is the per-vertex attribute bundle produced by the vertex
//! program.  Screen-space linear interpolation of raw attributes is not
//! perspective-correct: the protocol therefore first divides every leaf
//! field by its vertex's clip-space divisor (`correct`), then blends the
//! three corrected bundles with the pixel's barycentric weights and
//! divides by the interpolated reciprocal divisor (`interpolate`), which
//! undoes the correction non-linearly and yields perspective-correct
//! values.
//!
//! Each leaf field follows the scalar formulas [`corr_s`] and
//! [`interp_s`]; vector-valued fields apply them component-wise.

use vstd::prelude::*;

verus! {

use crate::fixed::FX_ONE;
use crate::fixed::INVW_MAX;
use crate::fixed::VAL_MAX;
use crate::fixed::W_MIN;
use crate::fixed::div_trunc;
use crate::fixed::fx_div;
use crate::fixed::fx_div_s;
use crate::fixed::fx_corr;
use crate::fixed::fx_val;
use crate::fixed::fx_weight;
use crate::fixed::lemma_tdiv_mag;
use crate::fixed::mag;
use crate::fixed::tdiv;

/// One leaf field after perspective correction: the field divided by the
/// vertex's clip-space divisor.
pub open spec fn corr_s(f: int, w: int) -> int {
    fx_div_s(f, w)
}

/// The barycentric blend of three corrected leaf fields.
pub open spec fn blend_s(f0: int, f1: int, f2: int, w0: int, w1: int, w2: int) -> int {
    tdiv(w0 * f0 + w1 * f1 + w2 * f2, FX_ONE as int)
}

/// One leaf field after perspective-correct interpolation: the blend of
/// the corrected fields, divided by the interpolated reciprocal divisor.
pub open spec fn interp_s(
    f0: int,
    f1: int,
    f2: int,
    w0: int,
    w1: int,
    w2: int,
    w: int,
) -> int {
    fx_div_s(blend_s(f0, f1, f2, w0, w1, w2), w)
}

/// Perspective correction of one leaf field.
pub fn fx_correct(f: i64, w: i64) -> (r: i64)
    requires
        fx_val(f as int),
        W_MIN <= mag(w as int) <= VAL_MAX,
    ensures
        r == corr_s(f as int, w as int),
        fx_corr(r as int),
{
    proof {
        lemma_tdiv_mag(f * FX_ONE, w as int);
        assert(mag((f * FX_ONE) as int) / mag(w as int) <= mag((f * FX_ONE) as int) / (W_MIN as int)) by {
            vstd::arithmetic::div_mod::lemma_div_is_ordered_by_denominator(
                mag((f * FX_ONE) as int),
                W_MIN as int,
                mag(w as int),
            );
        }
    }
    fx_div(f, w)
}

/// Perspective-correct interpolation of one leaf field.
pub fn fx_interp(f0: i64, f1: i64, f2: i64, w0: i64, w1: i64, w2: i64, w: i64) -> (r: i64)
    requires
        fx_corr(f0 as int),
        fx_corr(f1 as int),
        fx_corr(f2 as int),
        fx_weight(w0 as int),
        fx_weight(w1 as int),
        fx_weight(w2 as int),
        1 <= w <= INVW_MAX,
    ensures
        r == interp_s(f0 as int, f1 as int, f2 as int, w0 as int, w1 as int, w2 as int, w as int),
{
    proof {
        assert(-0x100_0000_0000_0000 <= w0 * f0 <= 0x100_0000_0000_0000
            && -0x100_0000_0000_0000 <= w1 * f1 <= 0x100_0000_0000_0000
            && -0x100_0000_0000_0000 <= w2 * f2 <= 0x100_0000_0000_0000) by (nonlinear_arith)
            requires
                fx_corr(f0 as int),
                fx_corr(f1 as int),
                fx_corr(f2 as int),
                fx_weight(w0 as int),
                fx_weight(w1 as int),
                fx_weight(w2 as int);
    }
    let sum: i64 = w0 * f0 + w1 * f1 + w2 * f2;
    let blend: i64 = div_trunc(sum, FX_ONE);
    fx_div(blend, w)
}

/// The capability contract for varying types.
///
/// `new` makes the zero bundle used as the accumulator handed to the
/// vertex program; `correct` and `interpolate` apply the scalar formulas
/// to every leaf field.  `in_range` reports whether every leaf field is
/// within the representable attribute range, so that the rasterizer can
/// discard a triangle whose attributes the fixed-point pipeline cannot
/// carry.
pub trait Interpolate: Sized {
    /// The all-zero attribute bundle.
    spec fn zero_spec() -> Self;

    /// Every leaf field within the raw attribute range.
    spec fn wf(&self) -> bool;

    /// Every leaf field within the perspective-corrected range.
    spec fn wf_corrected(&self) -> bool;

    /// The bundle with every leaf field perspective-corrected by `w`.
    spec fn correct_spec(v: Self, w: int) -> Self;

    /// The bundle with every leaf field interpolated at the given
    /// barycentric weights and reciprocal divisor.
    spec fn interpolate_spec(
        v0: Self,
        v1: Self,
        v2: Self,
        w0: int,
        w1: int,
        w2: int,
        w: int,
    ) -> Self;

    /// Returns the zero bundle.
    fn new() -> (r: Self)
        ensures
            r == Self::zero_spec(),
            r.wf(),
            r.wf_corrected(),
    ;

    /// Reports whether every leaf field is within the raw range.
    fn in_range(&self) -> (b: bool)
        ensures
            b == self.wf(),
    ;

    /// Divides every leaf field of `v` by `w`.
    fn correct(v: &Self, w: &i64) -> (r: Self)
        requires
            v.wf(),
            W_MIN <= mag(*w as int) <= VAL_MAX,
        ensures
            r == Self::correct_spec(*v, *w as int),
            r.wf_corrected(),
    ;

    /// Blends three corrected bundles at the weights `w0`, `w1`, `w2` and
    /// divides by the interpolated reciprocal divisor `w`.
    fn interpolate(v0: &Self, v1: &Self, v2: &Self, w0: &i64, w1: &i64, w2: &i64, w: &i64) -> (r:
        Self)
        requires
            v0.wf_corrected(),
            v1.wf_corrected(),
            v2.wf_corrected(),
            fx_weight(*w0 as int),
            fx_weight(*w1 as int),
            fx_weight(*w2 as int),
            1 <= *w <= INVW_MAX,
        ensures
            r == Self::interpolate_spec(*v0, *v1, *v2, *w0 as int, *w1 as int, *w2 as int, *w as int),
    ;
}

/// A quotient of an exact multiple is exact, also under truncation.
proof fn lemma_tdiv_exact(q: int, b: int)
    requires
        b > 0,
    ensures
        tdiv(q * b, b) == q,
{
    if q >= 0 {
        vstd::arithmetic::div_mod::lemma_div_by_multiple(q, b);
        assert(q * b >= 0) by (nonlinear_arith)
            requires
                q >= 0,
                b > 0;
    } else {
        vstd::arithmetic::div_mod::lemma_div_by_multiple(-q, b);
        assert(q * b < 0 && -(q * b) == (-q) * b) by (nonlinear_arith)
            requires
                q < 0,
                b > 0;
    }
}

/// The round-trip law of the protocol, at the first vertex: blending at
/// the weights (one, zero, zero) with the reciprocal of that vertex's
/// own divisor returns the uncorrected value.  Stated for divisors that
/// divide the fixed-point unit exactly, where no rounding occurs and
/// the round trip is an identity; the other two corrected values do not
/// matter, since their weights are zero.
pub proof fn lemma_roundtrip_at_vertex(f: int, w: int, g1: int, g2: int)
    requires
        w > 0,
        (FX_ONE as int) % w == 0,
        crate::fixed::fx_val(f),
    ensures
        interp_s(
            corr_s(f, w),
            g1,
            g2,
            FX_ONE as int,
            0,
            0,
            corr_s(FX_ONE as int, w),
        ) == f,
{
    let k = FX_ONE as int;
    let m = k / w;
    vstd::arithmetic::div_mod::lemma_fundamental_div_mod(k, w);
    assert(k == m * w) by (nonlinear_arith)
        requires
            k == w * m + k % w,
            k % w == 0;
    assert(m >= 1) by (nonlinear_arith)
        requires
            k == m * w,
            0 < w,
            k >= 1;
    assert(f * k == (f * m) * w && k * k == (k * m) * w) by (nonlinear_arith)
        requires
            k == m * w;
    lemma_tdiv_exact(f * m, w);
    lemma_tdiv_exact(k * m, w);
    assert(corr_s(f, w) == f * m);
    assert(corr_s(k, w) == k * m);
    let fc = f * m;
    assert(k * fc + 0 * g1 + 0 * g2 == fc * k) by (nonlinear_arith);
    lemma_tdiv_exact(fc, k);
    assert(blend_s(fc, g1, g2, k, 0, 0) == fc);
    assert(fc * k == f * (k * m)) by (nonlinear_arith)
        requires
            fc == f * m;
    assert(k * m > 0) by (nonlinear_arith)
        requires
            k > 0,
            m >= 1;
    lemma_tdiv_exact(f, k * m);
    assert(interp_s(fc, g1, g2, k, 0, 0, k * m) == f);
}

} // verus!
