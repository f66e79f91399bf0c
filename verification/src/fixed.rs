//! 16.16 fixed-point scalars.
//!
//! A scalar is an `i64` holding `65536` times its real value.  Executable
//! multiplication and division truncate toward zero, exactly like the
//! corresponding operations on hardware floats rounded toward zero; every
//! operation's contract states the resulting integer precisely via [`tdiv`].

use vstd::prelude::*;

verus! {

use vstd::arithmetic::div_mod::lemma_fundamental_div_mod;
use vstd::arithmetic::div_mod::lemma_div_is_ordered;
use vstd::arithmetic::div_mod::lemma_div_pos_is_pos;

/// The fixed-point unit: the representation of the real number one.
pub const FX_ONE: i64 = 65536;

/// Largest magnitude accepted for clip-space coordinates and raw
/// attribute values (plus/minus 32768.0 in real terms).
pub const VAL_MAX: i64 = 0x8000_0000;

/// Smallest usable magnitude of a perspective divisor (1/256 in real
/// terms); triangles closer to the eye plane than this are discarded.
pub const W_MIN: i64 = 256;

/// Magnitude bound on attribute values after division by a perspective
/// divisor of magnitude at least [`W_MIN`].
pub const CORR_MAX: i64 = 0x100_0000_0000;

/// Magnitude bound on screen-space coordinates (plus/minus 8192 pixels).
pub const COORD_MAX: i64 = 0x2000_0000;

/// Magnitude bound on an interpolated reciprocal-w denominator.
pub const INVW_MAX: i64 = 0x800_0000;

/// The magnitude of an integer.
pub open spec fn mag(a: int) -> int {
    if a >= 0 {
        a
    } else {
        -a
    }
}

/// Truncating integer division: the quotient is rounded toward zero,
/// matching what the executable operations in this crate compute.
pub open spec fn tdiv(a: int, b: int) -> int {
    if a >= 0 {
        if b >= 0 {
            a / b
        } else {
            -(a / -b)
        }
    } else {
        if b >= 0 {
            -(-a / b)
        } else {
            -a / -b
        }
    }
}

/// The fixed-point product of `a` and `b`.
pub open spec fn fx_mul_s(a: int, b: int) -> int {
    tdiv(a * b, FX_ONE as int)
}

/// The fixed-point quotient of `a` by `b`.
pub open spec fn fx_div_s(a: int, b: int) -> int {
    tdiv(a * FX_ONE, b)
}

/// A raw attribute or clip-space value within the representable range.
pub open spec fn fx_val(a: int) -> bool {
    -VAL_MAX <= a <= VAL_MAX
}

/// A perspective-corrected attribute value within the range produced by
/// dividing a [`fx_val`] value by a divisor of magnitude at least [`W_MIN`].
pub open spec fn fx_corr(a: int) -> bool {
    -CORR_MAX <= a <= CORR_MAX
}

/// A barycentric weight expressed in fixed point: between zero and one.
pub open spec fn fx_weight(a: int) -> bool {
    0 <= a <= FX_ONE
}

/// The magnitude of a truncating quotient is the Euclidean quotient of
/// the magnitudes; in particular it never exceeds the dividend's.
pub proof fn lemma_tdiv_mag(a: int, b: int)
    requires
        b != 0,
    ensures
        mag(tdiv(a, b)) == mag(a) / mag(b),
        mag(tdiv(a, b)) <= mag(a),
        a >= 0 && b > 0 ==> tdiv(a, b) == a / b,
{
    if mag(a) > 0 {
        lemma_div_pos_is_pos(mag(a) as int, mag(b) as int);
    }
    assert(mag(a) <= mag(a) * mag(b)) by (nonlinear_arith)
        requires
            mag(b) >= 1;
    lemma_div_is_ordered(mag(a) as int, mag(a) * mag(b), mag(b) as int);
    assert(mag(a) * mag(b) / mag(b) == mag(a)) by {
        vstd::arithmetic::div_mod::lemma_div_by_multiple(mag(a) as int, mag(b) as int);
    }
}

/// Truncating division of two bounded machine integers.
pub fn div_trunc(a: i64, b: i64) -> (q: i64)
    requires
        b != 0,
        -0x4000_0000_0000_0000 <= a <= 0x4000_0000_0000_0000,
        -0x4000_0000_0000_0000 <= b <= 0x4000_0000_0000_0000,
    ensures
        q == tdiv(a as int, b as int),
        mag(q as int) <= mag(a as int),
{
    proof {
        lemma_tdiv_mag(a as int, b as int);
    }
    let ua: u64 = if a >= 0 {
        a as u64
    } else {
        (-a) as u64
    };
    let ub: u64 = if b >= 0 {
        b as u64
    } else {
        (-b) as u64
    };
    let uq: u64 = ua / ub;
    if (a < 0) != (b < 0) {
        -(uq as i64)
    } else {
        uq as i64
    }
}

/// Truncating division of two bounded 128-bit integers, for products that
/// do not fit in 64 bits.
pub fn div_trunc_wide(a: i128, b: i128) -> (q: i128)
    requires
        b != 0,
        -0x4000_0000_0000_0000_0000_0000_0000_0000 <= a <= 0x4000_0000_0000_0000_0000_0000_0000_0000,
        -0x4000_0000_0000_0000_0000_0000_0000_0000 <= b <= 0x4000_0000_0000_0000_0000_0000_0000_0000,
    ensures
        q == tdiv(a as int, b as int),
        mag(q as int) <= mag(a as int),
{
    proof {
        lemma_tdiv_mag(a as int, b as int);
    }
    let ua: u128 = if a >= 0 {
        a as u128
    } else {
        (-a) as u128
    };
    let ub: u128 = if b >= 0 {
        b as u128
    } else {
        (-b) as u128
    };
    let uq: u128 = ua / ub;
    if (a < 0) != (b < 0) {
        -(uq as i128)
    } else {
        uq as i128
    }
}

/// Fixed-point multiplication, truncating toward zero.
pub fn fx_mul(a: i64, b: i64) -> (r: i64)
    requires
        -0x8000_0000 <= a <= 0x8000_0000,
        -0x8000_0000 <= b <= 0x8000_0000,
    ensures
        r == fx_mul_s(a as int, b as int),
        mag(r as int) * (FX_ONE as int) <= mag((a * b) as int),
{
    proof {
        assert(-0x4000_0000_0000_0000 <= a * b <= 0x4000_0000_0000_0000) by (nonlinear_arith)
            requires
                -0x8000_0000 <= a <= 0x8000_0000,
                -0x8000_0000 <= b <= 0x8000_0000;
        lemma_tdiv_mag((a * b) as int, FX_ONE as int);
        assert(mag((a * b) as int) / (FX_ONE as int) * (FX_ONE as int) <= mag((a * b) as int)) by {
            lemma_fundamental_div_mod(mag((a * b) as int) as int, FX_ONE as int);
        }
        assert(mag(tdiv((a * b) as int, FX_ONE as int)) * (FX_ONE as int) <= mag((a * b) as int))
            by (nonlinear_arith)
            requires
                mag(tdiv((a * b) as int, FX_ONE as int)) == mag((a * b) as int) / (FX_ONE as int),
                mag((a * b) as int) / (FX_ONE as int) * (FX_ONE as int) <= mag((a * b) as int);
    }
    let p: i64 = a * b;
    div_trunc(p, FX_ONE)
}

/// Fixed-point division, truncating toward zero.
pub fn fx_div(a: i64, b: i64) -> (r: i64)
    requires
        b != 0,
        -0x4000_0000_0000 <= a <= 0x4000_0000_0000,
        -0x4000_0000_0000_0000 <= b <= 0x4000_0000_0000_0000,
    ensures
        r == fx_div_s(a as int, b as int),
        mag(r as int) <= mag((a * FX_ONE) as int),
{
    proof {
        assert(-0x4000_0000_0000_0000 <= a * (FX_ONE as int) <= 0x4000_0000_0000_0000)
            by (nonlinear_arith)
            requires
                -0x4000_0000_0000 <= a <= 0x4000_0000_0000;
    }
    let p: i64 = a * FX_ONE;
    div_trunc(p, b)
}

/// The smaller of two scalars.
pub fn fx_min(a: i64, b: i64) -> (r: i64)
    ensures
        r == vstd::math::min(a as int, b as int),
{
    if a <= b {
        a
    } else {
        b
    }
}

/// The larger of two scalars.
pub fn fx_max(a: i64, b: i64) -> (r: i64)
    ensures
        r == vstd::math::max(a as int, b as int),
{
    if a >= b {
        a
    } else {
        b
    }
}

/// `value` pinned to the closed interval from `lo` to `hi`.
pub fn fx_clamp(value: i64, lo: i64, hi: i64) -> (r: i64)
    requires
        lo <= hi,
    ensures
        r == vstd::math::max(lo as int, vstd::math::min(value as int, hi as int)),
        lo <= r <= hi,
{
    if value < lo {
        lo
    } else if value > hi {
        hi
    } else {
        value
    }
}

/// The magnitude of a bounded scalar.
pub fn fx_mag(a: i64) -> (r: i64)
    requires
        a > i64::MIN,
    ensures
        r == mag(a as int),
{
    if a < 0 {
        -a
    } else {
        a
    }
}

/// The integer square root: the largest integer whose square does not
/// exceed `n`, found by binary search.
pub fn isqrt(n: u64) -> (r: u64)
    ensures
        r * r <= n,
        (r + 1) * (r + 1) > n,
{
    let mut lo: u64 = 0;
    let mut hi: u64 = 0x1_0000_0000;
    proof {
        assert((0x1_0000_0000u64 as int) * (0x1_0000_0000u64 as int) > u64::MAX as int)
            by (nonlinear_arith);
    }
    while lo + 1 < hi
        invariant
            lo < hi <= 0x1_0000_0000,
            lo * lo <= n,
            (hi as int) * (hi as int) > n,
        decreases hi - lo,
    {
        let mid: u64 = lo + (hi - lo) / 2;
        proof {
            assert(mid * mid < 0x1_0000_0000_0000_0000) by (nonlinear_arith)
                requires
                    mid < 0x1_0000_0000;
        }
        if mid * mid <= n {
            lo = mid;
        } else {
            hi = mid;
        }
    }
    proof {
        assert((lo + 1) as int * ((lo + 1) as int) == (hi as int) * (hi as int));
    }
    lo
}

/// The square root of a nonnegative fixed-point scalar, as a
/// fixed-point scalar rounded down: the result's square in real terms
/// never exceeds the argument.
pub fn fx_sqrt(v: i64) -> (r: i64)
    requires
        0 <= v <= 0x1_0000_0000_0000,
    ensures
        is_sqrt(v * FX_ONE, r as int),
{
    if v == 0x1_0000_0000_0000 {
        proof {
            assert(is_sqrt(0x1_0000_0000_0000 * (FX_ONE as int), 0x1_0000_0000))
                by (nonlinear_arith);
        }
        return 0x1_0000_0000;
    }
    proof {
        assert(v * (FX_ONE as int) <= 0xFFFF_FFFF_FFFF * 0x1_0000) by (nonlinear_arith)
            requires
                v <= 0xFFFF_FFFF_FFFF;
    }
    let scaled: u64 = (v as u64) * (FX_ONE as u64);
    let root: u64 = isqrt(scaled);
    proof {
        assert((root as int) * (root as int) <= scaled as int);
        assert(root as int <= 0x1_0000_0000) by (nonlinear_arith)
            requires
                (root as int) * (root as int) <= scaled as int,
                scaled <= 0xFFFF_FFFF_FFFF * 0x1_0000;
    }
    root as i64
}

/// A truncating quotient of a nonnegative dividend by a positive
/// divisor is nonnegative.
pub proof fn lemma_tdiv_nonneg(a: int, b: int)
    requires
        a >= 0,
        b > 0,
    ensures
        tdiv(a, b) >= 0,
{
    if a > 0 {
        lemma_div_pos_is_pos(a, b);
    }
}

/// Whether `r` is the integer square root of `n`, rounded down.
pub open spec fn is_sqrt(n: int, r: int) -> bool {
    0 <= r && r * r <= n < (r + 1) * (r + 1)
}

/// The fixed-point square of a bounded scalar is nonnegative and fits
/// well under the square-root domain.
pub proof fn lemma_sq_term(x: int)
    requires
        -0x8000_0000 <= x <= 0x8000_0000,
    ensures
        0 <= fx_mul_s(x, x) <= 0x4000_0000_0000,
{
    assert(0 <= x * x <= 0x4000_0000_0000_0000) by (nonlinear_arith)
        requires
            -0x8000_0000 <= x <= 0x8000_0000;
    lemma_tdiv_nonneg(x * x, FX_ONE as int);
    lemma_tdiv_mag(x * x, FX_ONE as int);
    lemma_div_is_ordered(x * x, 0x4000_0000_0000_0000, FX_ONE as int);
}

} // verus!
