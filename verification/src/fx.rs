//! Saturating fixed-point scalars.
//!
//! A scalar is an `i64` holding `value * SCALE`, i.e. a Q47.16 fixed-point
//! number. Every operation saturates to the `i64` range instead of wrapping,
//! and every executable operation is specified exactly by a spec function
//! over the same representation, so callers can reason about results
//! bit-for-bit.

use vstd::prelude::*;

verus! {

/// Number of representation units per 1.0.
pub const SCALE: i64 = 65536;

/// `SCALE * SCALE`, the representation of 1.0 squared.
pub const SCALE_SQ: u64 = 65536 * 65536;

/// Saturation of a mathematical integer to the `i64` range.
pub open spec fn sat64(x: int) -> int {
    if x > i64::MAX as int {
        i64::MAX as int
    } else if x < i64::MIN as int {
        i64::MIN as int
    } else {
        x
    }
}

/// Division truncated toward zero (the `/` of `int` rounds toward
/// negative infinity).
pub open spec fn tdiv(a: int, b: int) -> int
    recommends
        b > 0,
{
    if a >= 0 {
        a / b
    } else {
        -((-a) / b)
    }
}

/// Saturating fixed-point addition.
pub open spec fn fx_add(a: i64, b: i64) -> i64 {
    sat64((a as int) + (b as int)) as i64
}

/// Saturating fixed-point subtraction.
pub open spec fn fx_sub(a: i64, b: i64) -> i64 {
    sat64((a as int) - (b as int)) as i64
}

/// Saturating fixed-point negation.
pub open spec fn fx_neg(a: i64) -> i64 {
    sat64(-(a as int)) as i64
}

/// Saturating fixed-point multiplication: the double-width product,
/// rescaled by `SCALE` with truncation toward zero.
pub open spec fn fx_mul(a: i64, b: i64) -> i64 {
    sat64(tdiv((a as int) * (b as int), SCALE as int)) as i64
}

/// Saturating fixed-point division `a / b` for `b > 0`; zero otherwise.
pub open spec fn fx_div(a: i64, b: i64) -> i64 {
    if b > 0 {
        sat64(tdiv((a as int) * (SCALE as int), b as int)) as i64
    } else {
        0
    }
}

/// Fixed-point reciprocal `1 / d` for `d > 0`; zero otherwise.
pub open spec fn fx_inv(d: i64) -> i64 {
    if d > 0 {
        ((SCALE_SQ as int) / (d as int)) as i64
    } else {
        0
    }
}

/// Maximum of two scalars.
pub open spec fn fx_max(a: i64, b: i64) -> i64 {
    if a >= b {
        a
    } else {
        b
    }
}

/// Minimum of two scalars.
pub open spec fn fx_min(a: i64, b: i64) -> i64 {
    if a <= b {
        a
    } else {
        b
    }
}

/// Clamp of `v` to `[lo, hi]`, checking the lower bound first.
pub open spec fn fx_clamp(v: i64, lo: i64, hi: i64) -> i64 {
    if v < lo {
        lo
    } else if v > hi {
        hi
    } else {
        v
    }
}

/// Absolute value, saturating (`|i64::MIN|` becomes `i64::MAX`).
pub open spec fn fx_abs(a: i64) -> i64 {
    if a >= 0 {
        a
    } else {
        fx_neg(a)
    }
}

/// The rescaled product of two non-negative scalars is non-negative.
pub proof fn lemma_fx_mul_nonneg(a: i64, b: i64)
    requires
        a >= 0,
        b >= 0,
    ensures
        fx_mul(a, b) >= 0,
{
    assert((a as int) * (b as int) >= 0) by (nonlinear_arith)
        requires
            a >= 0,
            b >= 0,
    ;
}

/// `r` is the floor of the square root of `s`.
pub open spec fn is_sqrt_floor(s: int, r: int) -> bool {
    r >= 0 && r * r <= s && s < (r + 1) * (r + 1)
}

/// Floor of the square root of a non-negative integer.
pub open spec fn sqrt_floor(s: int) -> int {
    choose|r: int| is_sqrt_floor(s, r)
}

/// Two non-negative integers whose squares bracket `s` the same way are equal.
proof fn lemma_sqrt_unique(s: int, a: int, b: int)
    requires
        a >= 0,
        b >= 0,
        a * a <= s,
        s < (a + 1) * (a + 1),
        b * b <= s,
        s < (b + 1) * (b + 1),
    ensures
        a == b,
{
    assert(a == b) by (nonlinear_arith)
        requires
            a >= 0,
            b >= 0,
            a * a <= s,
            s < (a + 1) * (a + 1),
            b * b <= s,
            s < (b + 1) * (b + 1),
    ;
}

fn clamp_i128(s: i128) -> (r: i64)
    ensures
        r as int == sat64(s as int),
{
    if s > i64::MAX as i128 {
        i64::MAX
    } else if s < i64::MIN as i128 {
        i64::MIN
    } else {
        s as i64
    }
}

/// Saturating addition.
pub fn fadd(a: i64, b: i64) -> (r: i64)
    ensures
        r == fx_add(a, b),
{
    clamp_i128(a as i128 + b as i128)
}

/// Saturating subtraction.
pub fn fsub(a: i64, b: i64) -> (r: i64)
    ensures
        r == fx_sub(a, b),
{
    clamp_i128(a as i128 - b as i128)
}

/// Saturating negation.
pub fn fneg(a: i64) -> (r: i64)
    ensures
        r == fx_neg(a),
{
    clamp_i128(-(a as i128))
}

fn div_scale(p: i128) -> (q: i128)
    requires
        -0x40000000000000000000000000000000 <= p
            <= 0x40000000000000000000000000000000,
    ensures
        q == tdiv(p as int, SCALE as int),
{
    if p >= 0 {
        ((p as u128) / (SCALE as u128)) as i128
    } else {
        -(((-p) as u128 / (SCALE as u128)) as i128)
    }
}

/// Saturating multiplication with rescale by `SCALE`.
pub fn fmul(a: i64, b: i64) -> (r: i64)
    ensures
        r == fx_mul(a, b),
{
    proof {
        assert(-0x40000000000000000000000000000000 <= (a as int) * (b as int)
            <= 0x40000000000000000000000000000000) by (nonlinear_arith)
            requires
                (i64::MIN as int) <= (a as int) <= (i64::MAX as int),
                (i64::MIN as int) <= (b as int) <= (i64::MAX as int),
        ;
    }
    let p: i128 = (a as i128) * (b as i128);
    clamp_i128(div_scale(p))
}

/// Saturating division `a / b` for `b > 0`; zero otherwise.
pub fn fdiv(a: i64, b: i64) -> (r: i64)
    ensures
        r == fx_div(a, b),
{
    if b > 0 {
        proof {
            assert(-0x40000000000000000000000000000000 <= (a as int) * (SCALE as int)
                <= 0x40000000000000000000000000000000) by (nonlinear_arith)
                requires
                    (i64::MIN as int) <= (a as int) <= (i64::MAX as int),
                    SCALE == 65536i64,
            ;
        }
        let p: i128 = (a as i128) * (SCALE as i128);
        clamp_i128(div_scale_by(p, b as i128))
    } else {
        0
    }
}

fn div_scale_by(p: i128, d: i128) -> (q: i128)
    requires
        d > 0,
        -0x40000000000000000000000000000000 <= p
            <= 0x40000000000000000000000000000000,
    ensures
        q == tdiv(p as int, d as int),
{
    if p >= 0 {
        ((p as u128) / (d as u128)) as i128
    } else {
        -(((-p) as u128 / (d as u128)) as i128)
    }
}

/// Fixed-point reciprocal `1 / d` for `d > 0`; zero otherwise.
pub fn finv(d: i64) -> (r: i64)
    ensures
        r == fx_inv(d),
{
    if d > 0 {
        let q: u64 = SCALE_SQ / (d as u64);
        q as i64
    } else {
        0
    }
}

/// Maximum.
pub fn fmax(a: i64, b: i64) -> (r: i64)
    ensures
        r == fx_max(a, b),
{
    if a >= b {
        a
    } else {
        b
    }
}

/// Minimum.
pub fn fmin(a: i64, b: i64) -> (r: i64)
    ensures
        r == fx_min(a, b),
{
    if a <= b {
        a
    } else {
        b
    }
}

/// Clamp to `[lo, hi]`, checking the lower bound first. Total: for
/// `lo > hi` the lower bound wins, so no input panics.
pub fn fclamp(v: i64, lo: i64, hi: i64) -> (r: i64)
    ensures
        r == fx_clamp(v, lo, hi),
{
    if v < lo {
        lo
    } else if v > hi {
        hi
    } else {
        v
    }
}

/// Saturating absolute value.
pub fn fabs(a: i64) -> (r: i64)
    ensures
        r == fx_abs(a),
{
    if a >= 0 {
        a
    } else {
        fneg(a)
    }
}

/// Floor of the square root of a 128-bit value, by binary search.
pub fn isqrt128(s: u128) -> (r: u64)
    ensures
        r as int == sqrt_floor(s as int),
        (r as int) * (r as int) <= (s as int),
        (s as int) < ((r as int) + 1) * ((r as int) + 1),
{
    let mut lo: u64 = 0;
    let mut hi: u64 = u64::MAX;
    proof {
        assert((s as int) < ((hi as int) + 1) * ((hi as int) + 1)) by (nonlinear_arith)
            requires
                hi == u64::MAX,
                s <= u128::MAX,
        ;
    }
    while lo < hi
        invariant
            (lo as int) * (lo as int) <= (s as int),
            (s as int) < ((hi as int) + 1) * ((hi as int) + 1),
            lo <= hi,
        decreases hi - lo,
    {
        let mid: u64 = lo + (hi - lo) / 2 + 1;
        proof {
            assert((mid as int) * (mid as int) < 0x100000000000000000000000000000000)
                by (nonlinear_arith)
                requires
                    0 <= (mid as int) <= 0xffffffffffffffff,
            ;
        }
        let m2: u128 = (mid as u128) * (mid as u128);
        if m2 <= s {
            lo = mid;
        } else {
            hi = mid - 1;
        }
    }
    proof {
        assert(is_sqrt_floor(s as int, lo as int));
        lemma_sqrt_unique(s as int, lo as int, sqrt_floor(s as int));
    }
    lo
}

} // verus!
