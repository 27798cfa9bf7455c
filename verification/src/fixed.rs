//! Saturating fixed-point scalars.
//!
//! A scalar stores `value * SCALE` in an `i64`.  Every operation keeps its
//! result inside `[-MAX_FP, MAX_FP]` by saturating, so the arithmetic is
//! total: no operation here overflows or panics.  Division truncates toward
//! zero, and the square root rounds down.

use vstd::prelude::*;

verus! {

/// Number of fixed-point steps per unit: a scalar `x` stands for `x / SCALE`.
pub const SCALE: i64 = 65536;

/// Largest magnitude a fixed-point scalar may take; arithmetic saturates here.
pub const MAX_FP: i64 = 0x4000_0000_0000;

/// A scalar is representable when it lies inside the saturation band.
pub open spec fn fits(x: int) -> bool {
    -(MAX_FP as int) <= x <= MAX_FP as int
}

/// Saturation of a mathematical integer into the representable band.
pub open spec fn sat(x: int) -> int {
    if x > MAX_FP as int {
        MAX_FP as int
    } else if x < -(MAX_FP as int) {
        -(MAX_FP as int)
    } else {
        x
    }
}

/// Magnitude of a mathematical integer.
pub open spec fn sabs(x: int) -> int {
    if x >= 0 {
        x
    } else {
        -x
    }
}

/// Division truncating toward zero, the rounding of the executable code.
pub open spec fn tdiv(a: int, b: int) -> int {
    if (a >= 0) == (b >= 0) {
        sabs(a) / sabs(b)
    } else {
        -(sabs(a) / sabs(b))
    }
}

/// Fixed-point product: multiply, rescale by `SCALE`, saturate.
pub open spec fn fmul_s(a: int, b: int) -> int {
    sat(tdiv(a * b, SCALE as int))
}

/// Fixed-point quotient: rescale the dividend by `SCALE`, divide, saturate.
pub open spec fn fdiv_s(a: int, b: int) -> int {
    sat(tdiv(a * SCALE, b))
}

/// Rounded-down square root of a nonnegative integer.
pub open spec fn spec_isqrt(x: int) -> int
    decreases x,
{
    if x < 1 {
        0
    } else {
        let r = spec_isqrt(x - 1);
        if (r + 1) * (r + 1) <= x {
            r + 1
        } else {
            r
        }
    }
}

/// Fixed-point square root: the root of `x * SCALE` is the scaled root of `x`.
pub open spec fn fsqrt_s(x: int) -> int {
    spec_isqrt(x * SCALE)
}

/// Clamp into `[lo, hi]`, from below first, as `max` then `min` would.
pub open spec fn spec_clamp(x: int, lo: int, hi: int) -> int {
    if x < lo {
        lo
    } else if x > hi {
        hi
    } else {
        x
    }
}

pub proof fn lemma_isqrt_bounds(x: int)
    requires
        x >= 0,
    ensures
        0 <= spec_isqrt(x),
        spec_isqrt(x) * spec_isqrt(x) <= x,
        x < (spec_isqrt(x) + 1) * (spec_isqrt(x) + 1),
    decreases x,
{
    if x < 1 {
    } else {
        lemma_isqrt_bounds(x - 1);
        let r = spec_isqrt(x - 1);
        if (r + 1) * (r + 1) <= x {
            assert(x - 1 < (r + 1) * (r + 1));
            assert(x < (r + 2) * (r + 2)) by (nonlinear_arith)
                requires
                    r >= 0,
                    x <= (r + 1) * (r + 1),
            {}
        } else {
        }
    }
}

pub proof fn lemma_isqrt_unique(x: int, r: int)
    requires
        x >= 0,
        r >= 0,
        r * r <= x,
        x < (r + 1) * (r + 1),
    ensures
        r == spec_isqrt(x),
{
    lemma_isqrt_bounds(x);
    let s = spec_isqrt(x);
    if r < s {
        assert((r + 1) * (r + 1) <= s * s) by (nonlinear_arith)
            requires
                0 <= r + 1 <= s,
        {}
    } else if s < r {
        assert((s + 1) * (s + 1) <= r * r) by (nonlinear_arith)
            requires
                0 <= s + 1 <= r,
        {}
    }
}

/// Truncating division of a nonnegative value by a positive one is the
/// Euclidean quotient, hence nonnegative and monotone in the dividend.
pub proof fn lemma_tdiv_ordered_nonneg(p: int, q: int, b: int)
    requires
        0 <= p <= q,
        0 < b,
    ensures
        0 <= tdiv(p, b) <= tdiv(q, b),
{
    vstd::arithmetic::div_mod::lemma_div_pos_is_pos(p, b);
    vstd::arithmetic::div_mod::lemma_div_is_ordered(p, q, b);
}

/// Rescaling a ratio whose numerator magnitude is at most its denominator
/// cannot leave the scale factor: `|a| <= b` gives `|a * s / b| <= s`.
pub proof fn lemma_tdiv_ratio_bounded(a: int, b: int, s: int)
    requires
        sabs(a) <= b,
        0 < b,
        0 <= s,
    ensures
        sabs(tdiv(a * s, b)) <= s,
{
    assert(sabs(a * s) == sabs(a) * s) by (nonlinear_arith)
        requires
            s >= 0,
    {}
    assert(sabs(a) * s <= b * s) by (nonlinear_arith)
        requires
            sabs(a) <= b,
            s >= 0,
    {}
    vstd::arithmetic::div_mod::lemma_div_pos_is_pos(sabs(a) * s, b);
    vstd::arithmetic::div_mod::lemma_div_is_ordered(sabs(a) * s, b * s, b);
    vstd::arithmetic::div_mod::lemma_div_multiples_vanish(s, b);
    assert(b * s == s * b) by (nonlinear_arith);
}

/// A fixed-point product of nonnegative scalars is nonnegative.
pub proof fn lemma_fmul_s_nonneg(a: int, b: int)
    requires
        0 <= a,
        0 <= b,
    ensures
        0 <= fmul_s(a, b),
{
    assert(a * b >= 0) by (nonlinear_arith)
        requires
            a >= 0,
            b >= 0,
    {}
    vstd::arithmetic::div_mod::lemma_div_pos_is_pos(a * b, SCALE as int);
}

/// The fixed-point square of a scalar no larger than one is between zero
/// and one.
pub proof fn lemma_square_fraction_bounded(a: int)
    requires
        sabs(a) <= SCALE as int,
    ensures
        0 <= fmul_s(a, a) <= SCALE as int,
{
    assert(0 <= a * a <= SCALE as int * SCALE as int) by (nonlinear_arith)
        requires
            -(SCALE as int) <= a <= SCALE as int,
    {}
    lemma_tdiv_ordered_nonneg(a * a, SCALE as int * SCALE as int, SCALE as int);
    vstd::arithmetic::div_mod::lemma_div_multiples_vanish(SCALE as int, SCALE as int);
}

/// The product of two bounded integers is bounded by the product of the
/// bounds.
pub proof fn lemma_mul_bounds(a: int, b: int, m: int, n: int)
    requires
        sabs(a) <= m,
        sabs(b) <= n,
    ensures
        -(m * n) <= a * b <= m * n,
{
    assert(-(m * n) <= a * b <= m * n) by (nonlinear_arith)
        requires
            -m <= a <= m,
            -n <= b <= n,
    {}
}

/// Narrow a wide intermediate into the scalar band.
fn sat_narrow(x: i128) -> (r: i64)
    ensures
        r as int == sat(x as int),
{
    if x > MAX_FP as i128 {
        MAX_FP
    } else if x < -(MAX_FP as i128) {
        -MAX_FP
    } else {
        x as i64
    }
}

/// Quotient truncating toward zero on wide intermediates.
fn div_trunc(a: i128, b: i128) -> (r: i128)
    requires
        b != 0,
        a != i128::MIN,
        b != i128::MIN,
    ensures
        r as int == tdiv(a as int, b as int),
{
    let ua: u128 = if a >= 0 {
        a as u128
    } else {
        (-a) as u128
    };
    let ub: u128 = if b >= 0 {
        b as u128
    } else {
        (-b) as u128
    };
    let q: u128 = ua / ub;
    assert(q == sabs(a as int) / sabs(b as int));
    assert(q <= ua) by (nonlinear_arith)
        requires
            ub >= 1,
            q == ua / ub,
    {}
    if (a >= 0) == (b >= 0) {
        q as i128
    } else {
        -(q as i128)
    }
}

/// Rescale a wide exact sum of products by `SCALE`, truncating and
/// saturating; this is the final step of a dot product.
pub fn rescale(p: i128) -> (r: i64)
    requires
        p != i128::MIN,
    ensures
        r as int == sat(tdiv(p as int, SCALE as int)),
        fits(r as int),
{
    let q = div_trunc(p, SCALE as i128);
    sat_narrow(q)
}

/// Saturating fixed-point addition.
pub fn fadd(a: i64, b: i64) -> (r: i64)
    requires
        fits(a as int),
        fits(b as int),
    ensures
        r as int == sat(a + b),
        fits(r as int),
{
    let s = a + b;
    if s > MAX_FP {
        MAX_FP
    } else if s < -MAX_FP {
        -MAX_FP
    } else {
        s
    }
}

/// Saturating fixed-point subtraction.
pub fn fsub(a: i64, b: i64) -> (r: i64)
    requires
        fits(a as int),
        fits(b as int),
    ensures
        r as int == sat(a - b),
        fits(r as int),
{
    let s = a - b;
    if s > MAX_FP {
        MAX_FP
    } else if s < -MAX_FP {
        -MAX_FP
    } else {
        s
    }
}

/// Fixed-point multiplication: exact product rescaled by `SCALE`, saturated.
pub fn fmul(a: i64, b: i64) -> (r: i64)
    requires
        fits(a as int),
        fits(b as int),
    ensures
        r as int == fmul_s(a as int, b as int),
        fits(r as int),
{
    proof {
        lemma_mul_bounds(a as int, b as int, MAX_FP as int, MAX_FP as int);
    }
    let p: i128 = (a as i128) * (b as i128);
    let q = div_trunc(p, SCALE as i128);
    sat_narrow(q)
}

/// Product of a plain integer count with a fixed-point scalar, saturated.
pub fn fmuli(n: i64, a: i64) -> (r: i64)
    requires
        sabs(n as int) <= 0x1_0000_0000_0000,
        fits(a as int),
    ensures
        r as int == sat(n * a),
        fits(r as int),
{
    proof {
        lemma_mul_bounds(n as int, a as int, 0x1_0000_0000_0000, MAX_FP as int);
    }
    let p: i128 = (n as i128) * (a as i128);
    sat_narrow(p)
}

/// Fixed-point division, saturated; the divisor must be nonzero.
pub fn fdiv(a: i64, b: i64) -> (r: i64)
    requires
        fits(a as int),
        fits(b as int),
        b != 0,
    ensures
        r as int == fdiv_s(a as int, b as int),
        fits(r as int),
{
    proof {
        lemma_mul_bounds(a as int, SCALE as int, MAX_FP as int, SCALE as int);
    }
    let p: i128 = (a as i128) * (SCALE as i128);
    let q = div_trunc(p, b as i128);
    sat_narrow(q)
}

/// Rounded-down square root of a nonnegative machine integer.
pub fn isqrt(x: u64) -> (r: u64)
    ensures
        r as int == spec_isqrt(x as int),
        r * r <= x,
{
    let mut lo: u64 = 0;
    let mut hi: u64 = 0x1_0000_0000;
    while hi - lo > 1
        invariant
            lo < hi <= 0x1_0000_0000,
            (lo as int) * (lo as int) <= x as int,
            x < (hi as int) * (hi as int),
        decreases hi - lo,
    {
        let mid = lo + (hi - lo) / 2;
        proof {
            lemma_mul_bounds(mid as int, mid as int, 0x1_0000_0000, 0x1_0000_0000);
        }
        if (mid as u128) * (mid as u128) <= x as u128 {
            lo = mid;
        } else {
            hi = mid;
        }
    }
    proof {
        lemma_isqrt_unique(x as int, lo as int);
        assert(lo * lo <= x) by (nonlinear_arith)
            requires
                (lo as int) * (lo as int) <= x as int,
        {}
    }
    lo
}

/// Fixed-point square root of a nonnegative scalar.
pub fn fsqrt(x: i64) -> (r: i64)
    requires
        0 <= x,
        fits(x as int),
    ensures
        r as int == fsqrt_s(x as int),
        0 <= r,
        fits(r as int),
{
    proof {
        lemma_mul_bounds(x as int, SCALE as int, MAX_FP as int, SCALE as int);
    }
    let p: u64 = (x as u64) * (SCALE as u64);
    let r = isqrt(p);
    proof {
        lemma_isqrt_bounds(p as int);
        assert(r <= 0x8000_0000u64) by (nonlinear_arith)
            requires
                (r as int) * (r as int) <= p as int,
                p as int <= 0x4000_0000_0000 * 0x10000,
                r >= 0,
        {}
    }
    r as i64
}

/// Clamp a scalar into `[lo, hi]`, from below first.
pub fn clamp(input: i64, min_v: i64, max_v: i64) -> (r: i64)
    requires
        min_v <= max_v,
    ensures
        r as int == spec_clamp(input as int, min_v as int, max_v as int),
{
    let lo = if input < min_v {
        min_v
    } else {
        input
    };
    if lo > max_v {
        max_v
    } else {
        lo
    }
}

} // verus!
