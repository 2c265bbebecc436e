//! Fixed-point arithmetic for noise values.
//!
//! Every scalar this library computes with is an `i64` holding a real number
//! scaled by [`FP_ONE`] (a "fixed-point" value with 16 fractional bits).
//! Products and quotients round toward negative infinity, so the spec-level
//! model of each operation is plain integer floor division.

use vstd::prelude::*;

verus! {

/// The fixed-point representation of the real number `1.0`.
pub const FP_ONE: i64 = 65536;

/// The fixed-point representation of the real number `0.5`.
pub const FP_HALF: i64 = 32768;

/// The largest magnitude either factor of a fixed-point product may have:
/// the product of two such factors still fits in an `i64`.
pub const FP_FACTOR_MAX: i64 = 3000000000;

/// Floor division of `n` by a positive divisor, as the specs state it:
/// on `int`, `/` rounds toward negative infinity for positive divisors.
pub open spec fn floor_div_spec(n: int, d: int) -> int {
    n / d
}

/// The mathematical model of a fixed-point product.
pub open spec fn fp_mul_spec(a: int, b: int) -> int {
    (a * b) / (FP_ONE as int)
}

/// The mathematical model of a fixed-point quotient.
pub open spec fn fp_div_spec(a: int, b: int) -> int {
    (a * FP_ONE as int) / b
}

/// Floor division by a positive divisor, matching `/` on mathematical integers.
pub fn floor_div(n: i64, d: i64) -> (r: i64)
    requires
        1 <= d,
        -0x7ffe_0000_0000_0000 <= n <= 0x7ffe_0000_0000_0000,
        d <= 0x1_0000_0000_0000,
    ensures
        r == floor_div_spec(n as int, d as int),
{
    if n >= 0 {
        n / d
    } else {
        let q: i64 = (-n + (d - 1)) / d;
        proof {
            let nn = n as int;
            let dd = d as int;
            assert(q == ((-nn) + (dd - 1)) / dd);
            assert(dd * (((-nn) + (dd - 1)) / dd) == ((-nn) + (dd - 1)) - ((-nn) + (dd - 1)) % dd)
                by (nonlinear_arith)
                requires dd >= 1,
            ;
            assert(0 <= ((-nn) + (dd - 1)) % dd < dd) by (nonlinear_arith)
                requires dd >= 1,
            ;
            assert(nn / dd == -(q as int)) by (nonlinear_arith)
                requires
                    dd >= 1,
                    dd * (q as int) == ((-nn) + (dd - 1)) - ((-nn) + (dd - 1)) % dd,
                    0 <= ((-nn) + (dd - 1)) % dd < dd,
                    nn < 0,
            ;
        }
        -q
    }
}

/// The fixed-point product of `a` and `b`, rounded toward negative infinity.
pub fn fp_mul(a: i64, b: i64) -> (r: i64)
    requires
        -FP_FACTOR_MAX <= a <= FP_FACTOR_MAX,
        -FP_FACTOR_MAX <= b <= FP_FACTOR_MAX,
    ensures
        r == fp_mul_spec(a as int, b as int),
{
    proof {
        assert((a as int) * (b as int) <= FP_FACTOR_MAX * FP_FACTOR_MAX
            && (a as int) * (b as int) >= -(FP_FACTOR_MAX * FP_FACTOR_MAX)) by (nonlinear_arith)
            requires
                -FP_FACTOR_MAX <= a <= FP_FACTOR_MAX,
                -FP_FACTOR_MAX <= b <= FP_FACTOR_MAX,
        ;
    }
    let p: i64 = a * b;
    floor_div(p, FP_ONE)
}

/// The fixed-point quotient of `a` by a positive `b`, rounded toward negative infinity.
pub fn fp_div(a: i64, b: i64) -> (r: i64)
    requires
        1 <= b <= 0x10000_0000,
        -0x7ffd_0000_0000 <= a <= 0x7ffd_0000_0000,
    ensures
        r == fp_div_spec(a as int, b as int),
{
    floor_div(a * FP_ONE, b)
}

/// The integer square root: the greatest `r` with `r * r <= n`.
pub fn isqrt(n: u64) -> (r: u64)
    requires
        n < 0x4000_0000_0000_0000,
    ensures
        r * r <= n < (r + 1) * (r + 1),
        r <= 0x8000_0000,
        r == sqrt_floor_spec(n as int),
{
    let mut lo: u64 = 0;
    let mut hi: u64 = 0x8000_0000;
    proof {
        assert((0x8000_0000 as int) * (0x8000_0000 as int) == 0x4000_0000_0000_0000);
    }
    while lo + 1 < hi
        invariant
            lo < hi <= 0x8000_0000,
            lo * lo <= n,
            n < hi * hi,
        decreases hi - lo,
    {
        let mid: u64 = lo + (hi - lo) / 2;
        proof {
            assert(lo < mid < hi);
            assert((mid as int) * (mid as int) < 0x4000_0000_0000_0000) by (nonlinear_arith)
                requires mid < 0x8000_0000,
            ;
        }
        if mid * mid <= n {
            lo = mid;
        } else {
            hi = mid;
        }
    }
    proof {
        lemma_sqrt_floor_is(n as int, lo as int);
    }
    lo
}

/// The floor of the square root, as the specs speak of it: the unique
/// nonnegative `r` with `r * r <= n < (r + 1) * (r + 1)`.
pub open spec fn sqrt_floor_spec(n: int) -> int {
    choose|r: int| 0 <= r && #[trigger] (r * r) <= n && n < (r + 1) * (r + 1)
}

/// The defining property of the floor square root, for stating existence.
pub open spec fn is_sqrt_floor(n: int, r: int) -> bool {
    0 <= r && r * r <= n && n < (r + 1) * (r + 1)
}

/// Every nonnegative integer has a floor square root.
pub proof fn lemma_sqrt_floor_exists(n: int)
    requires
        0 <= n,
    ensures
        exists|r: int| #[trigger] is_sqrt_floor(n, r),
    decreases n,
{
    if n == 0 {
        assert((0 + 1) * (0 + 1) > 0) by (nonlinear_arith);
        assert(is_sqrt_floor(0, 0));
    } else {
        lemma_sqrt_floor_exists(n - 1);
        let r = choose|r: int| #[trigger] is_sqrt_floor(n - 1, r);
        if (r + 1) * (r + 1) > n {
            assert(is_sqrt_floor(n, r));
        } else {
            assert((r + 1) * (r + 1) == n);
            assert(((r + 1) + 1) * ((r + 1) + 1) > n) by (nonlinear_arith)
                requires
                    0 <= r,
                    (r + 1) * (r + 1) == n,
            ;
            assert(is_sqrt_floor(n, r + 1));
        }
    }
}

/// A witness of the floor square root's defining property is the floor
/// square root.
pub proof fn lemma_sqrt_floor_is(n: int, r: int)
    requires
        0 <= r,
        r * r <= n,
        n < (r + 1) * (r + 1),
    ensures
        sqrt_floor_spec(n) == r,
{
    lemma_sqrt_floor_exists(n);
    assert(n >= 0) by (nonlinear_arith)
        requires
            0 <= r,
            r * r <= n,
    ;
    let e = choose|w: int| #[trigger] is_sqrt_floor(n, w);
    assert(exists|w: int| 0 <= w && #[trigger] (w * w) <= n && n < (w + 1) * (w + 1));
    let w = sqrt_floor_spec(n);
    assert(0 <= w && w * w <= n && n < (w + 1) * (w + 1));
    assert(w == r) by (nonlinear_arith)
        requires
            0 <= r,
            r * r <= n,
            n < (r + 1) * (r + 1),
            0 <= w,
            w * w <= n,
            n < (w + 1) * (w + 1),
    ;
}

/// The floor square root is monotone.
pub proof fn lemma_sqrt_floor_mono(a: int, b: int)
    requires
        0 <= a <= b,
    ensures
        sqrt_floor_spec(a) <= sqrt_floor_spec(b),
{
    lemma_sqrt_floor_exists(a);
    let ra = choose|r: int| #[trigger] is_sqrt_floor(a, r);
    lemma_sqrt_floor_is(a, ra);
    lemma_sqrt_floor_exists(b);
    let rb = choose|r: int| #[trigger] is_sqrt_floor(b, r);
    lemma_sqrt_floor_is(b, rb);
    assert(ra <= rb) by (nonlinear_arith)
        requires
            0 <= ra,
            0 <= rb,
            ra * ra <= a,
            a < (ra + 1) * (ra + 1),
            rb * rb <= b,
            b < (rb + 1) * (rb + 1),
            a <= b,
    ;
}

/// A square bound squeezes the root: if the input stays under a square, the
/// floor square root stays under its base.
pub proof fn lemma_sqrt_floor_le(n: int, bound: int)
    requires
        0 <= n,
        0 <= bound,
        n <= bound * bound,
    ensures
        0 <= sqrt_floor_spec(n) <= bound,
{
    lemma_sqrt_floor_exists(n);
    let r = choose|r: int| #[trigger] is_sqrt_floor(n, r);
    lemma_sqrt_floor_is(n, r);
    assert(r <= bound) by (nonlinear_arith)
        requires
            0 <= r,
            0 <= bound,
            r * r <= n,
            n < (r + 1) * (r + 1),
            n <= bound * bound,
    ;
}

/// Floor division never rounds a value in `[lo * d, (hi + 1) * d)` outside `[lo, hi]`.
pub proof fn lemma_floor_div_range(n: int, d: int, lo: int, hi: int)
    requires
        d >= 1,
        lo * d <= n,
        n < (hi + 1) * d,
    ensures
        lo <= n / d <= hi,
{
    assert(lo <= n / d <= hi) by (nonlinear_arith)
        requires
            d >= 1,
            lo * d <= n,
            n < (hi + 1) * d,
    ;
}

/// Floor division by a positive divisor is monotone.
pub proof fn lemma_floor_div_mono(a: int, b: int, d: int)
    requires
        d >= 1,
        a <= b,
    ensures
        a / d <= b / d,
{
    assert(a / d <= b / d) by (nonlinear_arith)
        requires
            d >= 1,
            a <= b,
    ;
}

/// Multiplying nonnegative values by larger nonnegative values grows the product.
pub proof fn lemma_mul_le(a: int, b: int, c: int, d: int)
    requires
        0 <= a <= c,
        0 <= b <= d,
    ensures
        a * b <= c * d,
{
    assert(a * b <= c * d) by (nonlinear_arith)
        requires
            0 <= a <= c,
            0 <= b <= d,
    ;
}

/// A fixed-point product of a value in `[lo, hi]` with a weight in `[0, FP_ONE]`
/// stays within `[lo, hi]` when `lo <= 0 <= hi`.
pub proof fn lemma_fp_mul_unit_bounds(v: int, t: int, lo: int, hi: int)
    requires
        lo <= v <= hi,
        lo <= 0 <= hi,
        0 <= t <= FP_ONE,
    ensures
        lo <= fp_mul_spec(v, t) <= hi,
{
    assert(lo * FP_ONE <= v * t <= hi * FP_ONE) by (nonlinear_arith)
        requires
            lo <= v <= hi,
            lo <= 0 <= hi,
            0 <= t <= FP_ONE,
    ;
    lemma_floor_div_range(v * t, FP_ONE as int, lo, hi);
    assert(fp_mul_spec(v, t) == (v * t) / (FP_ONE as int));
}

} // verus!
