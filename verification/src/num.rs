//! Small integer helpers shared by the whole pipeline: truncating division,
//! absolute value, clamping and an integer square root.

use vstd::prelude::*;

verus! {

/// Division truncating toward zero, the rounding the pipeline uses for all
/// fixed-point scaling.  (`/` on `int` is Euclidean, which differs on
/// negative numerators.)
pub open spec fn tdiv(n: int, d: int) -> int {
    if n >= 0 {
        n / d
    } else {
        -((-n) / d)
    }
}

/// Truncation toward zero commutes with negation.
pub proof fn lemma_tdiv_neg(n: int, d: int)
    requires
        d >= 1,
    ensures
        tdiv(-n, d) == -tdiv(n, d),
{
    if n == 0 {
        assert(0int / d == 0) by (nonlinear_arith)
            requires d >= 1;
    }
}

/// Magnitude of a truncating quotient is bounded by the numerator's.
pub proof fn lemma_tdiv_bound(n: int, d: int)
    requires
        d >= 1,
    ensures
        n >= 0 ==> 0 <= tdiv(n, d) <= n,
        n < 0 ==> n <= tdiv(n, d) <= 0,
{
    if n >= 0 {
        assert(0 <= n / d <= n) by (nonlinear_arith)
            requires n >= 0 && d >= 1;
    } else {
        assert(0 <= (-n) / d <= -n) by (nonlinear_arith)
            requires n < 0 && d >= 1;
    }
}

/// Truncating division of `i64` values, computed on magnitudes so that the
/// rounding direction is explicit.
pub fn div_trunc(n: i64, d: i64) -> (r: i64)
    requires
        n > i64::MIN,
        d > 0,
    ensures
        r == tdiv(n as int, d as int),
        n >= 0 ==> 0 <= r <= n,
        n < 0 ==> n <= r <= 0,
{
    proof {
        lemma_tdiv_bound(n as int, d as int);
    }
    if n >= 0 {
        ((n as u64) / (d as u64)) as i64
    } else {
        let m: u64 = (-n) as u64;
        let q: u64 = m / (d as u64);
        -(q as i64)
    }
}

/// Absolute value of an `i64`.
pub fn abs_i64(v: i64) -> (r: i64)
    requires
        v > i64::MIN,
    ensures
        r == if v >= 0 { v as int } else { -(v as int) },
        r >= 0,
{
    if v >= 0 {
        v
    } else {
        -v
    }
}

/// Clamp a value into `[lo, hi]`.
pub open spec fn clamped(v: int, lo: int, hi: int) -> int {
    if v < lo {
        lo
    } else if v > hi {
        hi
    } else {
        v
    }
}

/// Clamp an `i64` into `[lo, hi]`.
pub fn clamp_i64(v: i64, lo: i64, hi: i64) -> (r: i64)
    requires
        lo <= hi,
    ensures
        r == clamped(v as int, lo as int, hi as int),
        lo <= r <= hi,
{
    if v < lo {
        lo
    } else if v > hi {
        hi
    } else {
        v
    }
}

/// Minimum of two `i64` values.
pub fn min_i64(a: i64, b: i64) -> (r: i64)
    ensures
        r == if a <= b { a as int } else { b as int },
{
    if a <= b {
        a
    } else {
        b
    }
}

/// Integer square root: the greatest `r` with `r * r <= v`.
pub fn isqrt64(v: u64) -> (r: u64)
    requires
        v < 0x1000000000000,
    ensures
        r * r <= v,
        (r + 1) * (r + 1) > v,
        r <= 0x1000000,
{
    let mut lo: u64 = 0;
    let mut hi: u64 = 0x1000000;
    assert(hi * hi > v) by (nonlinear_arith)
        requires v < 0x1000000000000 && hi == 0x1000000;
    while lo + 1 < hi
        invariant
            lo < hi <= 0x1000000,
            lo * lo <= v,
            hi * hi > v,
        decreases hi - lo,
    {
        let mid: u64 = lo + (hi - lo) / 2;
        assert(lo < mid < hi);
        assert(mid * mid < 0x1000000000001) by (nonlinear_arith)
            requires mid <= 0x1000000;
        if mid * mid <= v {
            lo = mid;
        } else {
            hi = mid;
        }
    }
    lo
}

} // verus!
