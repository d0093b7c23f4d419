//! Angle arithmetic in whole degrees, normalized to the interval `(-180, 180]`.

use vstd::prelude::*;

verus! {

/// Mathematical normalization of an angle in degrees into `(-180, 180]`.
///
/// `%` on `int` is Euclidean, so `a % 360` always lies in `[0, 360)`.
pub open spec fn norm_deg(a: int) -> int {
    let m = a % 360;
    if m > 180 {
        m - 360
    } else {
        m
    }
}

/// The normalized angle always lies in `(-180, 180]`.
pub proof fn lemma_norm_range(a: int)
    ensures
        -180 < norm_deg(a) <= 180,
{
    assert(0 <= a % 360 < 360) by (nonlinear_arith);
}

/// Normalization is idempotent: a value already in `(-180, 180]` is fixed.
pub proof fn lemma_norm_idempotent(a: int)
    ensures
        norm_deg(norm_deg(a)) == norm_deg(a),
{
    lemma_norm_range(a);
    let m = norm_deg(a);
    if m >= 0 {
        assert(m % 360 == m) by (nonlinear_arith)
            requires 0 <= m <= 180;
    } else {
        assert(m % 360 == m + 360) by (nonlinear_arith)
            requires -180 < m < 0;
    }
}

/// Normalization ignores full turns already applied to its argument.
pub proof fn lemma_norm_shift(a: int, k: int)
    ensures
        norm_deg(a + 360 * k) == norm_deg(a),
{
    assert((a + 360 * k) % 360 == a % 360) by (nonlinear_arith);
}

/// Normalizing a sum may normalize either summand first.
pub proof fn lemma_norm_add(a: int, b: int)
    ensures
        norm_deg(norm_deg(a) + b) == norm_deg(a + b),
{
    let m = a % 360;
    vstd::arithmetic::div_mod::lemma_fundamental_div_mod(a, 360);
    let k = a / 360;
    assert(a == m + 360 * k);
    if m > 180 {
        assert(norm_deg(a) + b == (a + b) + 360 * (-k - 1));
        lemma_norm_shift(a + b, -k - 1);
    } else {
        assert(norm_deg(a) + b == (a + b) + 360 * (-k));
        lemma_norm_shift(a + b, -k);
    }
}

/// Normalize an angle in degrees into `(-180, 180]`.
///
/// `i32::MIN` is excluded so that the magnitude of a negative angle is
/// representable.
pub fn clamp_angle(angle: i32) -> (r: i32)
    requires
        angle > i32::MIN,
    ensures
        r == norm_deg(angle as int),
        -180 < r <= 180,
{
    proof {
        lemma_norm_range(angle as int);
    }
    let m: i32 = if angle >= 0 {
        angle % 360
    } else {
        let n: i32 = -angle;
        let r360: i32 = n % 360;
        proof {
            assert(0 <= r360 < 360) by (nonlinear_arith)
                requires n > 0 && r360 == n % 360;
            assert((360 - r360) % 360 == angle as int % 360) by (nonlinear_arith)
                requires n == -(angle as int) && n > 0 && r360 == n % 360;
        }
        (360 - r360) % 360
    };
    assert(m == (angle as int) % 360);
    if m > 180 {
        m - 360
    } else {
        m
    }
}

} // verus!
