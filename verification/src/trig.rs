//! Fixed-point trigonometry on whole degrees.
//!
//! Sine and cosine are scaled by `TRIG_ONE` and defined by Bhaskara's
//! rational approximation, which is exact at every multiple of 30 degrees.
//! The vector-angle function uses a rational arctangent approximation that is
//! exact on the axes and the diagonals.

use vstd::prelude::*;
use crate::angles::{norm_deg, lemma_norm_range, lemma_norm_add, clamp_angle};
use crate::num::{tdiv, abs_i64, isqrt64};

verus! {

/// Scale of sine and cosine values: `TRIG_ONE` stands for 1.0.
pub const TRIG_ONE: i32 = 10000;

/// Bhaskara's sine approximation on `[0, 180]` degrees, scaled by `TRIG_ONE`.
pub open spec fn sin_lobe_q(x: int) -> int {
    (4 * x * (180 - x)) * 10000 / (40500 - x * (180 - x))
}

/// Scaled sine of a normalized angle in `(-180, 180]` degrees.
pub open spec fn sin_q_spec(a: int) -> int {
    if a >= 0 {
        sin_lobe_q(a)
    } else {
        -sin_lobe_q(-a)
    }
}

/// Scaled cosine of a normalized angle in `(-180, 180]` degrees.
pub open spec fn cos_q_spec(a: int) -> int {
    sin_q_spec(norm_deg(a + 90))
}

/// On `[0, 180]` the lobe stays within `[0, TRIG_ONE]` and vanishes exactly
/// at the endpoints.
pub proof fn lemma_sin_lobe_bounds(x: int)
    requires
        0 <= x <= 180,
    ensures
        0 <= sin_lobe_q(x) <= 10000,
        sin_lobe_q(x) == 0 <==> (x == 0 || x == 180),
{
    assert(0 <= x * (180 - x) <= 8100) by (nonlinear_arith)
        requires 0 <= x <= 180;
    assert(0 < x < 180 ==> x * (180 - x) >= 179) by (nonlinear_arith)
        requires 0 <= x <= 180;
    let p = x * (180 - x);
    assert(0 <= (4 * x * (180 - x)) * 10000 / (40500 - x * (180 - x)) <= 10000)
        by (nonlinear_arith)
        requires 0 <= x * (180 - x) <= 8100;
    assert(p >= 179 ==> (4 * x * (180 - x)) * 10000 / (40500 - x * (180 - x)) >= 1)
        by (nonlinear_arith)
        requires p == x * (180 - x) && 0 <= x * (180 - x) <= 8100;
    assert(p == 0 ==> (4 * x * (180 - x)) * 10000 / (40500 - x * (180 - x)) == 0)
        by (nonlinear_arith)
        requires p == x * (180 - x) && 0 <= x * (180 - x) <= 8100;
    assert(p == 0 <==> (x == 0 || x == 180)) by (nonlinear_arith)
        requires p == x * (180 - x) && 0 <= x <= 180;
}

/// The lobe is symmetric about 90 degrees.
pub proof fn lemma_sin_lobe_symmetric(x: int)
    requires
        0 <= x <= 180,
    ensures
        sin_lobe_q(180 - x) == sin_lobe_q(x),
{
    assert((4 * (180 - x) * (180 - (180 - x))) * 10000 == (4 * x * (180 - x)) * 10000)
        by (nonlinear_arith);
    assert(40500 - (180 - x) * (180 - (180 - x)) == 40500 - x * (180 - x))
        by (nonlinear_arith);
}

/// Sine of a normalized angle stays within `[-TRIG_ONE, TRIG_ONE]`.
pub proof fn lemma_sin_bounds(a: int)
    requires
        -180 < a <= 180,
    ensures
        -10000 <= sin_q_spec(a) <= 10000,
{
    if a >= 0 {
        lemma_sin_lobe_bounds(a);
    } else {
        lemma_sin_lobe_bounds(-a);
    }
}

/// Turning half a circle negates the sine.
pub proof fn lemma_sin_opposite(a: int)
    requires
        -180 < a <= 180,
    ensures
        sin_q_spec(norm_deg(a + 180)) == -sin_q_spec(a),
{
    lemma_norm_range(a + 180);
    if a == 180 {
        assert(360int % 360 == 0) by (nonlinear_arith);
        assert(norm_deg(a + 180) == 0);
        lemma_sin_lobe_bounds(0);
        lemma_sin_lobe_bounds(180);
    } else if a > 0 {
        assert((a + 180) % 360 == a + 180) by (nonlinear_arith)
            requires 0 < a < 180;
        assert(norm_deg(a + 180) == a - 180);
        lemma_sin_lobe_symmetric(a);
    } else {
        assert((a + 180) % 360 == a + 180) by (nonlinear_arith)
            requires -180 < a <= 0;
        assert(norm_deg(a + 180) == a + 180);
        lemma_sin_lobe_symmetric(-a);
        if a == 0 {
            lemma_sin_lobe_bounds(0);
            lemma_sin_lobe_bounds(180);
        }
    }
}

/// Turning half a circle negates the cosine.
pub proof fn lemma_cos_opposite(a: int)
    requires
        -180 < a <= 180,
    ensures
        cos_q_spec(norm_deg(a + 180)) == -cos_q_spec(a),
{
    lemma_norm_range(a + 180);
    lemma_norm_range(a + 90);
    lemma_norm_add(a + 180, 90);
    lemma_norm_add(a + 90, 180);
    assert(norm_deg(norm_deg(a + 180) + 90) == norm_deg(a + 270));
    assert(norm_deg(norm_deg(a + 90) + 180) == norm_deg(a + 270));
    lemma_sin_opposite(norm_deg(a + 90));
}

/// Scaled sine of a normalized angle in degrees.
pub fn sin_q(a: i32) -> (r: i32)
    requires
        -180 < a <= 180,
    ensures
        r == sin_q_spec(a as int),
        -10000 <= r <= 10000,
{
    proof {
        lemma_sin_bounds(a as int);
    }
    if a >= 0 {
        sin_lobe(a)
    } else {
        -sin_lobe(-a)
    }
}

/// Scaled cosine of a normalized angle in degrees.
pub fn cos_q(a: i32) -> (r: i32)
    requires
        -180 < a <= 180,
    ensures
        r == cos_q_spec(a as int),
        -10000 <= r <= 10000,
{
    let shifted = clamp_angle(a + 90);
    sin_q(shifted)
}

/// The two half-turn representatives give the same sine and cosine.
pub proof fn lemma_trig_half_turn()
    ensures
        sin_q_spec(-180) == sin_q_spec(180),
        cos_q_spec(-180) == cos_q_spec(180),
{
    lemma_sin_lobe_bounds(180);
    lemma_sin_lobe_bounds(0);
    assert((-90int) % 360 == 270) by (nonlinear_arith);
    assert(270int % 360 == 270) by (nonlinear_arith);
    assert(norm_deg(-90) == -90);
    assert(norm_deg(270) == -90);
}

/// Scaled sine, also accepting the closed lower end of the interval.
pub fn sin_q_closed(a: i32) -> (r: i32)
    requires
        -180 <= a <= 180,
    ensures
        r == sin_q_spec(a as int),
        -10000 <= r <= 10000,
{
    if a == -180 {
        proof {
            lemma_trig_half_turn();
        }
        sin_q(180)
    } else {
        sin_q(a)
    }
}

/// Scaled cosine, also accepting the closed lower end of the interval.
pub fn cos_q_closed(a: i32) -> (r: i32)
    requires
        -180 <= a <= 180,
    ensures
        r == cos_q_spec(a as int),
        -10000 <= r <= 10000,
{
    if a == -180 {
        proof {
            lemma_trig_half_turn();
        }
        cos_q(180)
    } else {
        cos_q(a)
    }
}

fn sin_lobe(x: i32) -> (r: i32)
    requires
        0 <= x <= 180,
    ensures
        r == sin_lobe_q(x as int),
        0 <= r <= 10000,
{
    proof {
        lemma_sin_lobe_bounds(x as int);
        assert(0 <= x * (180 - x) <= 8100) by (nonlinear_arith)
            requires 0 <= x <= 180;
    }
    let p: u64 = (x as u64) * ((180 - x) as u64);
    let num: u64 = (4 * p) * 10000;
    let den: u64 = 40500 - p;
    let q: u64 = num / den;
    assert((4 * (x as int) * (180 - x)) * 10000 == (4 * (p as int)) * 10000) by (nonlinear_arith)
        requires p == x * (180 - x);
    assert(q == sin_lobe_q(x as int));
    q as i32
}

/// Arctangent of `n / d` in millidegrees, for `0 <= n <= d`: a rational
/// approximation exact at 0 and at the diagonal.
pub open spec fn atan_frac_mdeg(n: int, d: int) -> int {
    (45000 * n * d + 15640 * n * (d - n)) / (d * d)
}

proof fn lemma_atan_frac_bounds(n: int, d: int)
    requires
        0 <= n <= d,
        0 < d,
    ensures
        0 <= atan_frac_mdeg(n, d) <= 45000,
{
    assert(45000 * n * d + 15640 * n * (d - n) >= 0 && d * d >= 1) by (nonlinear_arith)
        requires 0 <= n <= d && 0 < d;
    assert(45000 * (d * d) - (45000 * n * d + 15640 * n * (d - n))
        == (d - n) * (45000 * d - 15640 * n)) by (nonlinear_arith);
    assert((d - n) * (45000 * d - 15640 * n) >= 0) by (nonlinear_arith)
        requires 0 <= n <= d && 0 < d;
    assert(0 <= (45000 * n * d + 15640 * n * (d - n)) / (d * d) <= 45000) by (nonlinear_arith)
        requires
            45000 * n * d + 15640 * n * (d - n) >= 0
                && d * d >= 1
                && 45000 * n * d + 15640 * n * (d - n) <= 45000 * (d * d),
    ;
}

fn atan_frac(n: i64, d: i64) -> (r: i32)
    requires
        0 <= n <= d,
        0 < d <= 4000000,
    ensures
        r == tdiv(atan_frac_mdeg(n as int, d as int), 1000),
        0 <= r <= 45,
{
    proof {
        lemma_atan_frac_bounds(n as int, d as int);
        assert(45000 * n * d <= 45000 * 4000000 * 4000000
            && 15640 * n * (d - n) <= 15640 * 4000000 * 4000000
            && 45000 * n * d >= 0
            && 15640 * n * (d - n) >= 0
            && n * d >= 0
            && n * (d - n) >= 0
            && n * d <= 16000000000000
            && n * (d - n) <= 16000000000000
            && d * d >= 1
            && d * d <= 16000000000000) by (nonlinear_arith)
            requires 0 <= n <= d && 0 < d <= 4000000;
    }
    let num: u64 = 45000 * ((n as u64) * (d as u64)) + 15640 * ((n as u64) * ((d - n) as u64));
    let den: u64 = (d as u64) * (d as u64);
    let q: u64 = num / den;
    assert(45000 * (n as int) * (d as int) + 15640 * (n as int) * (d - n)
        == 45000 * ((n as int) * (d as int)) + 15640 * ((n as int) * ((d - n) as int)))
        by (nonlinear_arith);
    assert(num == 45000 * (n as int) * (d as int) + 15640 * (n as int) * (d - n));
    assert(q == atan_frac_mdeg(n as int, d as int));
    let r: u64 = q / 1000;
    assert(r == tdiv(q as int, 1000));
    r as i32
}

/// Bearing of the vector `(x, y)` from the positive `y` axis, turning toward
/// positive `x`, in whole degrees within `[-180, 180]`.  The zero vector maps
/// to 0.
pub open spec fn atan2_deg_spec(x: int, y: int) -> int {
    if x == 0 {
        if y >= 0 {
            0
        } else {
            180
        }
    } else {
        let ax = if x >= 0 { x } else { -x };
        let ay = if y >= 0 { y } else { -y };
        let alpha = if ax <= ay {
            tdiv(atan_frac_mdeg(ax, ay), 1000)
        } else {
            90 - tdiv(atan_frac_mdeg(ay, ax), 1000)
        };
        let phi = if y > 0 {
            alpha
        } else if y == 0 {
            90
        } else {
            180 - alpha
        };
        if x > 0 {
            phi
        } else {
            -phi
        }
    }
}

/// The vector angle is bounded by a half turn either way.
pub proof fn lemma_atan2_range(x: int, y: int)
    ensures
        -180 <= atan2_deg_spec(x, y) <= 180,
{
    if x != 0 {
        let ax = if x >= 0 { x } else { -x };
        let ay = if y >= 0 { y } else { -y };
        if ax <= ay {
            lemma_atan_frac_bounds(ax, ay);
            crate::num::lemma_tdiv_bound(atan_frac_mdeg(ax, ay), 1000);
            assert(atan_frac_mdeg(ax, ay) / 1000 <= 45) by (nonlinear_arith)
                requires 0 <= atan_frac_mdeg(ax, ay) <= 45000;
        } else {
            lemma_atan_frac_bounds(ay, ax);
            crate::num::lemma_tdiv_bound(atan_frac_mdeg(ay, ax), 1000);
            assert(atan_frac_mdeg(ay, ax) / 1000 <= 45) by (nonlinear_arith)
                requires 0 <= atan_frac_mdeg(ay, ax) <= 45000;
        }
    }
}

/// Bearing of the vector `(x, y)` from the positive `y` axis in whole
/// degrees.
pub fn atan2_deg(x: i64, y: i64) -> (r: i32)
    requires
        -4000000 <= x <= 4000000,
        -4000000 <= y <= 4000000,
    ensures
        r == atan2_deg_spec(x as int, y as int),
        -180 <= r <= 180,
{
    proof {
        lemma_atan2_range(x as int, y as int);
    }
    if x == 0 {
        if y >= 0 {
            0
        } else {
            180
        }
    } else {
        let ax = abs_i64(x);
        let ay = abs_i64(y);
        let alpha: i32 = if ax <= ay {
            atan_frac(ax, ay)
        } else {
            90 - atan_frac(ay, ax)
        };
        let phi: i32 = if y > 0 {
            alpha
        } else if y == 0 {
            90
        } else {
            180 - alpha
        };
        if x > 0 {
            phi
        } else {
            -phi
        }
    }
}

/// Length of the vector `(x, y)`, rounded down.
pub open spec fn vec_len_spec(x: int, y: int) -> int {
    isqrt_spec(x * x + y * y)
}

/// The greatest nonnegative `r` with `r * r <= v` (zero for negative `v`).
pub open spec fn isqrt_spec(v: int) -> int {
    choose|r: int| r >= 0 && #[trigger] (r * r) <= v && (r + 1) * (r + 1) > v
}

/// The defining property pins the integer square root down uniquely.
pub proof fn lemma_isqrt_unique(v: int, r: int)
    requires
        r >= 0,
        r * r <= v,
        (r + 1) * (r + 1) > v,
    ensures
        isqrt_spec(v) == r,
{
    assert(r >= 0 && r * r <= v && (r + 1) * (r + 1) > v);
    let c = isqrt_spec(v);
    assert(c >= 0 && c * c <= v && (c + 1) * (c + 1) > v);
    assert(c == r) by (nonlinear_arith)
        requires
            r >= 0 && r * r <= v && (r + 1) * (r + 1) > v
                && c >= 0 && c * c <= v && (c + 1) * (c + 1) > v,
    ;
}

/// Magnitude and bearing of the vector `(x, y)`: the distance rounded down
/// and the angle from the positive `y` axis in whole degrees.
pub fn construct_vector(x: i64, y: i64) -> (r: (i64, i32))
    requires
        -4000000 <= x <= 4000000,
        -4000000 <= y <= 4000000,
    ensures
        r.0 == vec_len_spec(x as int, y as int),
        0 <= r.0 <= 6000000,
        r.1 == atan2_deg_spec(x as int, y as int),
        -180 <= r.1 <= 180,
{
    proof {
        assert(0 <= x * x <= 16000000000000i64 && 0 <= y * y <= 16000000000000i64)
            by (nonlinear_arith)
            requires -4000000 <= x <= 4000000 && -4000000 <= y <= 4000000;
    }
    let sq: u64 = ((x * x) as u64) + ((y * y) as u64);
    let d: u64 = isqrt64(sq);
    proof {
        lemma_isqrt_unique(sq as int, d as int);
        assert(d <= 6000000) by (nonlinear_arith)
            requires d * d <= 32000000000000u64 && d >= 0;
    }
    let a: i32 = atan2_deg(x, y);
    (d as i64, a)
}

} // verus!
