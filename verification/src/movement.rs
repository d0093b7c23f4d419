//! Holonomic drive mixing: from a (speed, direction, rotation) command to
//! four signed wheel speeds.
//!
//! The wheels are mounted at 45 degrees, so the direction vector is rotated
//! by 45 degrees and normalized by its dominant component, which keeps
//! diagonal motion from exceeding single-axis motion.  The rotation command
//! is superimposed equally on all four wheels.  Motors stall below a
//! threshold, so every nonzero command is boosted away from zero by that
//! threshold, and anything still below a slightly higher final cutoff is
//! zeroed to avoid sub-threshold buzzing.

use vstd::prelude::*;
use crate::angles::{norm_deg, lemma_norm_range, lemma_norm_add, lemma_norm_shift, clamp_angle};
use crate::data::MotorData;
use crate::num::{tdiv, div_trunc, lemma_tdiv_neg};
use crate::trig::{
    sin_q_spec,
    cos_q_spec,
    sin_q,
    cos_q,
    lemma_sin_bounds,
    lemma_sin_lobe_bounds,
    lemma_sin_opposite,
    lemma_cos_opposite,
};

verus! {

/// Stall threshold: a nonzero command is boosted this far from zero.
pub const MOTOR_MIN: i32 = 26;

/// Final cutoff: a command weaker than this is zeroed outright.
pub const MOTOR_MIN_FINAL: i32 = 27;

/// Largest wheel command the mixer can emit.
pub const MOTOR_MAX: i32 = 254;

/// Share of full scale given to the rotation command, in thousandths.
pub const MOTOR_ANGLE_RATIO: i32 = 200;

/// Share of full scale given to the translation command, in thousandths.
pub const MOTOR_POSITION_RATIO: i32 = 800;

/// The body-frame speed components for a (speed, direction) command:
/// the direction is rotated 45 degrees and normalized by the dominant
/// trigonometric component.
pub open spec fn wheel_base_spec(speed: int, angle: int) -> (int, int) {
    let a = norm_deg(45 - angle);
    let s = sin_q_spec(a);
    let c = cos_q_spec(a);
    let sa = if s >= 0 { s } else { -s };
    let ca = if c >= 0 { c } else { -c };
    let m = if sa >= ca { sa } else { ca };
    let sr = tdiv(speed * 1832, 10000);
    (tdiv(sr * c, m), tdiv(sr * s, m))
}

/// The wheel contribution of the rotation command.
pub open spec fn rot_term_spec(rotation: int) -> int {
    tdiv(rotation * 458, 10000)
}

/// Boost a nonzero command away from zero by the stall threshold.
pub open spec fn boost_spec(w: int) -> int {
    if w > 0 {
        w + MOTOR_MIN
    } else if w < 0 {
        w - MOTOR_MIN
    } else {
        w
    }
}

/// Zero any command weaker than the final cutoff.
pub open spec fn cutoff_spec(w: int) -> int {
    if -MOTOR_MIN_FINAL < w < MOTOR_MIN_FINAL {
        0
    } else {
        w
    }
}

/// The full minimum-drive compensation of one wheel.
pub open spec fn compensate_spec(w: int) -> int {
    cutoff_spec(boost_spec(w))
}

/// The four wheel commands `(fl, fr, bl, br)` for a full drive command.
pub open spec fn drive_spec(speed: int, angle: int, rotation: int) -> (int, int, int, int) {
    let (sx, sy) = wheel_base_spec(speed, angle);
    let rt = rot_term_spec(rotation);
    (
        compensate_spec(sy + rt),
        compensate_spec(-sx + rt),
        compensate_spec(sx + rt),
        compensate_spec(-sy + rt),
    )
}

/// The dominant trigonometric component is never zero: sine and cosine of
/// one angle cannot both vanish.
pub proof fn lemma_trig_max_pos(a: int)
    requires
        -180 < a <= 180,
    ensures
        ({
            let s = sin_q_spec(a);
            let c = cos_q_spec(a);
            let sa = if s >= 0 { s } else { -s };
            let ca = if c >= 0 { c } else { -c };
            let m = if sa >= ca { sa } else { ca };
            1 <= m <= 10000
        }),
{
    lemma_sin_bounds(a);
    lemma_norm_range(a + 90);
    crate::trig::lemma_sin_bounds(norm_deg(a + 90));
    if a == 0 {
        assert(90int % 360 == 90) by (nonlinear_arith);
        assert(norm_deg(90) == 90);
        lemma_sin_lobe_bounds(90);
    } else if a == 180 {
        assert(270int % 360 == 270) by (nonlinear_arith);
        assert(norm_deg(270) == -90);
        lemma_sin_lobe_bounds(90);
    } else if a > 0 {
        lemma_sin_lobe_bounds(a);
    } else {
        lemma_sin_lobe_bounds(-a);
    }
}

/// Minimum-drive compensation: a nonzero command is pushed at least to the
/// stall threshold without changing direction, and what the cutoff lets
/// through is zero or at least the cutoff, still in the same direction.
pub proof fn lemma_min_drive(w: int)
    ensures
        w > 0 ==> boost_spec(w) >= MOTOR_MIN && boost_spec(w) > 0,
        w < 0 ==> boost_spec(w) <= -MOTOR_MIN && boost_spec(w) < 0,
        w == 0 ==> compensate_spec(w) == 0,
        compensate_spec(w) == 0 || compensate_spec(w) >= MOTOR_MIN_FINAL || compensate_spec(w)
            <= -MOTOR_MIN_FINAL,
        w > 0 ==> compensate_spec(w) >= 0,
        w < 0 ==> compensate_spec(w) <= 0,
{
}

/// Compensation is symmetric under direction reversal.
pub proof fn lemma_compensate_neg(w: int)
    ensures
        compensate_spec(-w) == -compensate_spec(w),
{
}

/// Mixing symmetry: with no rotation, driving at `angle + 180` produces
/// exactly the negated wheel commands of driving at `angle`.
pub proof fn lemma_drive_opposite(speed: int, angle: int)
    ensures
        ({
            let a = drive_spec(speed, angle, 0);
            let b = drive_spec(speed, angle + 180, 0);
            a.0 == -b.0 && a.1 == -b.1 && a.2 == -b.2 && a.3 == -b.3
        }),
{
    let a1 = norm_deg(45 - angle);
    let a2 = norm_deg(45 - (angle + 180));
    lemma_norm_range(45 - angle);
    lemma_norm_range(45 - (angle + 180));
    lemma_norm_add(45 - angle, -180);
    assert(norm_deg(a1 - 180) == a2);
    lemma_norm_shift(a1 - 180, 1);
    assert(norm_deg(a1 + 180) == a2);
    lemma_sin_opposite(a1);
    lemma_cos_opposite(a1);
    let s = sin_q_spec(a1);
    let c = cos_q_spec(a1);
    assert(sin_q_spec(a2) == -s);
    assert(cos_q_spec(a2) == -c);
    lemma_trig_max_pos(a1);
    let sa = if s >= 0 { s } else { -s };
    let ca = if c >= 0 { c } else { -c };
    let m = if sa >= ca { sa } else { ca };
    let sr = tdiv(speed * 1832, 10000);
    assert(sr * (-c) == -(sr * c)) by (nonlinear_arith);
    assert(sr * (-s) == -(sr * s)) by (nonlinear_arith);
    lemma_tdiv_neg(sr * c, m);
    lemma_tdiv_neg(sr * s, m);
    assert(0int * 458 == 0) by (nonlinear_arith);
    assert(tdiv(0int * 458, 10000) == 0) by {
        assert(0int / 10000 == 0) by (nonlinear_arith);
    }
    assert forall|w: int| #[trigger] compensate_spec(-w) == -compensate_spec(w) by {
        lemma_compensate_neg(w);
    }
}

/// Mix a drive command into the four wheel commands.
///
/// `speed` and `rotation` are in thousandths of full scale, `angle` in
/// degrees (any winding).
pub fn drive(speed: i32, angle: i32, rotation: i32) -> (r: MotorData)
    requires
        -1000 <= speed <= 1000,
        -1000 <= rotation <= 1000,
        -1000000 <= angle <= 1000000,
    ensures
        (r.fl as int, r.fr as int, r.bl as int, r.br as int) == drive_spec(
            speed as int,
            angle as int,
            rotation as int,
        ),
        -MOTOR_MAX <= r.fl <= MOTOR_MAX,
        -MOTOR_MAX <= r.fr <= MOTOR_MAX,
        -MOTOR_MAX <= r.bl <= MOTOR_MAX,
        -MOTOR_MAX <= r.br <= MOTOR_MAX,
{
    let a = clamp_angle(45 - angle);
    let s = sin_q(a);
    let c = cos_q(a);
    proof {
        lemma_trig_max_pos(a as int);
    }
    let sa: i32 = if s >= 0 {
        s
    } else {
        -s
    };
    let ca: i32 = if c >= 0 {
        c
    } else {
        -c
    };
    let m: i32 = if sa >= ca {
        sa
    } else {
        ca
    };
    proof {
        assert(-1832000 <= speed * 1832 <= 1832000) by (nonlinear_arith)
            requires -1000 <= speed <= 1000;
        assert(tdiv(speed as int * 1832, 10000) <= 183 && tdiv(speed as int * 1832, 10000)
            >= -183) by (nonlinear_arith)
            requires
                -1832000 <= speed * 1832 <= 1832000
                    && tdiv(speed as int * 1832, 10000) == if speed * 1832 >= 0 {
                    (speed * 1832) / 10000
                } else {
                    -((-(speed * 1832)) / 10000)
                },
        ;
    }
    let sr: i64 = div_trunc((speed as i64) * 1832, 10000);
    proof {
        assert(-(183 * 10000) <= sr * c <= 183 * 10000 && -(183 * 10000) <= sr * s <= 183
            * 10000) by (nonlinear_arith)
            requires -183 <= sr <= 183 && -10000 <= c <= 10000 && -10000 <= s <= 10000;
        lemma_div_dominant(sr as int, c as int, m as int);
        lemma_div_dominant(sr as int, s as int, m as int);
    }
    let sx: i64 = div_trunc(sr * (c as i64), m as i64);
    let sy: i64 = div_trunc(sr * (s as i64), m as i64);
    proof {
        assert(-458000 <= rotation * 458 <= 458000) by (nonlinear_arith)
            requires -1000 <= rotation <= 1000;
        assert(tdiv(rotation as int * 458, 10000) <= 45 && tdiv(rotation as int * 458, 10000)
            >= -45) by (nonlinear_arith)
            requires
                -458000 <= rotation * 458 <= 458000
                    && tdiv(rotation as int * 458, 10000) == if rotation * 458 >= 0 {
                    (rotation * 458) / 10000
                } else {
                    -((-(rotation * 458)) / 10000)
                },
        ;
    }
    let rt: i64 = div_trunc((rotation as i64) * 458, 10000);
    let fl = compensate(sy + rt);
    let fr = compensate(-sx + rt);
    let bl = compensate(sx + rt);
    let br = compensate(-sy + rt);
    MotorData { fl, fr, bl, br }
}

/// A quotient by the dominant component never exceeds the numerator's other
/// factor.
proof fn lemma_div_dominant(sr: int, t: int, m: int)
    requires
        -183 <= sr <= 183,
        -10000 <= t <= 10000,
        1 <= m <= 10000,
        t <= m,
        -t <= m,
    ensures
        -183 <= tdiv(sr * t, m) <= 183,
{
    if sr * t >= 0 {
        assert(sr * t <= 183 * m) by (nonlinear_arith)
            requires -183 <= sr <= 183 && t <= m && -t <= m && m >= 1;
        assert((sr * t) / m <= 183) by (nonlinear_arith)
            requires 0 <= sr * t <= 183 * m && m >= 1;
        assert((sr * t) / m >= 0) by (nonlinear_arith)
            requires sr * t >= 0 && m >= 1;
    } else {
        assert(-(sr * t) <= 183 * m) by (nonlinear_arith)
            requires -183 <= sr <= 183 && t <= m && -t <= m && m >= 1;
        assert((-(sr * t)) / m <= 183) by (nonlinear_arith)
            requires 0 <= -(sr * t) <= 183 * m && m >= 1;
        assert((-(sr * t)) / m >= 0) by (nonlinear_arith)
            requires -(sr * t) >= 0 && m >= 1;
    }
}

/// Minimum-drive compensation of one wheel command.
fn compensate(w: i64) -> (r: i16)
    requires
        -228 <= w <= 228,
    ensures
        r as int == compensate_spec(w as int),
        -MOTOR_MAX <= r <= MOTOR_MAX,
{
    let boosted: i64 = if w > 0 {
        w + (MOTOR_MIN as i64)
    } else if w < 0 {
        w - (MOTOR_MIN as i64)
    } else {
        w
    };
    let cut: i64 = if -(MOTOR_MIN_FINAL as i64) < boosted && boosted < (MOTOR_MIN_FINAL as i64) {
        0
    } else {
        boosted
    };
    cut as i16
}

} // verus!
