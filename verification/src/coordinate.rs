//! Coordinate estimator: fuses the four-directional ranging bundle into a
//! validated field position.
//!
//! Each side keeps an *ignore counter*: it grows while the side's readings
//! look implausible (too close, weak signal, or a jump from the last
//! accepted value) and is cleared instantly only by the geometric
//! cross-check, where opposite walls must add up to the field dimension.
//! Once a counter has grown past `LIDAR_IGNORE_TOLERANCE`, the per-side
//! decay path no longer clears it: a badly wrong side must pass the
//! geometric check to be trusted again.  A negative counter marks a manual
//! "trust this side again" override.

use vstd::prelude::*;
use crate::config::{FIELD_LENGTH, FIELD_WIDTH};
use crate::data::{Coordinate, LidarData, LineData, RangingSample};
use crate::num::tdiv;
use crate::trig::cos_q_spec;
use crate::trig::cos_q;

verus! {

/// Shortest plausible ranging distance, in millimeters.
pub const LIDAR_DIST_MIN: i32 = 200;

/// Weakest trusted signal strength.
pub const LIDAR_SIGNAL_MIN: u16 = 200;

/// Largest accepted jump from the last accepted value, in millimeters.
pub const LIDAR_CHANGE_TOLERANCE: i32 = 50;

/// Counter value beyond which only the geometric cross-check clears a side.
pub const LIDAR_IGNORE_TOLERANCE: i32 = 100;

/// Counter ceiling, so a permanently bad side cannot overflow its counter.
pub const LIDAR_IGNORE_CAP: i32 = 1000000000;

/// Allowed mismatch of opposite distances against the field length, in
/// millimeters.
pub const FIELD_LENGTH_TOLERANCE: i32 = 140;

/// Allowed mismatch of opposite distances against the field width, in
/// millimeters.
pub const FIELD_WIDTH_TOLERANCE: i32 = 80;

/// Per-side state of the estimator: last accepted corrected distances in
/// millimeters and the four ignore counters.
#[derive(Clone, Copy, PartialEq, Eq, Structural, Debug)]
pub struct CoordinateEstimator {
    pub last_front: i32,
    pub last_back: i32,
    pub last_left: i32,
    pub last_right: i32,
    pub ignore_front: i32,
    pub ignore_back: i32,
    pub ignore_left: i32,
    pub ignore_right: i32,
}

/// The estimator's invariant: counters between the manual override mark and
/// the cap, last accepted distances within the sensor's range.
pub open spec fn est_wf(s: CoordinateEstimator) -> bool {
    &&& -1 <= s.ignore_front <= LIDAR_IGNORE_CAP
    &&& -1 <= s.ignore_back <= LIDAR_IGNORE_CAP
    &&& -1 <= s.ignore_left <= LIDAR_IGNORE_CAP
    &&& -1 <= s.ignore_right <= LIDAR_IGNORE_CAP
    &&& 0 <= s.last_front <= 655350
    &&& 0 <= s.last_back <= 655350
    &&& 0 <= s.last_left <= 655350
    &&& 0 <= s.last_right <= 655350
}

/// Heading-corrected distance in millimeters: the raw centimeter reading is
/// projected by the magnitude of the heading's cosine.
pub open spec fn corrected_mm(dist_cm: u16, heading: int) -> int {
    let c = cos_q_spec(heading);
    let ca = if c >= 0 { c } else { -c };
    tdiv(dist_cm * 10 * ca, 10000)
}

/// The body-fixed sensors remapped to geometric roles
/// `(front, back, left, right)` according to the quadrant the heading falls
/// into; each role is `(corrected distance, signal strength)`.
pub open spec fn role_sides(data: LidarData, heading: int) -> (
    (int, int),
    (int, int),
    (int, int),
    (int, int),
) {
    let f = (corrected_mm(data.front.dist, heading), data.front.signal as int);
    let b = (corrected_mm(data.back.dist, heading), data.back.signal as int);
    let l = (corrected_mm(data.left.dist, heading), data.left.signal as int);
    let r = (corrected_mm(data.right.dist, heading), data.right.signal as int);
    let ha = if heading >= 0 { heading } else { -heading };
    if ha <= 45 {
        (f, b, l, r)
    } else if ha >= 135 {
        (b, f, r, l)
    } else if heading > 0 {
        (r, l, b, f)
    } else {
        (l, r, f, b)
    }
}

/// Saturating counter increment.
pub open spec fn sat_inc(ig: int) -> int {
    if ig < LIDAR_IGNORE_CAP {
        ig + 1
    } else {
        ig
    }
}

/// Per-side counter step when the geometric cross-check failed: grow on an
/// implausible reading, decay to zero only below the hysteresis threshold.
pub open spec fn ctr_bump(ig: int, dist: int, sig: int, last: int) -> int {
    let jump = if dist - last >= 0 { dist - last } else { last - dist };
    if dist < LIDAR_DIST_MIN || sig < LIDAR_SIGNAL_MIN || jump > LIDAR_CHANGE_TOLERANCE {
        sat_inc(ig)
    } else if ig <= LIDAR_IGNORE_TOLERANCE {
        0
    } else {
        ig
    }
}

/// Counter step for one axis: the geometric cross-check clears both sides at
/// once; otherwise each side is judged alone.
pub open spec fn axis_counters(
    ig_a: int,
    ig_b: int,
    a: (int, int),
    b: (int, int),
    last_a: int,
    last_b: int,
    dim: int,
    tol: int,
) -> (int, int) {
    let weaker = if a.1 <= b.1 { a.1 } else { b.1 };
    let miss = if a.0 + b.0 - dim >= 0 { a.0 + b.0 - dim } else { dim - a.0 - b.0 };
    if weaker > LIDAR_SIGNAL_MIN && miss < tol {
        (0, 0)
    } else {
        (ctr_bump(ig_a, a.0, a.1, last_a), ctr_bump(ig_b, b.0, b.1, last_b))
    }
}

/// All four counters after one bundle.
pub open spec fn counters_after(s: CoordinateEstimator, data: LidarData, heading: int) -> (
    int,
    int,
    int,
    int,
) {
    let (f, b, l, r) = role_sides(data, heading);
    let (igf, igb) = axis_counters(
        s.ignore_front as int,
        s.ignore_back as int,
        f,
        b,
        s.last_front as int,
        s.last_back as int,
        FIELD_LENGTH as int,
        FIELD_LENGTH_TOLERANCE as int,
    );
    let (igl, igr) = axis_counters(
        s.ignore_left as int,
        s.ignore_right as int,
        l,
        r,
        s.last_left as int,
        s.last_right as int,
        FIELD_WIDTH as int,
        FIELD_WIDTH_TOLERANCE as int,
    );
    (igf, igb, igl, igr)
}

/// An axis is blocked when both of its sides are currently ignored.
pub open spec fn blocked_after(s: CoordinateEstimator, data: LidarData, heading: int) -> bool {
    let (igf, igb, igl, igr) = counters_after(s, data, heading);
    (igf != 0 && igb != 0) || (igl != 0 && igr != 0)
}

/// Last accepted distances after one bundle: only trusted sides are
/// refreshed, and nothing is refreshed in a blocked cycle.
pub open spec fn lasts_after(s: CoordinateEstimator, data: LidarData, heading: int) -> (
    int,
    int,
    int,
    int,
) {
    let (f, b, l, r) = role_sides(data, heading);
    let (igf, igb, igl, igr) = counters_after(s, data, heading);
    if blocked_after(s, data, heading) {
        (s.last_front as int, s.last_back as int, s.last_left as int, s.last_right as int)
    } else {
        (
            if igf <= 0 { f.0 } else { s.last_front as int },
            if igb <= 0 { b.0 } else { s.last_back as int },
            if igl <= 0 { l.0 } else { s.last_left as int },
            if igr <= 0 { r.0 } else { s.last_right as int },
        )
    }
}

/// The published coordinate after one bundle: the held position marked
/// invalid when an axis is blocked, otherwise the trusted side of each axis
/// converted to a field position.
pub open spec fn output_after(
    s: CoordinateEstimator,
    data: LidarData,
    heading: int,
    current: Coordinate,
) -> (int, int, bool) {
    let (f, b, l, r) = role_sides(data, heading);
    let (igf, igb, igl, igr) = counters_after(s, data, heading);
    if blocked_after(s, data, heading) {
        (current.x as int, current.y as int, false)
    } else {
        let use_front = if igf <= 0 && igb <= 0 { f.1 >= b.1 } else { igf <= 0 };
        let use_left = if igl <= 0 && igr <= 0 { l.1 >= r.1 } else { igl <= 0 };
        let x = if use_left { l.0 } else { FIELD_WIDTH - r.0 };
        let y = if use_front { f.0 } else { FIELD_LENGTH - b.0 };
        (x, y, true)
    }
}

/// Coordinate validity: the published position is valid exactly when no
/// axis has both of its sides ignored after this bundle's counter update;
/// as soon as either side of each axis clears, publishing resumes, and a
/// blocked cycle republishes the held position unchanged.
pub proof fn lemma_coordinate_validity(
    s: CoordinateEstimator,
    data: LidarData,
    heading: int,
    current: Coordinate,
)
    ensures
        ({
            let (igf, igb, igl, igr) = counters_after(s, data, heading);
            let (x, y, valid) = output_after(s, data, heading, current);
            &&& valid <==> !((igf != 0 && igb != 0) || (igl != 0 && igr != 0))
            &&& !valid ==> x == current.x && y == current.y
        }),
{
}

impl CoordinateEstimator {
    /// A fresh estimator: nothing accepted yet, nothing ignored.
    pub fn new() -> (s: CoordinateEstimator)
        ensures
            s.last_front == 0 && s.last_back == 0 && s.last_left == 0 && s.last_right == 0,
            s.ignore_front == 0 && s.ignore_back == 0 && s.ignore_left == 0 && s.ignore_right
                == 0,
            est_wf(s),
    {
        CoordinateEstimator {
            last_front: 0,
            last_back: 0,
            last_left: 0,
            last_right: 0,
            ignore_front: 0,
            ignore_back: 0,
            ignore_left: 0,
            ignore_right: 0,
        }
    }

    /// Manual override: stop distrusting the named sides at once.  Only a
    /// counter that is already nonzero is touched, so a side that is
    /// currently trusted is left alone.
    pub fn unignore(&mut self, which: LineData)
        ensures
            final(self).ignore_front == if which.front && old(self).ignore_front != 0 {
                -1int
            } else {
                old(self).ignore_front as int
            },
            final(self).ignore_left == if which.left && old(self).ignore_left != 0 {
                -1int
            } else {
                old(self).ignore_left as int
            },
            final(self).ignore_right == if which.right && old(self).ignore_right != 0 {
                -1int
            } else {
                old(self).ignore_right as int
            },
            final(self).ignore_back == if which.back && old(self).ignore_back != 0 {
                -1int
            } else {
                old(self).ignore_back as int
            },
            final(self).last_front == old(self).last_front,
            final(self).last_back == old(self).last_back,
            final(self).last_left == old(self).last_left,
            final(self).last_right == old(self).last_right,
            est_wf(*old(self)) ==> est_wf(*final(self)),
    {
        if which.front && self.ignore_front != 0 {
            self.ignore_front = -1;
        }
        if which.left && self.ignore_left != 0 {
            self.ignore_left = -1;
        }
        if which.right && self.ignore_right != 0 {
            self.ignore_right = -1;
        }
        if which.back && self.ignore_back != 0 {
            self.ignore_back = -1;
        }
    }

    /// One estimation cycle over a fresh ranging bundle.
    ///
    /// `current` is the position held in the shared store; it is republished
    /// unchanged, marked invalid, when both sides of an axis are ignored.
    /// The returned coordinate is valid exactly when neither axis is
    /// blocked.
    #[verifier::rlimit(100)]
    pub fn update(&mut self, data: LidarData, heading: i32, current: Coordinate) -> (r:
        Coordinate)
        requires
            est_wf(*old(self)),
            -180 < heading <= 180,
        ensures
            est_wf(*final(self)),
            (
                final(self).ignore_front as int,
                final(self).ignore_back as int,
                final(self).ignore_left as int,
                final(self).ignore_right as int,
            ) == counters_after(*old(self), data, heading as int),
            (
                final(self).last_front as int,
                final(self).last_back as int,
                final(self).last_left as int,
                final(self).last_right as int,
            ) == lasts_after(*old(self), data, heading as int),
            (r.x as int, r.y as int, r.valid) == output_after(
                *old(self),
                data,
                heading as int,
                current,
            ),
            r.valid <==> !blocked_after(*old(self), data, heading as int),
            !r.valid ==> r.x == current.x && r.y == current.y,
    {
        let cos_abs: i32 = {
            let c = cos_q(heading);
            if c >= 0 {
                c
            } else {
                -c
            }
        };
        let cf = corrected_of(data.front, cos_abs);
        let cb = corrected_of(data.back, cos_abs);
        let cl = corrected_of(data.left, cos_abs);
        let cr = corrected_of(data.right, cos_abs);
        proof {
            assert(cf.0 as int == corrected_mm(data.front.dist, heading as int));
            assert(cb.0 as int == corrected_mm(data.back.dist, heading as int));
            assert(cl.0 as int == corrected_mm(data.left.dist, heading as int));
            assert(cr.0 as int == corrected_mm(data.right.dist, heading as int));
        }
        let ha: i32 = if heading >= 0 {
            heading
        } else {
            -heading
        };
        let (front, back, left, right): ((i32, u16), (i32, u16), (i32, u16), (i32, u16)) = if ha
            <= 45 {
            (cf, cb, cl, cr)
        } else if ha >= 135 {
            (cb, cf, cr, cl)
        } else if heading > 0 {
            (cr, cl, cb, cf)
        } else {
            (cl, cr, cf, cb)
        };
        let ghost roles = role_sides(data, heading as int);
        proof {
            assert((front.0 as int, front.1 as int) == roles.0);
            assert((back.0 as int, back.1 as int) == roles.1);
            assert((left.0 as int, left.1 as int) == roles.2);
            assert((right.0 as int, right.1 as int) == roles.3);
        }

        let weaker_y: u16 = if front.1 <= back.1 {
            front.1
        } else {
            back.1
        };
        let miss_y: i32 = {
            let m = front.0 + back.0 - FIELD_LENGTH;
            if m >= 0 {
                m
            } else {
                -m
            }
        };
        if weaker_y > LIDAR_SIGNAL_MIN && miss_y < FIELD_LENGTH_TOLERANCE {
            self.ignore_front = 0;
            self.ignore_back = 0;
        } else {
            self.ignore_front = bump(self.ignore_front, front.0, front.1, self.last_front);
            self.ignore_back = bump(self.ignore_back, back.0, back.1, self.last_back);
        }

        let weaker_x: u16 = if left.1 <= right.1 {
            left.1
        } else {
            right.1
        };
        let miss_x: i32 = {
            let m = left.0 + right.0 - FIELD_WIDTH;
            if m >= 0 {
                m
            } else {
                -m
            }
        };
        if weaker_x > LIDAR_SIGNAL_MIN && miss_x < FIELD_WIDTH_TOLERANCE {
            self.ignore_left = 0;
            self.ignore_right = 0;
        } else {
            self.ignore_left = bump(self.ignore_left, left.0, left.1, self.last_left);
            self.ignore_right = bump(self.ignore_right, right.0, right.1, self.last_right);
        }

        proof {
            assert((
                self.ignore_front as int,
                self.ignore_back as int,
                self.ignore_left as int,
                self.ignore_right as int,
            ) == counters_after(*old(self), data, heading as int));
        }

        if (self.ignore_front != 0 && self.ignore_back != 0) || (self.ignore_left != 0
            && self.ignore_right != 0) {
            return Coordinate { x: current.x, y: current.y, valid: false };
        }

        let use_front: bool = if self.ignore_front <= 0 && self.ignore_back <= 0 {
            front.1 >= back.1
        } else {
            self.ignore_front <= 0
        };
        let use_left: bool = if self.ignore_left <= 0 && self.ignore_right <= 0 {
            left.1 >= right.1
        } else {
            self.ignore_left <= 0
        };

        let x: i32 = if use_left {
            left.0
        } else {
            FIELD_WIDTH - right.0
        };
        let y: i32 = if use_front {
            front.0
        } else {
            FIELD_LENGTH - back.0
        };

        if self.ignore_front <= 0 {
            self.last_front = front.0;
        }
        if self.ignore_back <= 0 {
            self.last_back = back.0;
        }
        if self.ignore_left <= 0 {
            self.last_left = left.0;
        }
        if self.ignore_right <= 0 {
            self.last_right = right.0;
        }

        Coordinate { x, y, valid: true }
    }
}

/// Heading-corrected distance of one sample, in millimeters, with its
/// signal strength carried along.
fn corrected_of(s: RangingSample, cos_abs: i32) -> (r: (i32, u16))
    requires
        0 <= cos_abs <= 10000,
    ensures
        r.0 == tdiv(s.dist * 10 * cos_abs, 10000),
        0 <= r.0 <= 655350,
        r.1 == s.signal,
{
    proof {
        assert(s.dist * 10 * cos_abs <= 655350 * 10000) by (nonlinear_arith)
            requires 0 <= s.dist <= 65535 && 0 <= cos_abs <= 10000;
    }
    let scaled: i64 = (s.dist as i64) * 10 * (cos_abs as i64);
    let q: i64 = scaled / 10000;
    assert(q == tdiv(s.dist * 10 * cos_abs, 10000));
    (q as i32, s.signal)
}

/// Saturating counter increment.
fn sat_inc_exec(ig: i32) -> (r: i32)
    ensures
        r == sat_inc(ig as int),
{
    if ig < LIDAR_IGNORE_CAP {
        ig + 1
    } else {
        ig
    }
}

/// Per-side counter step outside the geometric cross-check.
fn bump(ig: i32, dist: i32, sig: u16, last: i32) -> (r: i32)
    requires
        -1 <= ig <= LIDAR_IGNORE_CAP,
        0 <= dist <= 655350,
        0 <= last <= 655350,
    ensures
        r == ctr_bump(ig as int, dist as int, sig as int, last as int),
        -1 <= r <= LIDAR_IGNORE_CAP,
{
    let jump: i32 = if dist - last >= 0 {
        dist - last
    } else {
        last - dist
    };
    if dist < LIDAR_DIST_MIN || sig < LIDAR_SIGNAL_MIN || jump > LIDAR_CHANGE_TOLERANCE {
        sat_inc_exec(ig)
    } else if ig <= LIDAR_IGNORE_TOLERANCE {
        0
    } else {
        ig
    }
}

} // verus!
