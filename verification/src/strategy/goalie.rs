//! Goalkeeper: stay on the goal line, projected along the bisector of the
//! two goalpost-to-ball sightlines, clamped to the goal mouth; switch to a
//! pushing sub-state when the ball has not moved appreciably for a while.

use vstd::prelude::*;
use super::Data;
use crate::angles::{norm_deg, clamp_angle};
use crate::config::{FIELD_LENGTH, FIELD_MARGIN, FIELD_MARGIN_Y, FIELD_WIDTH};
use crate::data::TargetCommand;
use crate::num::{tdiv, div_trunc, clamped, clamp_i64};
use crate::trig::{sin_q_spec, cos_q_spec, sin_q, cos_q, atan2_deg_spec, construct_vector};

verus! {

/// Standoff in front of the goal line, in millimeters.
pub const GOALIE_DISTANCE: i32 = 30;

/// Ball movement along x that counts as movement, in millimeters.
pub const MOVEMENT_THRESHOLD_X: i32 = 75;

/// Ball movement along y that counts as movement, in millimeters.
pub const MOVEMENT_THRESHOLD_Y: i32 = 75;

/// How long the ball must sit still before the goalkeeper pushes, in
/// milliseconds.
pub const CHANGED_THRESHOLD: u64 = 2500;

/// Keep-out margin from the posts, in millimeters.
pub const MIN_X: i32 = 100;

/// Half the goal mouth, in millimeters.
pub const GOAL_HALF_WIDTH: i32 = 300;

/// Magnitude that stands in for an unbounded projection when the bisector
/// runs parallel to the goal line.
pub const FAR_MAGNITUDE: i64 = 20000000000;

/// The goalkeeper's state: where the ball last moved to, and when.
#[derive(Clone, Copy, PartialEq, Eq, Structural, Debug)]
pub struct GoalieState {
    pub last_bx: i32,
    pub last_by: i32,
    pub last_changed: u64,
    pub pushing: bool,
}

impl GoalieState {
    /// A fresh state at time `now`: the last ball position is far off every
    /// real one, so the first tick counts as movement.
    pub fn new(now: u64) -> (s: GoalieState)
        ensures
            s == (GoalieState { last_bx: -9990i32, last_by: -9990i32, last_changed: now, pushing: false }),
    {
        GoalieState { last_bx: -9990, last_by: -9990, last_changed: now, pushing: false }
    }
}

/// The state's stamp lies in the past of `now`, and the remembered ball
/// position within the estimator's range.
pub open spec fn goalie_wf(s: GoalieState, now: u64) -> bool {
    &&& s.last_changed <= now
    &&& -1100000 <= s.last_bx <= 1100000
    &&& -1100000 <= s.last_by <= 1100000
}

/// Whether the ball moved appreciably since it was last remembered.
pub open spec fn ball_moved(s: GoalieState, bx: int, by: int) -> bool {
    let dx = if bx - s.last_bx >= 0 { bx - s.last_bx } else { s.last_bx - bx };
    let dy = if by - s.last_by >= 0 { by - s.last_by } else { s.last_by - by };
    dx > MOVEMENT_THRESHOLD_X || dy > MOVEMENT_THRESHOLD_Y
}

/// The state after one tick with a valid robot position.
pub open spec fn goalie_state_after(s: GoalieState, bx: int, by: int, now: u64) -> GoalieState {
    let s1 = if ball_moved(s, bx, by) {
        GoalieState { last_bx: bx as i32, last_by: by as i32, last_changed: now, ..s }
    } else {
        s
    };
    if now - s1.last_changed > CHANGED_THRESHOLD {
        GoalieState { pushing: true, ..s1 }
    } else {
        s1
    }
}

/// The bisector bearing of the two goalpost sightlines, folded to point
/// from the goal line outward.
pub open spec fn bisector_deg(bx: int, by: int) -> int {
    let gy = by - FIELD_LENGTH - FIELD_MARGIN;
    let al = atan2_deg_spec((FIELD_WIDTH / 2) as int - GOAL_HALF_WIDTH - bx, gy);
    let ar = atan2_deg_spec((FIELD_WIDTH / 2) as int + GOAL_HALF_WIDTH - bx, gy);
    let a = norm_deg(tdiv(al + ar, 2));
    if a < 0 {
        -180 - a
    } else {
        180 - a
    }
}

/// The goal-line x the bisector projects to, before clamping to the goal
/// mouth.
pub open spec fn projected_x(bx: int, by: int, ny: int) -> int {
    let a = bisector_deg(bx, by);
    let c = cos_q_spec(a);
    let s = sin_q_spec(a);
    let num = (ny - by) * 10000;
    let mag = if c > 0 {
        tdiv(num, c)
    } else if c < 0 {
        -tdiv(num, -c)
    } else if num > 0 {
        FAR_MAGNITUDE as int
    } else if num < 0 {
        -(FAR_MAGNITUDE as int)
    } else {
        0
    };
    bx + tdiv(mag * s, 10000)
}

/// The emitted target for a valid robot position.
pub open spec fn goalie_target(bx: int, by: int) -> (int, int) {
    let ny = FIELD_LENGTH - FIELD_MARGIN_Y - GOALIE_DISTANCE;
    let nx = clamped(
        projected_x(bx, by, ny),
        FIELD_MARGIN + MIN_X,
        FIELD_WIDTH - FIELD_MARGIN - MIN_X,
    );
    (nx, ny)
}

/// One goalkeeper tick.
///
/// With an invalid robot position, creep forward from the held position and
/// leave the state alone.
pub fn run(data: &Data, state: &mut GoalieState, now: u64) -> (r: TargetCommand)
    requires
        super::data_wf(*data),
        goalie_wf(*old(state), now),
    ensures
        r.heading == 0,
        !data.coordinates.valid ==> (*final(state) == *old(state) && r.x == data.coordinates.x
            && r.y as int == data.coordinates.y + 50),
        data.coordinates.valid ==> (*final(state) == goalie_state_after(
            *old(state),
            data.ball.x as int,
            data.ball.y as int,
            now,
        ) && (r.x as int, r.y as int) == goalie_target(data.ball.x as int, data.ball.y as int)),
        goalie_wf(*final(state), now),
        super::target_in_range(r),
{
    let bx = data.ball.x;
    let by = data.ball.y;
    let x = data.coordinates.x;
    let y = data.coordinates.y;

    if !data.coordinates.valid {
        return TargetCommand { heading: 0, x, y: y + 50 };
    }

    let dx = if bx - state.last_bx >= 0 {
        bx - state.last_bx
    } else {
        state.last_bx - bx
    };
    let dy = if by - state.last_by >= 0 {
        by - state.last_by
    } else {
        state.last_by - by
    };
    if dx > MOVEMENT_THRESHOLD_X || dy > MOVEMENT_THRESHOLD_Y {
        state.last_bx = bx;
        state.last_by = by;
        state.last_changed = now;
    }
    if now - state.last_changed > CHANGED_THRESHOLD {
        state.pushing = true;
    }

    let ny: i32 = FIELD_LENGTH - FIELD_MARGIN_Y - GOALIE_DISTANCE;
    let gy: i64 = (by as i64) - (FIELD_LENGTH as i64) - (FIELD_MARGIN as i64);
    let (_, al) = construct_vector(((FIELD_WIDTH / 2 - GOAL_HALF_WIDTH) as i64) - (bx as i64), gy);
    let (_, ar) = construct_vector(((FIELD_WIDTH / 2 + GOAL_HALF_WIDTH) as i64) - (bx as i64), gy);
    let half: i32 = {
        let sum = al + ar;
        if sum >= 0 {
            sum / 2
        } else {
            -((-sum) / 2)
        }
    };
    let a0 = clamp_angle(half);
    let a: i32 = if a0 < 0 {
        -180 - a0
    } else {
        180 - a0
    };
    let c = cos_q(a);
    let s = sin_q(a);
    let num: i64 = ((ny as i64) - (by as i64)) * 10000;
    let mag: i64 = if c > 0 {
        div_trunc(num, c as i64)
    } else if c < 0 {
        -div_trunc(num, -(c as i64))
    } else if num > 0 {
        FAR_MAGNITUDE
    } else if num < 0 {
        -FAR_MAGNITUDE
    } else {
        0
    };
    proof {
        assert(-(20000000000i64 * 10000) <= mag * s <= 20000000000i64 * 10000)
            by (nonlinear_arith)
            requires -20000000000i64 <= mag <= 20000000000i64 && -10000 <= s <= 10000;
        crate::num::lemma_tdiv_bound(mag as int * s as int, 10000);
    }
    let off: i64 = div_trunc(mag * (s as i64), 10000);
    let nx: i64 = clamp_i64(
        (bx as i64) + off,
        (FIELD_MARGIN + MIN_X) as i64,
        (FIELD_WIDTH - FIELD_MARGIN - MIN_X) as i64,
    );
    TargetCommand { heading: 0, x: nx as i32, y: ny }
}

} // verus!
