//! Ball-lost search: park at a role-dependent standoff point in front of
//! the defended goal; once near it, take small lateral search steps.

use vstd::prelude::*;
use super::Data;
use crate::config::{FIELD_LENGTH, FIELD_MARGIN_Y, FIELD_WIDTH};
use crate::data::TargetCommand;

verus! {

/// A field player's standoff from the margin, in millimeters.
pub const NO_BALL_DISTANCE: i32 = 350;

/// The goalkeeper's standoff from the margin, in millimeters.
pub const GOALIE_NO_BALL_DISTANCE: i32 = 50;

/// Half-width of the dead band around the parking point, in millimeters.
pub const CHECK_DISTANCE: i32 = 50;

/// Distance along y beyond which the robot first drives home, in
/// millimeters.
pub const DISTANCE_THRESHOLD_Y: i32 = 100;

/// Distance along x beyond which the robot first drives home, in
/// millimeters.
pub const DISTANCE_THRESHOLD_X: i32 = 100;

/// Which way the lateral search is currently stepping.
#[derive(Clone, Copy, PartialEq, Eq, Structural, Debug, Default)]
pub struct NoBallState {
    pub check_left: bool,
}

/// The parking point for the role.
pub open spec fn park_point(goalie: bool) -> (int, int) {
    let d = if !goalie {
        NO_BALL_DISTANCE
    } else {
        GOALIE_NO_BALL_DISTANCE
    };
    ((FIELD_WIDTH / 2) as int, FIELD_LENGTH - FIELD_MARGIN_Y - d)
}

/// Whether the robot is still far from the parking point.
pub open spec fn far_from_park(x: int, y: int, goalie: bool) -> bool {
    let (px, py) = park_point(goalie);
    let dy = if py - y >= 0 { py - y } else { y - py };
    let dx = if px - x >= 0 { px - x } else { x - px };
    dy > DISTANCE_THRESHOLD_Y || dx > DISTANCE_THRESHOLD_X
}

/// The search direction after a tick: latched once the robot leaves the
/// dead band around the parking point.
pub open spec fn check_left_after(s: NoBallState, x: int, goalie: bool) -> bool {
    let (px, _) = park_point(goalie);
    if x < px - CHECK_DISTANCE {
        false
    } else if x > px + CHECK_DISTANCE {
        true
    } else {
        s.check_left
    }
}

/// One search tick.
///
/// With an invalid robot position, creep forward from the held position.
pub fn run(data: &Data, state: &mut NoBallState) -> (r: TargetCommand)
    requires
        super::data_wf(*data),
    ensures
        r.heading == 0,
        !data.coordinates.valid ==> (r.x == data.coordinates.x && r.y as int
            == data.coordinates.y + 50 && *final(state) == *old(state)),
        data.coordinates.valid ==> {
            let x = data.coordinates.x as int;
            let y = data.coordinates.y as int;
            let (px, py) = park_point(data.goalie);
            &&& far_from_park(x, y, data.goalie) ==> (r.x == px && r.y == py && *final(state)
                == *old(state))
            &&& !far_from_park(x, y, data.goalie) ==> {
                &&& final(state).check_left == check_left_after(*old(state), x, data.goalie)
                &&& r.y == py
                &&& r.x as int == if check_left_after(*old(state), x, data.goalie) {
                    x - 50
                } else {
                    x + 50
                }
            }
        },
        super::target_in_range(r),
{
    let x = data.coordinates.x;
    let y = data.coordinates.y;
    if !data.coordinates.valid {
        return TargetCommand { heading: 0, x, y: y + 50 };
    }
    let no_ball_distance = if !data.goalie {
        NO_BALL_DISTANCE
    } else {
        GOALIE_NO_BALL_DISTANCE
    };
    let px = FIELD_WIDTH / 2;
    let py = FIELD_LENGTH - FIELD_MARGIN_Y - no_ball_distance;
    let dy = if py - y >= 0 {
        py - y
    } else {
        y - py
    };
    let dx = if px - x >= 0 {
        px - x
    } else {
        x - px
    };
    if dy > DISTANCE_THRESHOLD_Y || dx > DISTANCE_THRESHOLD_X {
        return TargetCommand { heading: 0, x: px, y: py };
    }
    if x < px - CHECK_DISTANCE {
        state.check_left = false;
    } else if x > px + CHECK_DISTANCE {
        state.check_left = true;
    }
    let new_x = if state.check_left {
        x - 50
    } else {
        x + 50
    };
    TargetCommand { heading: 0, x: new_x, y: py }
}

} // verus!
