//! Boundary recovery: nudge the robot inward from whichever boundary lines
//! are or were triggered.  The latched "was triggered" flags persist until a
//! new strategy activation replaces this state.

use vstd::prelude::*;
use super::Data;
use crate::data::TargetCommand;

verus! {

/// How far inward one tick nudges, in millimeters.
pub const MOVE_DISTANCE: i32 = 100;

/// The latched line flags.
#[derive(Clone, Copy, PartialEq, Eq, Structural, Debug, Default)]
pub struct BoundsState {
    pub was_left: bool,
    pub was_right: bool,
    pub was_front: bool,
    pub was_back: bool,
}

/// The right-side latch after the sideways branch ran.
pub open spec fn right_latch(s: BoundsState, left: bool, right: bool) -> bool {
    s.was_right || (right && !(left || s.was_left))
}

/// The emitted x: away from a left line first, then a right line.
pub open spec fn bounds_x(x: int, left: bool, right: bool, s: BoundsState) -> int {
    if left || s.was_left {
        x + MOVE_DISTANCE
    } else if right || s.was_right {
        x - MOVE_DISTANCE
    } else {
        x
    }
}

/// The emitted y: away from a front line first, then a back line.  Note
/// that the latch consulted in the back branch is the right-side one, as
/// updated by the sideways branch of the same tick; the running robot
/// behaves this way, so it is kept.
pub open spec fn bounds_y(y: int, front: bool, back: bool, s: BoundsState, left: bool, right: bool) -> int {
    if front || s.was_front {
        y + MOVE_DISTANCE
    } else if back || right_latch(s, left, right) {
        y - MOVE_DISTANCE
    } else {
        y
    }
}

/// One boundary-recovery tick.
pub fn run(data: &Data, state: &mut BoundsState) -> (r: TargetCommand)
    requires
        super::data_wf(*data),
    ensures
        r.heading == 0,
        r.x as int == bounds_x(
            data.coordinates.x as int,
            data.lines.left,
            data.lines.right,
            *old(state),
        ),
        r.y as int == bounds_y(
            data.coordinates.y as int,
            data.lines.front,
            data.lines.back,
            *old(state),
            data.lines.left,
            data.lines.right,
        ),
        final(state).was_left == (old(state).was_left || data.lines.left),
        final(state).was_right == right_latch(*old(state), data.lines.left, data.lines.right),
        final(state).was_front == (old(state).was_front || data.lines.front),
        final(state).was_back == (old(state).was_back || (!(data.lines.front || old(
            state,
        ).was_front) && (data.lines.back || right_latch(
            *old(state),
            data.lines.left,
            data.lines.right,
        )))),
        super::target_in_range(r),
{
    let x = data.coordinates.x;
    let y = data.coordinates.y;
    let new_x = if data.lines.left || state.was_left {
        state.was_left = true;
        x + MOVE_DISTANCE
    } else if data.lines.right || state.was_right {
        state.was_right = true;
        x - MOVE_DISTANCE
    } else {
        x
    };
    let new_y = if data.lines.front || state.was_front {
        state.was_front = true;
        y + MOVE_DISTANCE
    } else if data.lines.back || state.was_right {
        state.was_back = true;
        y - MOVE_DISTANCE
    } else {
        y
    };
    TargetCommand { heading: 0, x: new_x, y: new_y }
}

} // verus!
