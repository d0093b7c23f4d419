//! Defence: hold position just behind the ball on the defended side, with a
//! short grace window after the ball crossed the robot's depth, to avoid
//! flicker.

use vstd::prelude::*;
use super::Data;
use crate::data::TargetCommand;

verus! {

/// Length of the grace window, in milliseconds.
pub const LAST_PUSH_THRESHOLD: u64 = 100;

/// Standoff behind the ball, in millimeters.
pub const CLEARANCE_Y_TO_BALL: i32 = 150;

/// When the robot last was in front of the ball.
#[derive(Clone, Copy, PartialEq, Eq, Structural, Debug)]
pub struct DefenceState {
    pub last_push: u64,
}

impl Default for DefenceState {
    /// A fresh state whose push mark lies in the distant past.
    fn default() -> (s: DefenceState)
        ensures
            s.last_push == 0,
    {
        DefenceState { last_push: 0 }
    }
}

/// The push mark after a tick at `now`.
pub open spec fn push_mark(s: DefenceState, y: int, by: int, now: u64) -> u64 {
    if (y > by) {
        now
    } else {
        s.last_push
    }
}

/// The emitted target: nudge the ball forward within the grace window,
/// otherwise stand off behind it.
pub open spec fn defence_target(s: DefenceState, bx: int, by: int, y: int, now: u64) -> (
    int,
    int,
) {
    if now - push_mark(s, y, by, now) < LAST_PUSH_THRESHOLD {
        (bx, by + 15)
    } else {
        (bx, by - CLEARANCE_Y_TO_BALL - 20)
    }
}

/// One defence tick.
pub fn run(data: &Data, state: &mut DefenceState, now: u64) -> (r: TargetCommand)
    requires
        super::data_wf(*data),
        old(state).last_push <= now,
    ensures
        r.heading == 0,
        final(state).last_push == push_mark(
            *old(state),
            data.coordinates.y as int,
            data.ball.y as int,
            now,
        ),
        final(state).last_push <= now,
        (r.x as int, r.y as int) == defence_target(
            *old(state),
            data.ball.x as int,
            data.ball.y as int,
            data.coordinates.y as int,
            now,
        ),
        super::target_in_range(r),
{
    let bx = data.ball.x;
    let by = data.ball.y;
    let y = data.coordinates.y;
    if (y > by) {
        state.last_push = now;
    }
    if now - state.last_push < LAST_PUSH_THRESHOLD {
        TargetCommand { heading: 0, x: bx, y: by + 15 }
    } else {
        TargetCommand { heading: 0, x: bx, y: by - CLEARANCE_Y_TO_BALL - 20 }
    }
}

} // verus!
