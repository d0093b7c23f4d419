//! Clear: shove the ball away from the boundary — sideways first when the
//! robot is offset, then forward — and after a push, back off for a
//! mandatory cooldown dwell so the robot does not oscillate into the same
//! clear again.

use vstd::prelude::*;
use super::Data;
use crate::config::BALLCAP_DISTANCE;
use crate::data::TargetCommand;

verus! {

/// Depth of the forward shove, in millimeters.
pub const PUSH_DISTANCE: i32 = 200;

/// How long a push lasts before the cooldown begins, in milliseconds.
pub const PUSH_DURATION: u64 = 250;

/// Standoff behind the ball during the cooldown, in millimeters.
pub const WAIT_DISTANCE: i32 = 200;

/// Length of the cooldown dwell, in milliseconds.
pub const WAIT_DURATION: u64 = 2000;

/// The clear behavior's state.
#[derive(Clone, Copy, PartialEq, Eq, Structural, Debug)]
pub struct ClearState {
    pub pushed: bool,
    pub pushed_time: u64,
    pub waiting: bool,
    pub waiting_time: u64,
    pub moving_x: bool,
}

impl ClearState {
    /// A fresh state at time `now`: no push and no cooldown under way.
    pub fn new(now: u64) -> (s: ClearState)
        ensures
            s == (ClearState {
                pushed: false,
                pushed_time: now,
                waiting: false,
                waiting_time: now,
                moving_x: false,
            }),
    {
        ClearState { pushed: false, pushed_time: now, waiting: false, waiting_time: now, moving_x: false }
    }
}

/// All stamps of a state lie in the past of `now`.
pub open spec fn clear_wf(s: ClearState, now: u64) -> bool {
    s.pushed_time <= now && s.waiting_time <= now
}

/// The shove part of a tick: drive beside or behind the ball, and mark a
/// push once lined up.
pub open spec fn clear_shove(s: ClearState, bx: int, by: int, x: int, y: int, now: u64) -> (
    ClearState,
    int,
    int,
) {
    let adx = if x - bx >= 0 { x - bx } else { bx - x };
    let lined_up = !((!s.pushed && y - by < PUSH_DISTANCE - 20) || (!s.moving_x && adx
        > BALLCAP_DISTANCE) || (s.moving_x && adx > BALLCAP_DISTANCE / 2));
    let ny = if !lined_up {
        by - PUSH_DISTANCE - BALLCAP_DISTANCE
    } else {
        by - BALLCAP_DISTANCE - 30
    };
    let s2 = ClearState { moving_x: !lined_up, ..s };
    let s3 = if lined_up && !s2.pushed {
        ClearState { pushed: true, pushed_time: now, ..s2 }
    } else {
        s2
    };
    (s3, bx, ny)
}

/// One full clear tick: the cooldown dwell after a push, then the shove.
pub open spec fn clear_step(s: ClearState, bx: int, by: int, x: int, y: int, now: u64) -> (
    ClearState,
    int,
    int,
) {
    if s.pushed && now - s.pushed_time > PUSH_DURATION {
        let s1 = if !s.waiting {
            ClearState { waiting: true, waiting_time: now, ..s }
        } else {
            s
        };
        if now - s1.waiting_time < WAIT_DURATION {
            (s1, bx, by + WAIT_DISTANCE)
        } else {
            clear_shove(ClearState { pushed: false, waiting: false, ..s1 }, bx, by, x, y, now)
        }
    } else {
        clear_shove(s, bx, by, x, y, now)
    }
}

/// One clear tick.
pub fn run(data: &Data, state: &mut ClearState, now: u64) -> (r: TargetCommand)
    requires
        super::data_wf(*data),
        clear_wf(*old(state), now),
    ensures
        r.heading == 0,
        (*final(state), r.x as int, r.y as int) == clear_step(
            *old(state),
            data.ball.x as int,
            data.ball.y as int,
            data.coordinates.x as int,
            data.coordinates.y as int,
            now,
        ),
        clear_wf(*final(state), now),
        super::target_in_range(r),
{
    let bx = data.ball.x;
    let by = data.ball.y;
    let x = data.coordinates.x;
    let y = data.coordinates.y;

    if state.pushed && now - state.pushed_time > PUSH_DURATION {
        if !state.waiting {
            state.waiting = true;
            state.waiting_time = now;
        }
        if now - state.waiting_time < WAIT_DURATION {
            return TargetCommand { heading: 0, x: bx, y: by + WAIT_DISTANCE };
        } else {
            state.pushed = false;
            state.waiting = false;
        }
    }

    let adx = if x - bx >= 0 {
        x - bx
    } else {
        bx - x
    };
    let new_y = if (!state.pushed && y - by < PUSH_DISTANCE - 20) || (!state.moving_x && adx
        > BALLCAP_DISTANCE) || (state.moving_x && adx > BALLCAP_DISTANCE / 2) {
        state.moving_x = true;
        by - PUSH_DISTANCE - BALLCAP_DISTANCE
    } else {
        state.moving_x = false;
        by - BALLCAP_DISTANCE - 30
    };

    if !state.moving_x && !state.pushed {
        state.pushed = true;
        state.pushed_time = now;
    }

    TargetCommand { heading: 0, x: bx, y: new_y }
}

} // verus!
