//! Attack: drive toward the ball, and once it is captured, walk around it
//! along an arc toward the aiming target — the goal center, or the
//! last-known opposing goal when localization is out — with a push-around
//! distance seeded by the initial approach angle and grown as the arc is
//! consumed.

use vstd::prelude::*;
use super::Data;

use crate::config::{
    BALLCAP_DISTANCE,
    BALLCAP_WIDTH,
    CLEARANCE_X,
    CLEARANCE_Y,
    FIELD_MARGIN,
    FIELD_MARGIN_Y,
    FIELD_WIDTH,
};
use crate::data::{Coordinate, TargetCommand};
use crate::num::{tdiv, div_trunc, clamped, clamp_i64, min_i64};
use crate::trig::{
    sin_q_spec,
    cos_q_spec,
    sin_q_closed,
    cos_q_closed,
    atan2_deg_spec,
    vec_len_spec,
    construct_vector,
};


verus! {

/// Alignment tolerance over the ball, in millimeters.
pub const ALIGNED_THRESHOLD: i32 = 30;

/// How long a capture keeps the close-in phase alive, in milliseconds.
pub const CAPTURED_DURATION: u64 = 100;

/// Cooldown after backing off, in milliseconds.
pub const MOVING_BACK_DURATION: u64 = 200;

/// Largest seed of the push-around distance, in millimeters.
pub const INITIAL_CHANGE: i32 = 350;

/// Growth of the push-around distance over the full arc, in millimeters.
pub const GRADUAL_CHANGE: i32 = 2500;

/// Lower edge of the slow-approach window, in milliseconds.
pub const ALIGNING_DURATION: u64 = 1000;

/// Upper edge of the slow-approach window, in milliseconds.
pub const ALIGNING_THRESHOLD: u64 = 2000;

/// Stands in for an unbounded arc allowance when the approach runs
/// parallel to the field.
pub const FAR_CHANGE: i64 = 1000000;

/// The attack behavior's state.
#[derive(Clone, Copy, PartialEq, Eq, Structural, Debug)]
pub struct AttackState {
    pub captured: bool,
    pub last_captured: u64,
    pub moving_back: bool,
    pub last_moving_back: u64,
    pub aligned: bool,
    pub initial_change: i32,
    pub initial_magnitude: i32,
    pub last_aligning: u64,
}

impl AttackState {
    /// A fresh state at time `now`.
    pub fn new(now: u64) -> (s: AttackState)
        ensures
            s == (AttackState {
                captured: false,
                last_captured: now,
                moving_back: false,
                last_moving_back: 0,
                aligned: false,
                initial_change: 0,
                initial_magnitude: 0,
                last_aligning: 0,
            }),
    {
        AttackState {
            captured: false,
            last_captured: now,
            moving_back: false,
            last_moving_back: 0,
            aligned: false,
            initial_change: 0,
            initial_magnitude: 0,
            last_aligning: 0,
        }
    }
}

/// The state's stamps lie in the past of `now`, and the arc seed values are
/// in their working ranges.
pub open spec fn attack_wf(s: AttackState, now: u64) -> bool {
    &&& s.last_captured <= now
    &&& s.last_moving_back <= now
    &&& s.last_aligning <= now
    &&& 0 <= s.initial_change <= INITIAL_CHANGE
    &&& 0 <= s.initial_magnitude <= 6000000
}

/// The capture mark after a tick: refreshed by the capture sensor or by
/// sitting right behind the ball.
pub open spec fn capture_mark(
    s: AttackState,
    captured: bool,
    x: int,
    y: int,
    bx: int,
    by: int,
    now: u64,
) -> u64 {
    let adx = if x - bx >= 0 { x - bx } else { bx - x };
    if captured || (y > by && y < by + 110 && adx < BALLCAP_WIDTH / 2) {
        now
    } else {
        s.last_captured
    }
}

/// The arc allowance: how far around the ball this tick may walk, bounded
/// by the depth left to the front margin along the approach direction.
pub open spec fn arc_allowance(
    initial_change: int,
    initial_magnitude: int,
    magnitude: int,
    y: int,
    c: int,
) -> int {
    let num = (y - FIELD_MARGIN_Y) * 10000;
    let bound0 = if c > 0 {
        tdiv(num, c)
    } else if c < 0 {
        -tdiv(num, -c)
    } else if num > 0 {
        FAR_CHANGE as int
    } else {
        0
    };
    let bound = if bound0 > 0 { bound0 } else { 0 };
    if initial_magnitude == 0 {
        bound
    } else {
        let grown = initial_change + tdiv(
            (if initial_magnitude - magnitude > 0 { initial_magnitude - magnitude } else { 0 })
                * GRADUAL_CHANGE,
            initial_magnitude,
        );
        if grown <= bound { grown } else { bound }
    }
}

/// One attack tick: state after, and the emitted target.
pub open spec fn attack_step(
    s: AttackState,
    captured: bool,
    x: int,
    y: int,
    ok: bool,
    bx: int,
    by: int,
    goal: Coordinate,
    now: u64,
) -> (AttackState, int, int) {
    let s0 = AttackState { last_captured: capture_mark(s, captured, x, y, bx, by, now), ..s };
    let adx = if x - bx >= 0 { x - bx } else { bx - x };
    if now - s0.last_captured < CAPTURED_DURATION {
        if !s0.aligned {
            let s1 = if adx < ALIGNED_THRESHOLD { AttackState { aligned: true, ..s0 } } else { s0 };
            (s1, bx, y)
        } else {
            let gx = if ok { (FIELD_WIDTH / 2) as int } else { goal.x as int };
            let gy = if ok { FIELD_MARGIN as int } else { goal.y as int };
            let magnitude = vec_len_spec(gx - x, y - gy);
            let angle = atan2_deg_spec(gx - x, y - gy);
            let cv = cos_q_spec(angle);
            let sv = sin_q_spec(angle);
            let s1 = if s0.initial_change == 0 {
                AttackState {
                    initial_magnitude: magnitude as i32,
                    initial_change: tdiv((if cv > 0 { cv } else { 0 }) * INITIAL_CHANGE, 10000) as i32,
                    ..s0
                }
            } else {
                s0
            };
            let change = arc_allowance(
                s1.initial_change as int,
                s1.initial_magnitude as int,
                magnitude,
                y,
                cv,
            );
            let nx = clamped(x + tdiv(change * sv, 10000), -2000000, 2000000);
            let ny = clamped(y - tdiv(change * cv, 10000), -2000000, 2000000);
            (s1, nx, ny)
        }
    } else {
        let s1 = AttackState { aligned: false, initial_change: 0, initial_magnitude: 0, ..s0 };
        let s2 = if (y < by) { AttackState { moving_back: true, ..s1 } } else { s1 };
        if (s2.moving_back || now - s2.last_moving_back > MOVING_BACK_DURATION) && (y < by
            + BALLCAP_DISTANCE / 3 || (adx > BALLCAP_WIDTH / 2 + 50 && adx < CLEARANCE_X / 2
            && y < by + CLEARANCE_Y / 2)) {
            let nx = if ok && bx < FIELD_MARGIN + CLEARANCE_X + 100 {
                bx + (CLEARANCE_X / 2 + 50)
            } else if ok && bx > FIELD_WIDTH - FIELD_MARGIN - CLEARANCE_X - 100 {
                bx - (CLEARANCE_X / 2 + 50)
            } else if x > bx {
                bx + (CLEARANCE_X / 2 + 50)
            } else {
                bx - (CLEARANCE_X / 2 + 50)
            };
            let ny = if adx > CLEARANCE_X / 2 + 30 {
                by + CLEARANCE_Y / 2 + 100
            } else {
                y
            };
            (AttackState { moving_back: true, ..s2 }, nx, ny)
        } else {
            let s3 = if s2.moving_back {
                AttackState { moving_back: false, last_moving_back: now, ..s2 }
            } else {
                s2
            };
            let aligning = now - s3.last_aligning;
            let slow_window = (ALIGNING_DURATION < aligning && aligning < ALIGNING_THRESHOLD)
                || adx < BALLCAP_WIDTH / 2;
            if slow_window {
                let ny0 = by + BALLCAP_DISTANCE;
                let ny1 = y - 50;
                (s3, bx, if ny0 <= ny1 { ny0 } else { ny1 })
            } else {
                let s4 = if aligning > ALIGNING_THRESHOLD {
                    AttackState { last_aligning: now, ..s3 }
                } else {
                    s3
                };
                (s4, bx, by + BALLCAP_DISTANCE + 100)
            }
        }
    }
}

/// One attack tick.  `goal` is the last-known opposing goal, used as the
/// aiming point while localization is out.
#[verifier::rlimit(100)]
pub fn run(data: &Data, goal: Coordinate, state: &mut AttackState, now: u64) -> (r:
    TargetCommand)
    requires
        super::data_wf(*data),
        attack_wf(*old(state), now),
        -1100000 <= goal.x <= 1100000,
        -1100000 <= goal.y <= 1100000,
    ensures
        r.heading == 0,
        (*final(state), r.x as int, r.y as int) == attack_step(
            *old(state),
            data.captured,
            data.coordinates.x as int,
            data.coordinates.y as int,
            data.coordinates.valid,
            data.ball.x as int,
            data.ball.y as int,
            goal,
            now,
        ),
        attack_wf(*final(state), now),
        super::target_in_range(r),
{
    let bx = data.ball.x;
    let by = data.ball.y;
    let x = data.coordinates.x;
    let y = data.coordinates.y;
    let ok = data.coordinates.valid;

    let adx = if x - bx >= 0 {
        x - bx
    } else {
        bx - x
    };

    if data.captured || (y > by && y < by + 110 && adx < BALLCAP_WIDTH / 2) {
        state.last_captured = now;
    }

    if now - state.last_captured < CAPTURED_DURATION {
        if !state.aligned {
            if adx < ALIGNED_THRESHOLD {
                state.aligned = true;
            }
            return TargetCommand { heading: 0, x: bx, y };
        }

        let gx: i32 = if ok {
            FIELD_WIDTH / 2
        } else {
            goal.x
        };
        let gy: i32 = if ok {
            FIELD_MARGIN
        } else {
            goal.y
        };
        let (magnitude, angle) = construct_vector((gx as i64) - (x as i64), (y as i64) - (gy as i64));
        let cv = cos_q_closed(angle);
        let sv = sin_q_closed(angle);

        if state.initial_change == 0 {
            state.initial_magnitude = magnitude as i32;
            let seed: i64 = (if cv > 0 {
                cv
            } else {
                0
            } as i64) * (INITIAL_CHANGE as i64);
            state.initial_change = div_trunc(seed, 10000) as i32;
        }

        let num: i64 = ((y as i64) - (FIELD_MARGIN_Y as i64)) * 10000;
        let bound0: i64 = if cv > 0 {
            div_trunc(num, cv as i64)
        } else if cv < 0 {
            -div_trunc(num, -(cv as i64))
        } else if num > 0 {
            FAR_CHANGE
        } else {
            0
        };
        let bound: i64 = if bound0 > 0 {
            bound0
        } else {
            0
        };
        let change: i64 = if state.initial_magnitude == 0 {
            bound
        } else {
            let lead: i64 = if (state.initial_magnitude as i64) - magnitude > 0 {
                (state.initial_magnitude as i64) - magnitude
            } else {
                0
            };
            proof {
                assert(0 <= lead * GRADUAL_CHANGE <= 6000000 * 2500) by (nonlinear_arith)
                    requires 0 <= lead <= 6000000 && GRADUAL_CHANGE == 2500;
            }
            let grown: i64 = (state.initial_change as i64) + div_trunc(
                lead * (GRADUAL_CHANGE as i64),
                state.initial_magnitude as i64,
            );
            min_i64(grown, bound)
        };
        proof {
            assert(-(16000000000i64 * 10000) <= change * sv <= 16000000000i64 * 10000)
                by (nonlinear_arith)
                requires -16000000000i64 <= change <= 16000000000i64 && -10000 <= sv <= 10000;
            assert(-(16000000000i64 * 10000) <= change * cv <= 16000000000i64 * 10000)
                by (nonlinear_arith)
                requires -16000000000i64 <= change <= 16000000000i64 && -10000 <= cv <= 10000;
            crate::num::lemma_tdiv_bound(change as int * sv as int, 10000);
            crate::num::lemma_tdiv_bound(change as int * cv as int, 10000);
        }
        let nx: i64 = clamp_i64((x as i64) + div_trunc(change * (sv as i64), 10000), -2000000, 2000000);
        let ny: i64 = clamp_i64((y as i64) - div_trunc(change * (cv as i64), 10000), -2000000, 2000000);
        return TargetCommand { heading: 0, x: nx as i32, y: ny as i32 };
    }

    state.aligned = false;
    state.initial_change = 0;
    state.initial_magnitude = 0;

    if (y < by) {
        state.moving_back = true;
    }

    if (state.moving_back || now - state.last_moving_back > MOVING_BACK_DURATION) && (y < by
        + BALLCAP_DISTANCE / 3 || (adx > BALLCAP_WIDTH / 2 + 50 && adx < CLEARANCE_X / 2 && y < by
        + CLEARANCE_Y / 2)) {
        let nx = if ok && bx < FIELD_MARGIN + CLEARANCE_X + 100 {
            bx + (CLEARANCE_X / 2 + 50)
        } else if ok && bx > FIELD_WIDTH - FIELD_MARGIN - CLEARANCE_X - 100 {
            bx - (CLEARANCE_X / 2 + 50)
        } else if x > bx {
            bx + (CLEARANCE_X / 2 + 50)
        } else {
            bx - (CLEARANCE_X / 2 + 50)
        };
        let ny = if adx > CLEARANCE_X / 2 + 30 {
            by + CLEARANCE_Y / 2 + 100
        } else {
            y
        };
        state.moving_back = true;
        return TargetCommand { heading: 0, x: nx, y: ny };
    }

    if state.moving_back {
        state.moving_back = false;
        state.last_moving_back = now;
    }

    let aligning = now - state.last_aligning;
    let nx = bx;
    let ny = if (ALIGNING_DURATION < aligning && aligning < ALIGNING_THRESHOLD) || adx
        < BALLCAP_WIDTH / 2 {
        let ny0 = by + BALLCAP_DISTANCE;
        let ny1 = y - 50;
        if ny0 <= ny1 {
            ny0
        } else {
            ny1
        }
    } else {
        if aligning > ALIGNING_THRESHOLD {
            state.last_aligning = now;
        }
        by + BALLCAP_DISTANCE + 100
    };
    TargetCommand { heading: 0, x: nx, y: ny }
}

} // verus!
