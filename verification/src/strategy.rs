//! Behavior arbitration: a finite state machine over seven behaviors,
//! re-evaluated on every sensor event, with hysteresis so the robot does not
//! chatter between behaviors.

pub mod attack;
pub mod bounds;
pub mod clear;
pub mod defence;
pub mod get_out;
pub mod goalie;
pub mod no_ball;

use vstd::prelude::*;
use crate::config::{
    BALLCAP_DISTANCE,
    BALLCAP_WIDTH,
    CLEARANCE_Y,
    FIELD_LENGTH,
    FIELD_MARGIN,
    FIELD_MARGIN_X,
    FIELD_MARGIN_Y,
    FIELD_WIDTH,
};
use crate::data::{Coordinate, LineData, TargetCommand};
use crate::num::clamped;
use crate::trig::vec_len_spec;

verus! {

/// Minimum dwell in any behavior but the boundary recovery, in
/// milliseconds.
pub const STRATEGY_DURATION: u64 = 15;

/// Minimum dwell in the boundary recovery behavior, in milliseconds.
pub const BOUNDS_DURATION: u64 = 100;

/// A field player searches after the ball went unseen this long, in
/// milliseconds.
pub const NO_BALL_DURATION: u64 = 500;

/// The goalkeeper returns home sooner than a field player.
pub const GOALIE_NO_BALL_DURATION: u64 = 200;

/// How long a goalkeeper may keep attacking after a push, in milliseconds.
pub const GOALIE_ATTACK_DURATION: u64 = 6000;

/// How far in front of the goal a field player defends, in millimeters.
pub const STRIKER_DISTANCE: i32 = 300;

/// How close the ball must be, in millimeters, before the close-range
/// behaviors engage.
pub const NEAR_BALL_DISTANCE: i64 = 500;

/// The seven behaviors, plus the initial none-yet state.
#[derive(Clone, Copy, PartialEq, Eq, Structural, Debug)]
pub enum Strategy {
    Idle,
    Attack,
    Bounds,
    Clear,
    Defence,
    Goalie,
    GetOut,
    NoBall,
}

/// The read-only snapshot a behavior sees each tick.
#[derive(Clone, Copy, PartialEq, Eq, Structural, Debug)]
pub struct Data {
    /// Latest estimated ball position.
    pub ball: Coordinate,
    /// Latest estimated robot position.
    pub coordinates: Coordinate,
    /// Whether the capture sensor holds the ball.
    pub captured: bool,
    /// Boundary-line flags.
    pub lines: LineData,
    /// Goalkeeper role flag.
    pub goalie: bool,
    /// Whether this tick was triggered by a fresh camera frame rather than
    /// a coordinate recompute.
    pub is_camera: bool,
}

/// Positions a behavior accepts without overflow.
pub open spec fn data_wf(d: Data) -> bool {
    &&& -1100000 <= d.ball.x <= 1100000
    &&& -1100000 <= d.ball.y <= 1100000
    &&& -1100000 <= d.coordinates.x <= 1100000
    &&& -1100000 <= d.coordinates.y <= 1100000
}

/// Every behavior target stays within this range of millimeters.
pub open spec fn target_in_range(t: TargetCommand) -> bool {
    &&& -2000000 <= t.x <= 2000000
    &&& -2000000 <= t.y <= 2000000
    &&& t.heading == 0
}

/// The active behavior's private state: rebuilt from its defaults on every
/// strategy transition, never carried across one.
#[derive(Clone, Copy, PartialEq, Eq, Structural, Debug)]
pub enum BehaviorState {
    Idle,
    Attack(attack::AttackState),
    Bounds(bounds::BoundsState),
    Clear(clear::ClearState),
    Defence(defence::DefenceState),
    Goalie(goalie::GoalieState),
    GetOut(get_out::GetOutState),
    NoBall(no_ball::NoBallState),
}

/// The strategy arbiter: the active behavior with its state, and the
/// timers that drive hysteresis, the search timeout and the goalkeeper's
/// attack grace period.
#[derive(Clone, Copy, PartialEq, Eq, Structural, Debug)]
pub struct Arbiter {
    pub last_strategy: Strategy,
    pub last_changed: u64,
    pub last_ball_found: u64,
    pub last_goalie_attacked: u64,
    pub behavior: BehaviorState,
}

/// The behavior state variant matches the active strategy and is
/// well-formed at time `now`.
pub open spec fn behavior_wf(s: Arbiter, now: u64) -> bool {
    match s.behavior {
        BehaviorState::Idle => s.last_strategy == Strategy::Idle,
        BehaviorState::Attack(a) => s.last_strategy == Strategy::Attack && attack::attack_wf(
            a,
            now,
        ),
        BehaviorState::Bounds(_) => s.last_strategy == Strategy::Bounds,
        BehaviorState::Clear(c) => s.last_strategy == Strategy::Clear && clear::clear_wf(c, now),
        BehaviorState::Defence(d) => s.last_strategy == Strategy::Defence && d.last_push <= now,
        BehaviorState::Goalie(g) => s.last_strategy == Strategy::Goalie && goalie::goalie_wf(
            g,
            now,
        ),
        BehaviorState::GetOut(_) => s.last_strategy == Strategy::GetOut,
        BehaviorState::NoBall(_) => s.last_strategy == Strategy::NoBall,
    }
}

/// The arbiter's invariant at time `now`.
pub open spec fn arbiter_wf(s: Arbiter, now: u64) -> bool {
    &&& s.last_changed <= now
    &&& s.last_ball_found <= now
    &&& s.last_goalie_attacked <= now
    &&& behavior_wf(s, now)
}

/// When the ball was last seen, after this event.
pub open spec fn seen_mark(s: Arbiter, bok: bool, now: u64) -> u64 {
    if bok {
        now
    } else {
        s.last_ball_found
    }
}

/// The ball position the decision cascade uses: clamped onto the field
/// while the robot's own position is trusted.
pub open spec fn decision_ball(ball: Coordinate, ok: bool) -> (int, int) {
    if ok {
        (clamped(ball.x as int, 0, FIELD_WIDTH as int), clamped(ball.y as int, 0, FIELD_LENGTH as int))
    } else {
        (ball.x as int, ball.y as int)
    }
}

/// The decision cascade over validity, ball distance, timeouts and
/// geometry; first match wins.
pub open spec fn base_strategy(
    ok: bool,
    x: int,
    y: int,
    bx: int,
    by: int,
    dist: int,
    elapsed: u64,
    goalie: bool,
) -> Strategy {
    let no_ball_dur = if !goalie {
        NO_BALL_DURATION
    } else {
        GOALIE_NO_BALL_DURATION
    };
    let striker = if !goalie {
        STRIKER_DISTANCE as int
    } else {
        0
    };
    let adx = if x - bx >= 0 { x - bx } else { bx - x };
    if ok && dist < NEAR_BALL_DISTANCE && elapsed < no_ball_dur && !(FIELD_MARGIN_X <= bx && bx
        <= FIELD_WIDTH - FIELD_MARGIN_X) && by < FIELD_MARGIN + 100 && by < y {
        Strategy::Clear
    } else if ok && !(FIELD_MARGIN_Y - 50 <= y && y <= FIELD_LENGTH - FIELD_MARGIN_Y + 50) {
        Strategy::GetOut
    } else if elapsed > no_ball_dur {
        Strategy::NoBall
    } else if dist > NEAR_BALL_DISTANCE {
        Strategy::Attack
    } else if ok && ((by > y) || (by + BALLCAP_DISTANCE > y && adx > BALLCAP_WIDTH / 2)) && by
        > FIELD_LENGTH - FIELD_MARGIN_Y - CLEARANCE_Y - striker {
        Strategy::Defence
    } else {
        Strategy::Attack
    }
}

/// Whether the active goalkeeper behavior is in its pushing sub-state.
pub open spec fn goalie_pushing(s: Arbiter) -> bool {
    match s.behavior {
        BehaviorState::Goalie(g) => g.pushing,
        _ => false,
    }
}

/// The goalkeeper's attack grace mark after this event: refreshed when the
/// goalkeeper's own push would be overridden.
pub open spec fn grace_mark(s: Arbiter, base: Strategy, goalie: bool, now: u64) -> u64 {
    if goalie && (base == Strategy::Clear || base == Strategy::Attack) && s.last_strategy
        == Strategy::Goalie && goalie_pushing(s) {
        now
    } else {
        s.last_goalie_attacked
    }
}

/// The goalkeeper role override: a goalkeeper plays goal instead of
/// clearing or attacking, unless a recent push grants an attack grace
/// period.
pub open spec fn role_choice(base: Strategy, goalie: bool, grace: u64, now: u64) -> Strategy {
    if goalie && (base == Strategy::Clear || base == Strategy::Attack) {
        if now - grace < GOALIE_ATTACK_DURATION && base == Strategy::Attack {
            Strategy::Attack
        } else {
            Strategy::Goalie
        }
    } else {
        base
    }
}

/// Whether any boundary line is currently triggered.
pub open spec fn any_line(l: LineData) -> bool {
    l.front || l.left || l.right || l.back
}

/// Whether the minimum dwell in the current strategy blocks a switch to
/// `cand` at time `now`.
pub open spec fn dwell_blocks(last: Strategy, last_changed: u64, cand: Strategy, now: u64) -> bool {
    cand != last && ((last == Strategy::Bounds && now - last_changed < BOUNDS_DURATION) || (last
        != Strategy::Bounds && now - last_changed < STRATEGY_DURATION))
}

/// The candidate strategy before the boundary override and the dwell.
pub open spec fn candidate_strategy(s: Arbiter, data: Data, now: u64) -> Strategy {
    let ok = data.coordinates.valid;
    let (bx, by) = decision_ball(data.ball, ok);
    let x = data.coordinates.x as int;
    let y = data.coordinates.y as int;
    let dist = vec_len_spec(x - bx, y - by);
    let elapsed = (now - seen_mark(s, data.ball.valid, now)) as u64;
    let base = base_strategy(ok, x, y, bx, by, dist, elapsed, data.goalie);
    role_choice(base, data.goalie, grace_mark(s, base, data.goalie, now), now)
}

/// The strategy this event settles on: a triggered line forces the
/// boundary behavior at once, then the dwell keeps the current behavior,
/// then the candidate wins.
pub open spec fn chosen_strategy(s: Arbiter, data: Data, now: u64) -> Strategy {
    if any_line(data.lines) {
        Strategy::Bounds
    } else if dwell_blocks(s.last_strategy, s.last_changed, candidate_strategy(s, data, now), now) {
        s.last_strategy
    } else {
        candidate_strategy(s, data, now)
    }
}

/// The transition stamp after this event: refreshed by a line trigger and
/// by any decision the dwell did not override.
pub open spec fn changed_mark(s: Arbiter, data: Data, now: u64) -> u64 {
    if any_line(data.lines) {
        now
    } else if dwell_blocks(s.last_strategy, s.last_changed, candidate_strategy(s, data, now), now) {
        s.last_changed
    } else {
        now
    }
}

/// The behavior state the chosen strategy starts this tick with: the
/// stored one when the strategy is unchanged, fresh defaults otherwise.
pub open spec fn fresh_behavior(c: Strategy, now: u64) -> BehaviorState {
    match c {
        Strategy::Idle => BehaviorState::Idle,
        Strategy::Attack => BehaviorState::Attack(
            attack::AttackState {
                captured: false,
                last_captured: now,
                moving_back: false,
                last_moving_back: 0,
                aligned: false,
                initial_change: 0,
                initial_magnitude: 0,
                last_aligning: 0,
            },
        ),
        Strategy::Bounds => BehaviorState::Bounds(
            bounds::BoundsState {
                was_left: false,
                was_right: false,
                was_front: false,
                was_back: false,
            },
        ),
        Strategy::Clear => BehaviorState::Clear(
            clear::ClearState {
                pushed: false,
                pushed_time: now,
                waiting: false,
                waiting_time: now,
                moving_x: false,
            },
        ),
        Strategy::Defence => BehaviorState::Defence(defence::DefenceState { last_push: 0 }),
        Strategy::Goalie => BehaviorState::Goalie(
            goalie::GoalieState {
                last_bx: -9990i32,
                last_by: -9990i32,
                last_changed: now,
                pushing: false,
            },
        ),
        Strategy::GetOut => BehaviorState::GetOut(get_out::GetOutState {  }),
        Strategy::NoBall => BehaviorState::NoBall(no_ball::NoBallState { check_left: false }),
    }
}

/// The behavior state entering this tick's update.
pub open spec fn entry_behavior(s: Arbiter, c: Strategy, now: u64) -> BehaviorState {
    if c == s.last_strategy {
        s.behavior
    } else {
        fresh_behavior(c, now)
    }
}

impl Arbiter {
    /// A fresh arbiter at time `now`: no behavior active yet.
    pub fn new(now: u64) -> (s: Arbiter)
        ensures
            s.last_strategy == Strategy::Idle,
            s.last_changed == now,
            s.last_ball_found == now,
            s.last_goalie_attacked == 0,
            s.behavior == BehaviorState::Idle,
            arbiter_wf(s, now),
    {
        Arbiter {
            last_strategy: Strategy::Idle,
            last_changed: now,
            last_ball_found: now,
            last_goalie_attacked: 0,
            behavior: BehaviorState::Idle,
        }
    }

    /// The arbitration half of one cycle: update the timers and settle on
    /// this event's strategy, leaving the behavior state untouched.
    #[verifier::rlimit(100)]
    fn arbitrate(&mut self, data: &Data, now: u64) -> (c: Strategy)
        requires
            arbiter_wf(*old(self), now),
            data_wf(*data),
        ensures
            c == chosen_strategy(*old(self), *data, now),
            final(self).last_strategy == old(self).last_strategy,
            final(self).behavior == old(self).behavior,
            final(self).last_changed == changed_mark(*old(self), *data, now),
            final(self).last_changed <= now,
            final(self).last_ball_found == seen_mark(*old(self), data.ball.valid, now),
            final(self).last_ball_found <= now,
            final(self).last_goalie_attacked <= now,
            final(self).last_goalie_attacked == ({
                let ok = data.coordinates.valid;
                let (bx, by) = decision_ball(data.ball, ok);
                let x = data.coordinates.x as int;
                let y = data.coordinates.y as int;
                let dist = vec_len_spec(x - bx, y - by);
                let elapsed = (now - seen_mark(*old(self), data.ball.valid, now)) as u64;
                grace_mark(
                    *old(self),
                    base_strategy(ok, x, y, bx, by, dist, elapsed, data.goalie),
                    data.goalie,
                    now,
                )
            }),
    {
        let ok = data.coordinates.valid;
        let (bx, by): (i32, i32) = if ok {
            let cbx = if data.ball.x < 0 {
                0
            } else if data.ball.x > FIELD_WIDTH {
                FIELD_WIDTH
            } else {
                data.ball.x
            };
            let cby = if data.ball.y < 0 {
                0
            } else if data.ball.y > FIELD_LENGTH {
                FIELD_LENGTH
            } else {
                data.ball.y
            };
            (cbx, cby)
        } else {
            (data.ball.x, data.ball.y)
        };
        let x = data.coordinates.x;
        let y = data.coordinates.y;

        if data.ball.valid {
            self.last_ball_found = now;
        }

        let (dist64, _) = crate::trig::construct_vector((x as i64) - (bx as i64), (y as i64) - (
        by as i64));

        let no_ball_dur: u64 = if !data.goalie {
            NO_BALL_DURATION
        } else {
            GOALIE_NO_BALL_DURATION
        };
        let striker: i32 = if !data.goalie {
            STRIKER_DISTANCE
        } else {
            0
        };
        let elapsed: u64 = now - self.last_ball_found;
        let adx = if x - bx >= 0 {
            x - bx
        } else {
            bx - x
        };

        let mut strategy: Strategy;
        if ok && dist64 < NEAR_BALL_DISTANCE && elapsed < no_ball_dur && !(FIELD_MARGIN_X <= bx
            && bx <= FIELD_WIDTH - FIELD_MARGIN_X) && by < FIELD_MARGIN + 100 && by < y {
            strategy = Strategy::Clear;
        } else if ok && !(FIELD_MARGIN_Y - 50 <= y && y <= FIELD_LENGTH - FIELD_MARGIN_Y + 50) {
            strategy = Strategy::GetOut;
        } else if elapsed > no_ball_dur {
            strategy = Strategy::NoBall;
        } else if dist64 > NEAR_BALL_DISTANCE {
            strategy = Strategy::Attack;
        } else if ok && ((by > y) || (by + BALLCAP_DISTANCE > y && adx > BALLCAP_WIDTH / 2)) && by
            > FIELD_LENGTH - FIELD_MARGIN_Y - CLEARANCE_Y - striker {
            strategy = Strategy::Defence;
        } else {
            strategy = Strategy::Attack;
        }

        if data.goalie && (matches!(strategy, Strategy::Clear) || matches!(
            strategy,
            Strategy::Attack,
        )) {
            let pushing = match self.behavior {
                BehaviorState::Goalie(g) => g.pushing,
                _ => false,
            };
            if matches!(self.last_strategy, Strategy::Goalie) && pushing {
                self.last_goalie_attacked = now;
            }
            if now - self.last_goalie_attacked < GOALIE_ATTACK_DURATION && matches!(
                strategy,
                Strategy::Attack,
            ) {
                strategy = Strategy::Attack;
            } else {
                strategy = Strategy::Goalie;
            }
        }

        if data.lines.front || data.lines.left || data.lines.right || data.lines.back {
            strategy = Strategy::Bounds;
            self.last_changed = now;
        } else if !equal_strategy(strategy, self.last_strategy) && ((matches!(
            self.last_strategy,
            Strategy::Bounds,
        ) && now - self.last_changed < BOUNDS_DURATION) || (!matches!(
            self.last_strategy,
            Strategy::Bounds,
        ) && now - self.last_changed < STRATEGY_DURATION)) {
            strategy = self.last_strategy;
        } else {
            self.last_changed = now;
        }

        strategy
    }

    /// One arbitration cycle: pick the behavior for this event, reset its
    /// state if it just became active, and run its update.  `goal` is the
    /// last-known opposing goal position for the attack behavior's aim.
    ///
    /// Returns the emitted target, or nothing while no behavior has ever
    /// been chosen.
    #[verifier::rlimit(100)]
    pub fn step(&mut self, data: &Data, goal: Coordinate, now: u64) -> (r: Option<TargetCommand>)
        requires
            arbiter_wf(*old(self), now),
            data_wf(*data),
            -1100000 <= goal.x <= 1100000,
            -1100000 <= goal.y <= 1100000,
        ensures
            arbiter_wf(*final(self), now),
            final(self).last_strategy == chosen_strategy(*old(self), *data, now),
            final(self).last_changed == changed_mark(*old(self), *data, now),
            final(self).last_ball_found == seen_mark(*old(self), data.ball.valid, now),
            final(self).last_goalie_attacked == ({
                let ok = data.coordinates.valid;
                let (bx, by) = decision_ball(data.ball, ok);
                let x = data.coordinates.x as int;
                let y = data.coordinates.y as int;
                let dist = vec_len_spec(x - bx, y - by);
                let elapsed = (now - seen_mark(*old(self), data.ball.valid, now)) as u64;
                grace_mark(
                    *old(self),
                    base_strategy(ok, x, y, bx, by, dist, elapsed, data.goalie),
                    data.goalie,
                    now,
                )
            }),
            r is Some <==> chosen_strategy(*old(self), *data, now) != Strategy::Idle,
            r is Some ==> target_in_range(r->Some_0),
            ({
                let c = chosen_strategy(*old(self), *data, now);
                let e = entry_behavior(*old(self), c, now);
                &&& c == Strategy::Idle ==> final(self).behavior == old(self).behavior
                &&& c == Strategy::Attack ==> (e matches BehaviorState::Attack(ea) && {
                    let (st, nx, ny) = attack::attack_step(
                        ea,
                        data.captured,
                        data.coordinates.x as int,
                        data.coordinates.y as int,
                        data.coordinates.valid,
                        data.ball.x as int,
                        data.ball.y as int,
                        goal,
                        now,
                    );
                    final(self).behavior == BehaviorState::Attack(st)
                        && r->Some_0.x as int == nx && r->Some_0.y as int == ny
                })
                &&& c == Strategy::Bounds ==> (e matches BehaviorState::Bounds(eb) && {
                    &&& r->Some_0.x as int == bounds::bounds_x(
                        data.coordinates.x as int,
                        data.lines.left,
                        data.lines.right,
                        eb,
                    )
                    &&& r->Some_0.y as int == bounds::bounds_y(
                        data.coordinates.y as int,
                        data.lines.front,
                        data.lines.back,
                        eb,
                        data.lines.left,
                        data.lines.right,
                    )
                    &&& final(self).behavior == BehaviorState::Bounds(
                        bounds::BoundsState {
                            was_left: eb.was_left || data.lines.left,
                            was_right: bounds::right_latch(eb, data.lines.left, data.lines.right),
                            was_front: eb.was_front || data.lines.front,
                            was_back: eb.was_back || (!(data.lines.front || eb.was_front) && (
                            data.lines.back || bounds::right_latch(
                                eb,
                                data.lines.left,
                                data.lines.right,
                            ))),
                        },
                    )
                })
                &&& c == Strategy::Clear ==> (e matches BehaviorState::Clear(ec) && {
                    let (st, nx, ny) = clear::clear_step(
                        ec,
                        data.ball.x as int,
                        data.ball.y as int,
                        data.coordinates.x as int,
                        data.coordinates.y as int,
                        now,
                    );
                    final(self).behavior == BehaviorState::Clear(st)
                        && r->Some_0.x as int == nx && r->Some_0.y as int == ny
                })
                &&& c == Strategy::Defence ==> (e matches BehaviorState::Defence(ed) && {
                    &&& final(self).behavior == BehaviorState::Defence(
                        defence::DefenceState {
                            last_push: defence::push_mark(
                                ed,
                                data.coordinates.y as int,
                                data.ball.y as int,
                                now,
                            ),
                        },
                    )
                    &&& (r->Some_0.x as int, r->Some_0.y as int) == defence::defence_target(
                        ed,
                        data.ball.x as int,
                        data.ball.y as int,
                        data.coordinates.y as int,
                        now,
                    )
                })
                &&& c == Strategy::Goalie ==> (e matches BehaviorState::Goalie(eg) && {
                    &&& !data.coordinates.valid ==> final(self).behavior
                        == BehaviorState::Goalie(eg) && r->Some_0.x == data.coordinates.x
                        && r->Some_0.y as int == data.coordinates.y + 50
                    &&& data.coordinates.valid ==> final(self).behavior == BehaviorState::Goalie(
                        goalie::goalie_state_after(eg, data.ball.x as int, data.ball.y as int, now),
                    ) && (r->Some_0.x as int, r->Some_0.y as int) == goalie::goalie_target(
                        data.ball.x as int,
                        data.ball.y as int,
                    )
                })
                &&& c == Strategy::GetOut ==> ((r->Some_0.x as int, r->Some_0.y as int)
                    == get_out::get_out_target(
                    data.coordinates.x as int,
                    data.coordinates.y as int,
                ) && final(self).behavior == BehaviorState::GetOut(get_out::GetOutState {  }))
                &&& c == Strategy::NoBall ==> (e matches BehaviorState::NoBall(en) && {
                    &&& !data.coordinates.valid ==> r->Some_0.x == data.coordinates.x
                        && r->Some_0.y as int == data.coordinates.y + 50 && final(self).behavior
                        == BehaviorState::NoBall(en)
                    &&& data.coordinates.valid ==> {
                        let x = data.coordinates.x as int;
                        let y = data.coordinates.y as int;
                        let (px, py) = no_ball::park_point(data.goalie);
                        &&& no_ball::far_from_park(x, y, data.goalie) ==> (r->Some_0.x as int
                            == px && r->Some_0.y as int == py && final(self).behavior
                            == BehaviorState::NoBall(en))
                        &&& !no_ball::far_from_park(x, y, data.goalie) ==> {
                            let cl = no_ball::check_left_after(en, x, data.goalie);
                            &&& final(self).behavior == BehaviorState::NoBall(
                                no_ball::NoBallState { check_left: cl },
                            )
                            &&& r->Some_0.y as int == py
                            &&& r->Some_0.x as int == if cl {
                                x - 50
                            } else {
                                x + 50
                            }
                        }
                    }
                })
            }),
    {
        let strategy = self.arbitrate(data, now);
        let changed = !equal_strategy(strategy, self.last_strategy);
        let result: Option<TargetCommand>;
        match strategy {
            Strategy::Idle => {
                result = None;
            },
            Strategy::Attack => {
                let mut st = if changed {
                    attack::AttackState::new(now)
                } else {
                    match self.behavior {
                        BehaviorState::Attack(a) => a,
                        _ => attack::AttackState::new(now),
                    }
                };
                let t = attack::run(data, goal, &mut st, now);
                self.behavior = BehaviorState::Attack(st);
                result = Some(t);
            },
            Strategy::Bounds => {
                let mut st = if changed {
                    bounds::BoundsState { was_left: false, was_right: false, was_front: false, was_back: false }
                } else {
                    match self.behavior {
                        BehaviorState::Bounds(b) => b,
                        _ => bounds::BoundsState { was_left: false, was_right: false, was_front: false, was_back: false },
                    }
                };
                let t = bounds::run(data, &mut st);
                self.behavior = BehaviorState::Bounds(st);
                result = Some(t);
            },
            Strategy::Clear => {
                let mut st = if changed {
                    clear::ClearState::new(now)
                } else {
                    match self.behavior {
                        BehaviorState::Clear(c) => c,
                        _ => clear::ClearState::new(now),
                    }
                };
                let t = clear::run(data, &mut st, now);
                self.behavior = BehaviorState::Clear(st);
                result = Some(t);
            },
            Strategy::Defence => {
                let mut st = if changed {
                    defence::DefenceState::default()
                } else {
                    match self.behavior {
                        BehaviorState::Defence(d) => d,
                        _ => defence::DefenceState::default(),
                    }
                };
                let t = defence::run(data, &mut st, now);
                self.behavior = BehaviorState::Defence(st);
                result = Some(t);
            },
            Strategy::Goalie => {
                let mut st = if changed {
                    goalie::GoalieState::new(now)
                } else {
                    match self.behavior {
                        BehaviorState::Goalie(g) => g,
                        _ => goalie::GoalieState::new(now),
                    }
                };
                let t = goalie::run(data, &mut st, now);
                self.behavior = BehaviorState::Goalie(st);
                result = Some(t);
            },
            Strategy::GetOut => {
                let mut st = if changed {
                    get_out::GetOutState {  }
                } else {
                    match self.behavior {
                        BehaviorState::GetOut(g) => g,
                        _ => get_out::GetOutState {  },
                    }
                };
                let t = get_out::run(data, &mut st);
                self.behavior = BehaviorState::GetOut(st);
                result = Some(t);
            },
            Strategy::NoBall => {
                let mut st = if changed {
                    no_ball::NoBallState { check_left: false }
                } else {
                    match self.behavior {
                        BehaviorState::NoBall(n) => n,
                        _ => no_ball::NoBallState { check_left: false },
                    }
                };
                let t = no_ball::run(data, &mut st);
                self.behavior = BehaviorState::NoBall(st);
                result = Some(t);
            },
        }

        self.last_strategy = strategy;
        result
    }
}

/// A triggered boundary line forces the boundary behavior at once, over
/// every other choice, and restarts the transition timer.
pub proof fn lemma_bounds_forced(s: Arbiter, data: Data, now: u64)
    requires
        any_line(data.lines),
    ensures
        chosen_strategy(s, data, now) == Strategy::Bounds,
        changed_mark(s, data, now) == now,
{
}

/// Within the boundary dwell, no unforced decision leaves the boundary
/// behavior.
pub proof fn lemma_bounds_dwell(s: Arbiter, data: Data, now: u64)
    requires
        !any_line(data.lines),
        s.last_strategy == Strategy::Bounds,
        now - s.last_changed < BOUNDS_DURATION,
    ensures
        chosen_strategy(s, data, now) == Strategy::Bounds,
        changed_mark(s, data, now) == if candidate_strategy(s, data, now) == Strategy::Bounds {
            now
        } else {
            s.last_changed
        },
{
}

/// Within the short dwell of any other behavior, no unforced decision
/// switches away from it.
pub proof fn lemma_strategy_dwell(s: Arbiter, data: Data, now: u64)
    requires
        !any_line(data.lines),
        s.last_strategy != Strategy::Bounds,
        now - s.last_changed < STRATEGY_DURATION,
    ensures
        chosen_strategy(s, data, now) == s.last_strategy || chosen_strategy(s, data, now)
            == candidate_strategy(s, data, now),
        candidate_strategy(s, data, now) != s.last_strategy ==> chosen_strategy(s, data, now)
            == s.last_strategy,
{
}

/// Strategy hysteresis over a line-sensor toggle: an event that forces the
/// boundary behavior, followed by any event without a line trigger inside
/// the boundary dwell, still yields the boundary behavior — the arbiter
/// cannot alternate faster than the dwell.
pub proof fn lemma_bounds_toggle(s0: Arbiter, d1: Data, t1: u64, s1: Arbiter, d2: Data, t2: u64)
    requires
        any_line(d1.lines),
        s1.last_strategy == chosen_strategy(s0, d1, t1),
        s1.last_changed == changed_mark(s0, d1, t1),
        !any_line(d2.lines),
        t1 <= t2,
        t2 - t1 < BOUNDS_DURATION,
    ensures
        chosen_strategy(s1, d2, t2) == Strategy::Bounds,
{
    lemma_bounds_forced(s0, d1, t1);
    if candidate_strategy(s1, d2, t2) != Strategy::Bounds {
        assert(dwell_blocks(
            s1.last_strategy,
            s1.last_changed,
            candidate_strategy(s1, d2, t2),
            t2,
        ));
    }
}

/// A field player whose position is invalid and whose ball has gone unseen
/// past the timeout searches for the ball: the decision cascade yields the
/// search behavior, never an attack on the stale ball position.
pub proof fn lemma_no_ball_when_unseen(s: Arbiter, data: Data, now: u64)
    requires
        !data.coordinates.valid,
        !data.ball.valid,
        !data.goalie,
        now - s.last_ball_found > NO_BALL_DURATION,
    ensures
        candidate_strategy(s, data, now) == Strategy::NoBall,
{
}

/// Strategy equality as the arbiter tests it.
fn equal_strategy(a: Strategy, b: Strategy) -> (r: bool)
    ensures
        r == (a == b),
{
    a == b
}

} // verus!
