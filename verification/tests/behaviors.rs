use soccer_core::data::{Coordinate, LineData};
use soccer_core::strategy::attack::AttackState;
use soccer_core::strategy::bounds::BoundsState;
use soccer_core::strategy::clear::ClearState;
use soccer_core::strategy::goalie::GoalieState;
use soccer_core::strategy::no_ball::NoBallState;
use soccer_core::strategy::{attack, bounds, clear, goalie, no_ball, Data};

fn no_lines() -> LineData {
    LineData { front: false, left: false, right: false, back: false }
}

fn snapshot(ball: Coordinate, coord: Coordinate, captured: bool) -> Data {
    Data {
        ball,
        coordinates: coord,
        captured,
        lines: no_lines(),
        goalie: false,
        is_camera: true,
    }
}

#[test]
fn attack_walks_the_arc_toward_the_goal() {
    // Robot aligned over the ball, goal straight ahead: the push-around
    // distance seeds at its full 350 mm and the target moves up the field.
    let data = snapshot(
        Coordinate { x: 910, y: 1400, valid: true },
        Coordinate { x: 910, y: 1500, valid: true },
        true,
    );
    let goal = Coordinate { x: 910, y: 250, valid: true };
    let mut state = AttackState::new(100);
    state.aligned = true;
    let r = attack::run(&data, goal, &mut state, 100);
    assert_eq!((r.x, r.y), (910, 1150));
    assert_eq!(state.initial_magnitude, 1250);
    assert_eq!(state.initial_change, 350);
}

#[test]
fn attack_approach_slows_then_pushes() {
    // Ball ahead, nothing captured for a long time: the approach phase
    // aims behind the ball, further away while aligning.
    let data = snapshot(
        Coordinate { x: 910, y: 1300, valid: true },
        Coordinate { x: 910, y: 1500, valid: true },
        false,
    );
    let goal = Coordinate { x: 910, y: 250, valid: true };
    let mut state = AttackState::new(0);
    state.last_captured = 0;
    // Within the capture window the ball is straight ahead, so the robot
    // is already aligned sideways and pushes to just behind the ball.
    let r = attack::run(&data, goal, &mut state, 200);
    assert_eq!((r.x, r.y), (910, 1370));
}

#[test]
fn clear_shoves_then_cools_down() {
    let ball = Coordinate { x: 300, y: 320, valid: true };
    let coord = Coordinate { x: 300, y: 510, valid: true };
    let data = snapshot(ball, coord, false);
    let mut state = ClearState::new(0);

    // Lined up behind the ball: shove, and mark the push.
    let r = clear::run(&data, &mut state, 0);
    assert_eq!((r.x, r.y), (300, 220));
    assert!(state.pushed);
    assert_eq!(state.pushed_time, 0);

    // The push duration has elapsed: back off behind the ball and wait.
    let r = clear::run(&data, &mut state, 300);
    assert!(state.waiting);
    assert_eq!((r.x, r.y), (300, 520));

    // The cooldown has elapsed: engage again.
    let r = clear::run(&data, &mut state, 2400);
    assert_eq!((r.x, r.y), (300, 220));
    assert!(state.pushed);
    assert_eq!(state.pushed_time, 2400);
}

#[test]
fn bounds_latches_stay_until_reset() {
    let coord = Coordinate { x: 910, y: 1200, valid: true };
    let mut data = snapshot(Coordinate { x: 0, y: 0, valid: false }, coord, false);
    let mut state = BoundsState::default();

    data.lines.left = true;
    let r = bounds::run(&data, &mut state);
    assert_eq!((r.x, r.y), (1010, 1200));
    assert!(state.was_left);

    // The line cleared, but the latch keeps steering inward.
    data.lines.left = false;
    let r = bounds::run(&data, &mut state);
    assert_eq!((r.x, r.y), (1010, 1200));
}

#[test]
fn goalie_pushes_after_the_ball_sits_still() {
    let ball = Coordinate { x: 910, y: 400, valid: true };
    let coord = Coordinate { x: 910, y: 1700, valid: true };
    let data = snapshot(ball, coord, false);
    let mut state = GoalieState::new(0);

    goalie::run(&data, &mut state, 100);
    assert!(!state.pushing);
    assert_eq!(state.last_changed, 100);

    // The ball has not moved appreciably for longer than the threshold.
    goalie::run(&data, &mut state, 2700);
    assert!(state.pushing);
}

#[test]
fn search_drives_home_then_steps_sideways() {
    let ball = Coordinate { x: 0, y: 0, valid: false };
    let mut state = NoBallState::default();

    // Far from the parking point: drive straight to it.
    let data = snapshot(ball, Coordinate { x: 910, y: 1800, valid: true }, false);
    let r = no_ball::run(&data, &mut state);
    assert_eq!((r.x, r.y), (910, 1530));

    // At the parking point but offset right: step back to the left.
    let data = snapshot(ball, Coordinate { x: 970, y: 1530, valid: true }, false);
    let r = no_ball::run(&data, &mut state);
    assert!(state.check_left);
    assert_eq!((r.x, r.y), (920, 1530));
}
