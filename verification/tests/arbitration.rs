use soccer_core::data::{Coordinate, LineData};
use soccer_core::strategy::{Arbiter, Data, Strategy};

fn no_lines() -> LineData {
    LineData { front: false, left: false, right: false, back: false }
}

fn snapshot(ball: Coordinate, coord: Coordinate, goalie: bool) -> Data {
    Data {
        ball,
        coordinates: coord,
        captured: false,
        lines: no_lines(),
        goalie,
        is_camera: true,
    }
}

fn far_goal() -> Coordinate {
    Coordinate { x: 910, y: 250, valid: true }
}

#[test]
fn unseen_ball_with_bad_position_searches() {
    // Robot position invalid, field-player role, ball unseen past the
    // timeout: the arbiter searches instead of attacking the stale ball.
    let mut arb = Arbiter::new(0);
    let data = snapshot(
        Coordinate { x: 500, y: 500, valid: false },
        Coordinate { x: 910, y: 1200, valid: false },
        false,
    );
    let r = arb.step(&data, far_goal(), 600).unwrap();
    assert!(matches!(arb.last_strategy, Strategy::NoBall));
    // With an invalid position the search creeps forward from where it is.
    assert_eq!((r.x, r.y), (910, 1250));
    assert_eq!(r.heading, 0);
}

#[test]
fn line_trigger_forces_bounds_and_dwell_holds_it() {
    let mut arb = Arbiter::new(0);
    let coord = Coordinate { x: 910, y: 1200, valid: true };
    // Ball far away: without a line this would pick the attack behavior.
    let ball = Coordinate { x: 100, y: 100, valid: true };

    let mut data = snapshot(ball, coord, false);
    data.lines.front = true;
    let r = arb.step(&data, far_goal(), 20).unwrap();
    assert!(matches!(arb.last_strategy, Strategy::Bounds));
    assert_eq!(arb.last_changed, 20);
    // The front line pushes the robot inward along +y.
    assert_eq!((r.x, r.y), (910, 1300));

    // The line sensor cleared, but the boundary dwell has not elapsed:
    // still the boundary behavior, and the latched flag still steers.
    let data = snapshot(ball, coord, false);
    let r = arb.step(&data, far_goal(), 50).unwrap();
    assert!(matches!(arb.last_strategy, Strategy::Bounds));
    assert_eq!((r.x, r.y), (910, 1300));

    // After the dwell the attack takes over.
    let r = arb.step(&data, far_goal(), 125).unwrap();
    assert!(matches!(arb.last_strategy, Strategy::Attack));
    assert_eq!(arb.last_changed, 125);
    // A fresh attack state begins in its close-in phase and aligns over
    // the ball sideways.
    assert_eq!((r.x, r.y), (100, 1200));
}

#[test]
fn short_dwell_smooths_other_switches() {
    let mut arb = Arbiter::new(0);
    let coord = Coordinate { x: 910, y: 1200, valid: true };
    let ball = Coordinate { x: 100, y: 100, valid: true };
    // Settle into the attack behavior.
    arb.step(&snapshot(ball, coord, false), far_goal(), 100);
    assert!(matches!(arb.last_strategy, Strategy::Attack));
    assert_eq!(arb.last_changed, 100);
    // A position that asks to get out arrives within the short dwell: the
    // switch is deferred.
    let out_coord = Coordinate { x: 910, y: 400, valid: true };
    arb.step(&snapshot(ball, out_coord, false), far_goal(), 110);
    assert!(matches!(arb.last_strategy, Strategy::Attack));
    // After the dwell it is honored.
    arb.step(&snapshot(ball, out_coord, false), far_goal(), 120);
    assert!(matches!(arb.last_strategy, Strategy::GetOut));
}

#[test]
fn leaving_the_field_envelope_gets_out() {
    let mut arb = Arbiter::new(0);
    let coord = Coordinate { x: 910, y: 400, valid: true };
    let ball = Coordinate { x: 910, y: 390, valid: true };
    let r = arb.step(&snapshot(ball, coord, false), far_goal(), 100).unwrap();
    assert!(matches!(arb.last_strategy, Strategy::GetOut));
    // Nearer to the top margin: return to it.
    assert_eq!((r.x, r.y), (910, 550));
}

#[test]
fn ball_near_own_boundary_clears() {
    let mut arb = Arbiter::new(0);
    let coord = Coordinate { x: 300, y: 800, valid: true };
    let ball = Coordinate { x: 300, y: 320, valid: true };
    let r = arb.step(&snapshot(ball, coord, false), far_goal(), 100).unwrap();
    assert!(matches!(arb.last_strategy, Strategy::Clear));
    assert_eq!((r.x, r.y), (300, 220));
}

#[test]
fn ball_behind_robot_defends() {
    let mut arb = Arbiter::new(0);
    let coord = Coordinate { x: 910, y: 1500, valid: true };
    let ball = Coordinate { x: 910, y: 1540, valid: true };
    let r = arb.step(&snapshot(ball, coord, false), far_goal(), 1000).unwrap();
    assert!(matches!(arb.last_strategy, Strategy::Defence));
    // Stand off behind the ball on the defended side.
    assert_eq!((r.x, r.y), (910, 1370));
}

#[test]
fn distant_ball_attacks() {
    let mut arb = Arbiter::new(0);
    let coord = Coordinate { x: 910, y: 1500, valid: true };
    let ball = Coordinate { x: 1600, y: 300, valid: true };
    let r = arb.step(&snapshot(ball, coord, false), far_goal(), 100).unwrap();
    assert!(matches!(arb.last_strategy, Strategy::Attack));
    assert_eq!((r.x, r.y), (1600, 1500));
}

#[test]
fn goalkeeper_overrides_attack_after_grace() {
    let mut arb = Arbiter::new(0);
    let coord = Coordinate { x: 910, y: 1600, valid: true };
    let ball = Coordinate { x: 910, y: 400, valid: true };
    // Early on, the boot-time grace period still allows attacking.
    arb.step(&snapshot(ball, coord, true), far_goal(), 100);
    assert!(matches!(arb.last_strategy, Strategy::Attack));
    // Once the grace period has run out the goalkeeper holds the goal.
    let mut arb = Arbiter::new(0);
    let r = arb.step(&snapshot(ball, coord, true), far_goal(), 7000).unwrap();
    assert!(matches!(arb.last_strategy, Strategy::Goalie));
    // Ball straight in front of the goal mouth: park on the goal line.
    assert_eq!((r.x, r.y), (910, 1850));
}

#[test]
fn goalkeeper_projects_the_bisector() {
    let mut arb = Arbiter::new(0);
    let coord = Coordinate { x: 910, y: 1600, valid: true };
    let ball = Coordinate { x: 400, y: 800, valid: true };
    let r = arb.step(&snapshot(ball, coord, true), far_goal(), 7000).unwrap();
    assert!(matches!(arb.last_strategy, Strategy::Goalie));
    assert_eq!((r.x, r.y), (682, 1850));
}

#[test]
fn goalkeeper_search_timeout_is_shorter() {
    // 300 ms without the ball: a field player would still play, the
    // goalkeeper already returns home.
    let coord = Coordinate { x: 910, y: 1500, valid: true };
    let ball = Coordinate { x: 910, y: 1400, valid: false };

    let mut arb = Arbiter::new(0);
    arb.step(&snapshot(ball, coord, false), far_goal(), 300);
    assert!(!matches!(arb.last_strategy, Strategy::NoBall));

    let mut arb = Arbiter::new(0);
    arb.step(&snapshot(ball, coord, true), far_goal(), 300);
    assert!(matches!(arb.last_strategy, Strategy::NoBall));
}

#[test]
fn seeing_the_ball_refreshes_the_search_timer() {
    let mut arb = Arbiter::new(0);
    let coord = Coordinate { x: 910, y: 1500, valid: true };
    let seen = Coordinate { x: 910, y: 1400, valid: true };
    let unseen = Coordinate { x: 910, y: 1400, valid: false };
    arb.step(&snapshot(seen, coord, false), far_goal(), 400);
    assert_eq!(arb.last_ball_found, 400);
    // 450 ms later the ball is missing, but the timeout counts from the
    // last sighting, so the robot does not search yet.
    arb.step(&snapshot(unseen, coord, false), far_goal(), 850);
    assert!(!matches!(arb.last_strategy, Strategy::NoBall));
    arb.step(&snapshot(unseen, coord, false), far_goal(), 950);
    assert!(matches!(arb.last_strategy, Strategy::NoBall));
}
