use soccer_core::ball::BallEstimator;
use soccer_core::coordinate::CoordinateEstimator;
use soccer_core::data::{CameraData, Coordinate, LidarData, LineData, RangingSample};

fn bundle(front: (u16, u16), left: (u16, u16), right: (u16, u16), back: (u16, u16)) -> LidarData {
    LidarData {
        front: RangingSample { dist: front.0, signal: front.1 },
        left: RangingSample { dist: left.0, signal: left.1 },
        right: RangingSample { dist: right.0, signal: right.1 },
        back: RangingSample { dist: back.0, signal: back.1 },
    }
}

fn held() -> Coordinate {
    Coordinate { x: 700, y: 800, valid: true }
}

#[test]
fn ranging_consistency_clears_and_publishes() {
    // front and back add up to the field length within tolerance, so both
    // counters clear at once and the front reading becomes the position.
    let mut est = CoordinateEstimator::new();
    let r = est.update(bundle((100, 900), (80, 900), (102, 900), (140, 900)), 0, held());
    assert_eq!(est.ignore_front, 0);
    assert_eq!(est.ignore_back, 0);
    assert!(r.valid);
    assert_eq!(r.y, 1000);
    assert_eq!(r.x, 800);
}

#[test]
fn blocked_axis_invalidates_and_holds_position() {
    // Both front and back readings are implausibly close: both counters
    // grow, the axis is blocked, and the held position is republished
    // invalid.
    let mut est = CoordinateEstimator::new();
    let r = est.update(bundle((10, 900), (80, 900), (102, 900), (10, 900)), 0, held());
    assert_eq!(est.ignore_front, 1);
    assert_eq!(est.ignore_back, 1);
    assert!(!r.valid);
    assert_eq!(r.x, 700);
    assert_eq!(r.y, 800);
}

#[test]
fn one_cleared_side_resumes_publishing() {
    let mut est = CoordinateEstimator::new();
    // A good cycle first, so the last accepted distances are set.
    let r = est.update(bundle((100, 900), (80, 900), (102, 900), (140, 900)), 0, held());
    assert!(r.valid);
    // Now the front sensor reads far too close: only its counter grows,
    // the other side of the axis still publishes.
    let r = est.update(bundle((10, 900), (80, 900), (102, 900), (140, 900)), 0, held());
    assert_eq!(est.ignore_front, 1);
    assert_eq!(est.ignore_back, 0);
    assert!(r.valid);
    assert_eq!(r.y, 2430 - 1400);
    // A plausible front reading close to the last accepted one decays the
    // counter back to zero even though the cross-check fails.
    let r = est.update(bundle((100, 900), (80, 900), (102, 900), (60, 900)), 0, held());
    assert_eq!(est.ignore_front, 0);
    assert_eq!(est.ignore_back, 1);
    assert!(r.valid);
    assert_eq!(r.y, 1000);
}

#[test]
fn hysteresis_needs_cross_check_after_long_ignore() {
    let mut est = CoordinateEstimator::new();
    // Drive both depth counters far past the hysteresis threshold.
    for _ in 0..102 {
        let r = est.update(bundle((10, 900), (80, 900), (102, 900), (10, 900)), 0, held());
        assert!(!r.valid);
    }
    assert_eq!(est.ignore_front, 102);
    assert_eq!(est.ignore_back, 102);
    // Individually plausible readings no longer clear the counters.
    let r = est.update(bundle((60, 900), (80, 900), (102, 900), (100, 900)), 0, held());
    assert!(!r.valid);
    assert_eq!(est.ignore_front, 103);
    assert_eq!(est.ignore_back, 103);
    // Only the geometric cross-check clears them instantly.
    let r = est.update(bundle((100, 900), (80, 900), (102, 900), (140, 900)), 0, held());
    assert_eq!(est.ignore_front, 0);
    assert_eq!(est.ignore_back, 0);
    assert!(r.valid);
    assert_eq!(r.y, 1000);
}

#[test]
fn heading_quadrant_remap() {
    // At a heading of 90 degrees the body-fixed right sensor plays the
    // geometric front: corrected distances shrink with the cosine, which is
    // zero here, so every corrected distance is zero and implausible.
    let mut est = CoordinateEstimator::new();
    let r = est.update(bundle((100, 900), (80, 900), (102, 900), (140, 900)), 90, held());
    assert!(!r.valid);
    assert_eq!(est.ignore_front, 1);
}

#[test]
fn manual_unignore_touches_only_distrusted_sides() {
    let mut est = CoordinateEstimator::new();
    for _ in 0..3 {
        est.update(bundle((10, 900), (80, 900), (102, 900), (10, 900)), 0, held());
    }
    assert_eq!(est.ignore_front, 3);
    assert_eq!(est.ignore_left, 0);
    est.unignore(LineData { front: true, left: true, right: false, back: false });
    assert_eq!(est.ignore_front, -1);
    // The left counter was already clear, so the override leaves it alone.
    assert_eq!(est.ignore_left, 0);
    assert_eq!(est.ignore_back, 3);
}

#[test]
fn ball_directly_ahead() {
    // Ball at relative bearing 0 and 300 mm with heading 0: straight ahead,
    // which decreases y in the field frame.
    let mut est = BallEstimator::new();
    est.on_coordinate(
        Coordinate { x: 1000, y: 1500, valid: true },
        0,
        Coordinate { x: 0, y: 0, valid: false },
        Coordinate { x: 0, y: 0, valid: false },
    );
    let cam = CameraData { angle: 0, dist: 300, goal_angle: 0, goal_dist: 0 };
    let (ball, goal) = est.on_camera(
        cam,
        0,
        Coordinate { x: 0, y: 0, valid: false },
        Coordinate { x: 50, y: 60, valid: true },
    );
    assert!(ball.valid);
    assert_eq!(ball.x, 1000);
    assert_eq!(ball.y, 1200);
    // The goal was not detected: its numbers are retained, its validity
    // cleared.
    assert!(!goal.valid);
    assert_eq!(goal.x, 50);
    assert_eq!(goal.y, 60);
}

#[test]
fn ball_rotated_by_heading() {
    let mut est = BallEstimator::new();
    est.on_coordinate(
        Coordinate { x: 1000, y: 1500, valid: true },
        0,
        Coordinate { x: 0, y: 0, valid: false },
        Coordinate { x: 0, y: 0, valid: false },
    );
    // Relative bearing 90 with heading 0: the ball sits to the right,
    // increasing x only.
    let cam = CameraData { angle: 90, dist: 300, goal_angle: 0, goal_dist: 0 };
    let (ball, _) = est.on_camera(
        cam,
        0,
        Coordinate { x: 0, y: 0, valid: false },
        Coordinate { x: 0, y: 0, valid: false },
    );
    assert!(ball.valid);
    assert_eq!(ball.x, 1300);
    assert_eq!(ball.y, 1500);
}

#[test]
fn invalid_coordinate_triggers_no_recompute() {
    let mut est = BallEstimator::new();
    let r = est.on_coordinate(
        Coordinate { x: 1000, y: 1500, valid: false },
        0,
        Coordinate { x: 0, y: 0, valid: false },
        Coordinate { x: 0, y: 0, valid: false },
    );
    assert!(r.is_none());
    // The numbers were still remembered for the next camera frame.
    let cam = CameraData { angle: 0, dist: 300, goal_angle: 0, goal_dist: 0 };
    let (ball, _) = est.on_camera(
        cam,
        0,
        Coordinate { x: 0, y: 0, valid: false },
        Coordinate { x: 0, y: 0, valid: false },
    );
    assert_eq!(ball.x, 1000);
    assert_eq!(ball.y, 1200);
}

#[test]
fn coordinate_change_recomputes_from_last_frame() {
    let mut est = BallEstimator::new();
    est.on_coordinate(
        Coordinate { x: 1000, y: 1500, valid: true },
        0,
        Coordinate { x: 0, y: 0, valid: false },
        Coordinate { x: 0, y: 0, valid: false },
    );
    let cam = CameraData { angle: 0, dist: 300, goal_angle: 0, goal_dist: 200 };
    est.on_camera(
        cam,
        0,
        Coordinate { x: 0, y: 0, valid: false },
        Coordinate { x: 0, y: 0, valid: false },
    );
    let r = est.on_coordinate(
        Coordinate { x: 900, y: 1400, valid: true },
        0,
        Coordinate { x: 0, y: 0, valid: false },
        Coordinate { x: 0, y: 0, valid: false },
    );
    let (ball, goal) = r.unwrap();
    assert!(ball.valid);
    assert_eq!(ball.x, 900);
    assert_eq!(ball.y, 1100);
    assert!(goal.valid);
    assert_eq!(goal.y, 1200);
}
