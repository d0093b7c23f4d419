//! Ball/goal estimator: rotates camera-relative polar observations into
//! absolute field positions using the fused heading and the robot position.
//!
//! A target reported as `(0, 0)` was not detected this frame: its stored
//! position is retained but its validity is cleared.  A recompute triggered
//! by a coordinate change keeps using the last camera observation.

use vstd::prelude::*;
use crate::angles::{norm_deg, clamp_angle};
use crate::data::{CameraData, Coordinate};
use crate::num::{tdiv, div_trunc, lemma_tdiv_bound};
use crate::trig::{sin_q_spec, cos_q_spec, sin_q, cos_q};

verus! {

/// Camera observations the estimator accepts: bearings that fit an angle
/// accumulator and distances up to 100 meters.
pub open spec fn cam_wf(c: CameraData) -> bool {
    &&& -1000000 <= c.angle <= 1000000
    &&& 0 <= c.dist <= 100000
    &&& -1000000 <= c.goal_angle <= 1000000
    &&& 0 <= c.goal_dist <= 100000
}

/// Field `x` of a target seen at relative bearing `rel` and distance `dist`
/// from the robot at `x` with heading `heading`.
pub open spec fn project_x(x: int, heading: int, rel: int, dist: int) -> int {
    x + tdiv(dist * sin_q_spec(norm_deg(heading + rel)), 10000)
}

/// Field `y` of the same target; looking straight ahead with heading zero
/// decreases `y`.
pub open spec fn project_y(y: int, heading: int, rel: int, dist: int) -> int {
    y - tdiv(dist * cos_q_spec(norm_deg(heading + rel)), 10000)
}

/// Rotate a robot-relative polar observation into the field frame.
pub fn project(x: i32, y: i32, heading: i32, rel: i32, dist: i32) -> (r: (i32, i32))
    requires
        -1000000 <= x <= 1000000,
        -1000000 <= y <= 1000000,
        -180 < heading <= 180,
        -1000000 <= rel <= 1000000,
        0 <= dist <= 100000,
    ensures
        r.0 == project_x(x as int, heading as int, rel as int, dist as int),
        r.1 == project_y(y as int, heading as int, rel as int, dist as int),
        -1100000 <= r.0 <= 1100000,
        -1100000 <= r.1 <= 1100000,
{
    let bearing = clamp_angle(heading + rel);
    let s = sin_q(bearing);
    let c = cos_q(bearing);
    proof {
        assert(dist * s <= 100000 * 10000 && dist * s >= -(100000 * 10000)) by (nonlinear_arith)
            requires 0 <= dist <= 100000 && -10000 <= s <= 10000;
        assert(dist * c <= 100000 * 10000 && dist * c >= -(100000 * 10000)) by (nonlinear_arith)
            requires 0 <= dist <= 100000 && -10000 <= c <= 10000;
        lemma_tdiv_bound(dist as int * s as int, 10000);
        lemma_tdiv_bound(dist as int * c as int, 10000);
        assert(tdiv(dist as int * s as int, 10000) <= 100000
            && tdiv(dist as int * s as int, 10000) >= -100000) by (nonlinear_arith)
            requires
                -(100000 * 10000) <= dist * s <= 100000 * 10000
                    && tdiv(dist as int * s as int, 10000) == if dist * s >= 0 {
                    (dist * s) / 10000
                } else {
                    -((-(dist * s)) / 10000)
                },
        ;
        assert(tdiv(dist as int * c as int, 10000) <= 100000
            && tdiv(dist as int * c as int, 10000) >= -100000) by (nonlinear_arith)
            requires
                -(100000 * 10000) <= dist * c <= 100000 * 10000
                    && tdiv(dist as int * c as int, 10000) == if dist * c >= 0 {
                    (dist * c) / 10000
                } else {
                    -((-(dist * c)) / 10000)
                },
        ;
    }
    let dx: i64 = div_trunc((dist as i64) * (s as i64), 10000);
    let dy: i64 = div_trunc((dist as i64) * (c as i64), 10000);
    (((x as i64) + dx) as i32, ((y as i64) - dy) as i32)
}

/// Update one stored target from one observation: undetected clears the
/// validity and keeps the numbers, otherwise the projection is published.
pub fn resolve_target(
    stored: Coordinate,
    x: i32,
    y: i32,
    heading: i32,
    rel: i32,
    dist: i32,
) -> (r: Coordinate)
    requires
        -1000000 <= x <= 1000000,
        -1000000 <= y <= 1000000,
        -180 < heading <= 180,
        -1000000 <= rel <= 1000000,
        0 <= dist <= 100000,
    ensures
        (rel == 0 && dist == 0) ==> (r.x == stored.x && r.y == stored.y && !r.valid),
        !(rel == 0 && dist == 0) ==> (r.x == project_x(x as int, heading as int, rel as int, dist as int)
            && r.y == project_y(y as int, heading as int, rel as int, dist as int)
            && r.valid),
{
    if rel == 0 && dist == 0 {
        Coordinate { x: stored.x, y: stored.y, valid: false }
    } else {
        let p = project(x, y, heading, rel, dist);
        Coordinate { x: p.0, y: p.1, valid: true }
    }
}

/// The ball/goal estimator's mutable state: the last camera observation and
/// the last robot position it was told about, valid or not.
#[derive(Clone, Copy, PartialEq, Eq, Structural, Debug)]
pub struct BallEstimator {
    pub camera: CameraData,
    pub x: i32,
    pub y: i32,
}

/// The estimator's invariant.
pub open spec fn ball_est_wf(s: BallEstimator) -> bool {
    &&& cam_wf(s.camera)
    &&& -1000000 <= s.x <= 1000000
    &&& -1000000 <= s.y <= 1000000
}

impl BallEstimator {
    /// A fresh estimator, before any observation.
    pub fn new() -> (s: BallEstimator)
        ensures
            s.camera == (CameraData { angle: 0, dist: 0, goal_angle: 0, goal_dist: 0 }),
            s.x == 0 && s.y == 0,
            ball_est_wf(s),
    {
        BallEstimator { camera: CameraData { angle: 0, dist: 0, goal_angle: 0, goal_dist: 0 }, x: 0, y: 0 }
    }

    /// A fresh camera frame arrived: store it and republish ball and goal.
    /// The robot position used is the last one seen, even if it has since
    /// been marked invalid — a temporarily bad localization must not invent
    /// false negatives.
    pub fn on_camera(
        &mut self,
        cam: CameraData,
        heading: i32,
        ball: Coordinate,
        goal: Coordinate,
    ) -> (r: (Coordinate, Coordinate))
        requires
            ball_est_wf(*old(self)),
            cam_wf(cam),
            -180 < heading <= 180,
        ensures
            ball_est_wf(*final(self)),
            final(self).camera == cam,
            final(self).x == old(self).x && final(self).y == old(self).y,
            (cam.angle == 0 && cam.dist == 0) ==> (r.0.x == ball.x && r.0.y == ball.y
                && !r.0.valid),
            !(cam.angle == 0 && cam.dist == 0) ==> (r.0.x == project_x(
                old(self).x as int,
                heading as int,
                cam.angle as int,
                cam.dist as int,
            ) && r.0.y == project_y(
                old(self).y as int,
                heading as int,
                cam.angle as int,
                cam.dist as int,
            ) && r.0.valid),
            (cam.goal_angle == 0 && cam.goal_dist == 0) ==> (r.1.x == goal.x && r.1.y == goal.y
                && !r.1.valid),
            !(cam.goal_angle == 0 && cam.goal_dist == 0) ==> (r.1.x == project_x(
                old(self).x as int,
                heading as int,
                cam.goal_angle as int,
                cam.goal_dist as int,
            ) && r.1.y == project_y(
                old(self).y as int,
                heading as int,
                cam.goal_angle as int,
                cam.goal_dist as int,
            ) && r.1.valid),
    {
        self.camera = cam;
        let b = resolve_target(ball, self.x, self.y, heading, cam.angle, cam.dist);
        let g = resolve_target(goal, self.x, self.y, heading, cam.goal_angle, cam.goal_dist);
        (b, g)
    }

    /// The robot coordinate changed: remember it, and if it is valid,
    /// recompute ball and goal from the retained camera observation.
    /// An invalid coordinate is remembered but triggers no recompute.
    pub fn on_coordinate(
        &mut self,
        coord: Coordinate,
        heading: i32,
        ball: Coordinate,
        goal: Coordinate,
    ) -> (r: Option<(Coordinate, Coordinate)>)
        requires
            ball_est_wf(*old(self)),
            -1000000 <= coord.x <= 1000000,
            -1000000 <= coord.y <= 1000000,
            -180 < heading <= 180,
        ensures
            ball_est_wf(*final(self)),
            final(self).camera == old(self).camera,
            final(self).x == coord.x && final(self).y == coord.y,
            r is Some <==> coord.valid,
            coord.valid ==> {
                let cam = old(self).camera;
                let rr = r->Some_0;
                &&& (cam.angle == 0 && cam.dist == 0) ==> (rr.0.x == ball.x && rr.0.y == ball.y
                    && !rr.0.valid)
                &&& !(cam.angle == 0 && cam.dist == 0) ==> (rr.0.x == project_x(
                    coord.x as int,
                    heading as int,
                    cam.angle as int,
                    cam.dist as int,
                ) && rr.0.y == project_y(
                    coord.y as int,
                    heading as int,
                    cam.angle as int,
                    cam.dist as int,
                ) && rr.0.valid)
                &&& (cam.goal_angle == 0 && cam.goal_dist == 0) ==> (rr.1.x == goal.x && rr.1.y
                    == goal.y && !rr.1.valid)
                &&& !(cam.goal_angle == 0 && cam.goal_dist == 0) ==> (rr.1.x == project_x(
                    coord.x as int,
                    heading as int,
                    cam.goal_angle as int,
                    cam.goal_dist as int,
                ) && rr.1.y == project_y(
                    coord.y as int,
                    heading as int,
                    cam.goal_angle as int,
                    cam.goal_dist as int,
                ) && rr.1.valid)
            },
    {
        self.x = coord.x;
        self.y = coord.y;
        if !coord.valid {
            None
        } else {
            let b = resolve_target(ball, self.x, self.y, heading, self.camera.angle, self.camera.dist);
            let g = resolve_target(
                goal,
                self.x,
                self.y,
                heading,
                self.camera.goal_angle,
                self.camera.goal_dist,
            );
            Some((b, g))
        }
    }
}

} // verus!
