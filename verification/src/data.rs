//! Plain data carried between the sensor edge, the estimators, the strategy
//! arbiter and the motion controller.
//!
//! Distances and positions are in millimeters, angles in whole degrees
//! normalized to `(-180, 180]`, time stamps in milliseconds.

use vstd::prelude::*;

verus! {

/// Boundary-line sensor snapshot, one flag per side of the robot.
#[derive(Clone, Copy, PartialEq, Eq, Structural, Debug)]
pub struct LineData {
    pub front: bool,
    pub left: bool,
    pub right: bool,
    pub back: bool,
}

/// One ranging reading: distance in centimeters and a signal strength that
/// serves as a confidence proxy.
#[derive(Clone, Copy, PartialEq, Eq, Structural, Debug)]
pub struct RangingSample {
    pub dist: u16,
    pub signal: u16,
}

/// One ranging bundle, a sample per side, exactly as the ranging sensors
/// report them.
#[derive(Clone, Copy, PartialEq, Eq, Structural, Debug)]
pub struct LidarData {
    pub front: RangingSample,
    pub left: RangingSample,
    pub right: RangingSample,
    pub back: RangingSample,
}

/// Signed wheel-speed command for the four drive motors, bounded by the
/// drivetrain's PWM resolution.
#[derive(Clone, Copy, PartialEq, Eq, Structural, Debug)]
pub struct MotorData {
    pub fl: i16,
    pub fr: i16,
    pub bl: i16,
    pub br: i16,
}

/// A field-frame position in millimeters with a validity flag.  An invalid
/// position keeps its last numbers but must not be trusted this cycle.
#[derive(Clone, Copy, PartialEq, Eq, Structural, Debug)]
pub struct Coordinate {
    pub x: i32,
    pub y: i32,
    pub valid: bool,
}

/// A camera observation: robot-relative bearing in degrees and distance in
/// millimeters for the ball and the goal.  A pair `(0, 0)` means the target
/// was not detected in this frame.
#[derive(Clone, Copy, PartialEq, Eq, Structural, Debug)]
pub struct CameraData {
    pub angle: i32,
    pub dist: i32,
    pub goal_angle: i32,
    pub goal_dist: i32,
}

/// What a behavior emits each tick: a target heading and a target
/// coordinate for the two motion-control loops.
#[derive(Clone, Copy, PartialEq, Eq, Structural, Debug)]
pub struct TargetCommand {
    pub heading: i32,
    pub x: i32,
    pub y: i32,
}

} // verus!
