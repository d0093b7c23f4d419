//! Operator-facing configuration: role flag, start flag and the gains of the
//! two control loops.
//!
//! Gains are in thousandths, so `200` stands for a gain of `0.2` per
//! degree of heading error or per centimeter of distance error.

use vstd::prelude::*;

verus! {

/// Field geometry in millimeters, shared by the whole pipeline.
pub const FIELD_LENGTH: i32 = 2430;

/// Field width in millimeters.
pub const FIELD_WIDTH: i32 = 1820;

/// Margin between the boundary line and the wall, in millimeters.
pub const FIELD_MARGIN: i32 = 250;

/// Widened side margin of the central lane, in millimeters.
pub const FIELD_MARGIN_X: i32 = 650;

/// Widened depth margin of the playable area, in millimeters.
pub const FIELD_MARGIN_Y: i32 = 550;

/// Depth of the clearing zone in front of a goal, in millimeters.
pub const CLEARANCE_Y: i32 = 300;

/// Width of the clearing zone beside the ball, in millimeters.
pub const CLEARANCE_X: i32 = 200;

/// How far ahead of the robot a ball counts as captured, in millimeters.
pub const BALLCAP_DISTANCE: i32 = 70;

/// How wide the capture window is, in millimeters.
pub const BALLCAP_WIDTH: i32 = 40;

/// The mutable configuration snapshot.
#[derive(Clone, Copy, PartialEq, Eq, Structural, Debug)]
pub struct Config {
    /// Master start/stop flag: when false, the control loops drain events
    /// without producing output.
    pub started: bool,
    /// Goalkeeper role flag.
    pub goalie: bool,
    /// Proportional gain of the rotation loop, in thousandths per degree.
    pub pid_p: i32,
    /// Derivative gain of the rotation loop, in thousandths per degree.
    pub pid_d: i32,
    /// Proportional gain of the translation loop, in thousandths per
    /// centimeter.
    pub pid2_p: i32,
    /// Derivative gain of the translation loop, in thousandths per
    /// centimeter.
    pub pid2_d: i32,
    /// Whether raw inertial samples are echoed to the log.
    pub print_imu: bool,
}

/// Gains the controller accepts: small enough that every intermediate
/// product fits comfortably in 64 bits.
pub open spec fn config_wf(c: Config) -> bool {
    &&& 0 <= c.pid_p <= 1000000
    &&& 0 <= c.pid_d <= 1000000
    &&& 0 <= c.pid2_p <= 1000000
    &&& 0 <= c.pid2_d <= 1000000
}

impl Default for Config {
    /// The power-on configuration: stopped, field player, stock gains.
    fn default() -> (c: Config)
        ensures
            !c.started,
            !c.goalie,
            c.pid_p == 200,
            c.pid_d == 70,
            c.pid2_p == 100,
            c.pid2_d == 100,
            !c.print_imu,
            config_wf(c),
    {
        Config {
            started: false,
            goalie: false,
            pid_p: 200,
            pid_d: 70,
            pid2_p: 100,
            pid2_d: 100,
            print_imu: false,
        }
    }
}

} // verus!
