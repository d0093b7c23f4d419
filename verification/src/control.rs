//! The two motion-control loops: translation toward a target coordinate and
//! rotation toward a target heading.
//!
//! Each loop is re-armed — gains re-read, controller state reset — when its
//! target source delivers a new target while control is started, and
//! disarmed when control is stopped.  While armed, every change
//! notification produces one command; while disarmed, events are drained
//! without output.

use vstd::prelude::*;
use crate::angles::{norm_deg, clamp_angle};
use crate::config::{
    Config,
    config_wf,
    FIELD_LENGTH,
    FIELD_MARGIN,
    FIELD_MARGIN_X,
    FIELD_MARGIN_Y,
    FIELD_WIDTH,
};
use crate::data::{Coordinate, MotorData};
use crate::movement::drive;
use crate::num::clamped;
use crate::pid::{PidState, pid_wf, pid_output_spec};
use crate::trig::{vec_len_spec, atan2_deg_spec, construct_vector};

verus! {

/// Speed cap, in thousandths, while the robot's own position is invalid.
pub const NO_COORDINATE_MAX: i32 = 500;

/// How far in front of the goal a field player's reach ends, in
/// millimeters.
pub const STRIKER_DISTANCE: i32 = 300;

/// A target coordinate clamped into the role-dependent playable rectangle.
/// Targets in the central lane keep a deeper margin; with an invalid robot
/// position the target is passed through untouched.
pub open spec fn clamped_target_spec(tx: int, ty: int, valid: bool, goalie: bool) -> (int, int) {
    if valid {
        if tx > FIELD_MARGIN_X && tx < FIELD_WIDTH - FIELD_MARGIN_X {
            let gy = if !goalie {
                FIELD_LENGTH - FIELD_MARGIN_Y - STRIKER_DISTANCE
            } else {
                FIELD_LENGTH - FIELD_MARGIN_Y
            };
            (
                clamped(tx, FIELD_MARGIN as int, FIELD_WIDTH - FIELD_MARGIN),
                clamped(ty, FIELD_MARGIN_Y as int, gy),
            )
        } else {
            let gy = if !goalie {
                FIELD_LENGTH - FIELD_MARGIN_Y - STRIKER_DISTANCE
            } else {
                FIELD_LENGTH - FIELD_MARGIN
            };
            (
                clamped(tx, FIELD_MARGIN as int, FIELD_WIDTH - FIELD_MARGIN),
                clamped(ty, FIELD_MARGIN as int, gy),
            )
        }
    } else {
        (tx, ty)
    }
}

/// The translation command for one change notification: distance to the
/// clamped target through the controller, bearing corrected by the current
/// heading, and the speed capped while the position is invalid.
pub open spec fn speed_angle_spec(
    pid: PidState,
    tx: int,
    ty: int,
    coord: Coordinate,
    heading: int,
    goalie: bool,
) -> (int, int) {
    let (cx, cy) = clamped_target_spec(tx, ty, coord.valid, goalie);
    let xd = cx - coord.x;
    let yd = coord.y - cy;
    let dist = vec_len_spec(xd, yd);
    let angle = norm_deg(atan2_deg_spec(xd, yd) - heading);
    let speed = -pid_output_spec(pid, dist);
    let capped = if coord.valid {
        speed
    } else {
        if speed <= NO_COORDINATE_MAX {
            speed
        } else {
            NO_COORDINATE_MAX as int
        }
    };
    (capped, angle)
}

/// Clamp a target coordinate into the playable rectangle.
pub fn clamp_target(tx: i32, ty: i32, valid: bool, goalie: bool) -> (r: (i32, i32))
    requires
        -2000000 <= tx <= 2000000,
        -2000000 <= ty <= 2000000,
    ensures
        (r.0 as int, r.1 as int) == clamped_target_spec(tx as int, ty as int, valid, goalie),
        -2000000 <= r.0 <= 2000000,
        -2000000 <= r.1 <= 2000000,
{
    if valid {
        if tx > FIELD_MARGIN_X && tx < FIELD_WIDTH - FIELD_MARGIN_X {
            let gy = if !goalie {
                FIELD_LENGTH - FIELD_MARGIN_Y - STRIKER_DISTANCE
            } else {
                FIELD_LENGTH - FIELD_MARGIN_Y
            };
            let cx = if tx < FIELD_MARGIN {
                FIELD_MARGIN
            } else if tx > FIELD_WIDTH - FIELD_MARGIN {
                FIELD_WIDTH - FIELD_MARGIN
            } else {
                tx
            };
            let cy = if ty < FIELD_MARGIN_Y {
                FIELD_MARGIN_Y
            } else if ty > gy {
                gy
            } else {
                ty
            };
            (cx, cy)
        } else {
            let gy = if !goalie {
                FIELD_LENGTH - FIELD_MARGIN_Y - STRIKER_DISTANCE
            } else {
                FIELD_LENGTH - FIELD_MARGIN
            };
            let cx = if tx < FIELD_MARGIN {
                FIELD_MARGIN
            } else if tx > FIELD_WIDTH - FIELD_MARGIN {
                FIELD_WIDTH - FIELD_MARGIN
            } else {
                tx
            };
            let cy = if ty < FIELD_MARGIN {
                FIELD_MARGIN
            } else if ty > gy {
                gy
            } else {
                ty
            };
            (cx, cy)
        }
    } else {
        (tx, ty)
    }
}

/// One translation-control step.
pub fn speed_angle_update(
    pid: &mut PidState,
    tx: i32,
    ty: i32,
    coord: Coordinate,
    heading: i32,
    goalie: bool,
) -> (r: (i32, i32))
    requires
        pid_wf(*old(pid)),
        -2000000 <= tx <= 2000000,
        -2000000 <= ty <= 2000000,
        -1100000 <= coord.x <= 1100000,
        -1100000 <= coord.y <= 1100000,
        -180 < heading <= 180,
    ensures
        pid_wf(*final(pid)),
        (r.0 as int, r.1 as int) == speed_angle_spec(
            *old(pid),
            tx as int,
            ty as int,
            coord,
            heading as int,
            goalie,
        ),
        -1000 <= r.0 <= 1000,
        -180 < r.1 <= 180,
        final(pid).has_prev,
        final(pid).kp == old(pid).kp && final(pid).kd == old(pid).kd && final(pid).meas_div
            == old(pid).meas_div,
{
    let (cx, cy) = clamp_target(tx, ty, coord.valid, goalie);
    let xd: i64 = (cx as i64) - (coord.x as i64);
    let yd: i64 = (coord.y as i64) - (cy as i64);
    let (dist, bearing) = construct_vector(xd, yd);
    let angle = clamp_angle(bearing - heading);
    let out = pid.next_output(dist as i32);
    let speed: i32 = -out;
    let capped: i32 = if coord.valid {
        speed
    } else {
        if speed <= NO_COORDINATE_MAX {
            speed
        } else {
            NO_COORDINATE_MAX
        }
    };
    (capped, angle)
}

/// One rotation-control step: the heading error through the controller.
pub fn rotation_update(pid: &mut PidState, target: i32, heading: i32) -> (r: i32)
    requires
        pid_wf(*old(pid)),
        -1000000 <= target <= 1000000,
        -180 < heading <= 180,
    ensures
        pid_wf(*final(pid)),
        r == pid_output_spec(*old(pid), norm_deg(heading - target)),
        -1000 <= r <= 1000,
        final(pid).has_prev,
        final(pid).prev == norm_deg(heading - target),
        final(pid).kp == old(pid).kp && final(pid).kd == old(pid).kd && final(pid).meas_div
            == old(pid).meas_div,
{
    let angle = clamp_angle(heading - target);
    pid.next_output(angle)
}

/// The translation loop around its controller: a target, and whether the
/// loop is currently armed.
#[derive(Clone, Copy, PartialEq, Eq, Structural, Debug)]
pub struct TranslationLoop {
    pub target_x: i32,
    pub target_y: i32,
    pub armed: bool,
    pub pid: PidState,
}

/// The translation loop's invariant.
pub open spec fn translation_wf(s: TranslationLoop) -> bool {
    &&& -2000000 <= s.target_x <= 2000000
    &&& -2000000 <= s.target_y <= 2000000
    &&& pid_wf(s.pid)
}

impl TranslationLoop {
    /// A fresh, disarmed loop.
    pub fn new() -> (s: TranslationLoop)
        ensures
            !s.armed,
            s.target_x == 0 && s.target_y == 0,
            translation_wf(s),
    {
        TranslationLoop { target_x: 0, target_y: 0, armed: false, pid: PidState::new(0, 0, 10) }
    }

    /// A new target coordinate arrived.  A change of target or a stop
    /// disarms or re-arms the loop; re-arming reloads the gains and resets
    /// the controller.
    pub fn on_target(&mut self, tx: i32, ty: i32, config: &Config)
        requires
            translation_wf(*old(self)),
            config_wf(*config),
            -2000000 <= tx <= 2000000,
            -2000000 <= ty <= 2000000,
        ensures
            translation_wf(*final(self)),
            old(self).armed && old(self).target_x == tx && old(self).target_y == ty
                && config.started ==> *final(self) == *old(self),
            !(old(self).armed && old(self).target_x == tx && old(self).target_y == ty
                && config.started) ==> {
                &&& final(self).target_x == tx && final(self).target_y == ty
                &&& final(self).armed == config.started
                &&& config.started ==> final(self).pid == (PidState {
                    kp: config.pid2_p,
                    kd: config.pid2_d,
                    meas_div: 10,
                    prev: 0,
                    has_prev: false,
                })
            },
    {
        if self.armed && self.target_x == tx && self.target_y == ty && config.started {
            return ;
        }
        self.target_x = tx;
        self.target_y = ty;
        if config.started {
            self.pid = PidState::new(config.pid2_p, config.pid2_d, 10);
            self.armed = true;
        } else {
            self.armed = false;
        }
    }

    /// A coordinate change notification arrived: while armed, produce the
    /// translation command; while disarmed, drain the event.
    pub fn on_update(&mut self, coord: Coordinate, heading: i32, goalie: bool) -> (r: Option<
        (i32, i32),
    >)
        requires
            translation_wf(*old(self)),
            -1100000 <= coord.x <= 1100000,
            -1100000 <= coord.y <= 1100000,
            -180 < heading <= 180,
        ensures
            translation_wf(*final(self)),
            final(self).armed == old(self).armed,
            final(self).target_x == old(self).target_x,
            final(self).target_y == old(self).target_y,
            r is Some <==> old(self).armed,
            old(self).armed ==> (r->Some_0.0 as int, r->Some_0.1 as int) == speed_angle_spec(
                old(self).pid,
                old(self).target_x as int,
                old(self).target_y as int,
                coord,
                heading as int,
                goalie,
            ),
            old(self).armed ==> -1000 <= r->Some_0.0 <= 1000 && -180 < r->Some_0.1 <= 180,
            !old(self).armed ==> *final(self) == *old(self),
    {
        if !self.armed {
            return None;
        }
        let tx = self.target_x;
        let ty = self.target_y;
        let out = speed_angle_update(&mut self.pid, tx, ty, coord, heading, goalie);
        Some(out)
    }
}

/// The rotation loop around its controller.
#[derive(Clone, Copy, PartialEq, Eq, Structural, Debug)]
pub struct RotationLoop {
    pub target: i32,
    pub armed: bool,
    pub pid: PidState,
}

/// The rotation loop's invariant.
pub open spec fn rotation_wf(s: RotationLoop) -> bool {
    &&& -1000000 <= s.target <= 1000000
    &&& pid_wf(s.pid)
}

impl RotationLoop {
    /// A fresh, disarmed loop.
    pub fn new() -> (s: RotationLoop)
        ensures
            !s.armed,
            s.target == 0,
            rotation_wf(s),
    {
        RotationLoop { target: 0, armed: false, pid: PidState::new(0, 0, 1) }
    }

    /// A new target heading arrived.
    pub fn on_target(&mut self, target: i32, config: &Config)
        requires
            rotation_wf(*old(self)),
            config_wf(*config),
            -1000000 <= target <= 1000000,
        ensures
            rotation_wf(*final(self)),
            old(self).armed && old(self).target == target && config.started ==> *final(self)
                == *old(self),
            !(old(self).armed && old(self).target == target && config.started) ==> {
                &&& final(self).target == target
                &&& final(self).armed == config.started
                &&& config.started ==> final(self).pid == (PidState {
                    kp: config.pid_p,
                    kd: config.pid_d,
                    meas_div: 1,
                    prev: 0,
                    has_prev: false,
                })
            },
    {
        if self.armed && self.target == target && config.started {
            return ;
        }
        self.target = target;
        if config.started {
            self.pid = PidState::new(config.pid_p, config.pid_d, 1);
            self.armed = true;
        } else {
            self.armed = false;
        }
    }

    /// A heading change notification arrived: while armed, produce the
    /// rotation command.
    pub fn on_update(&mut self, heading: i32) -> (r: Option<i32>)
        requires
            rotation_wf(*old(self)),
            -180 < heading <= 180,
        ensures
            rotation_wf(*final(self)),
            final(self).armed == old(self).armed,
            final(self).target == old(self).target,
            r is Some <==> old(self).armed,
            old(self).armed ==> r->Some_0 == pid_output_spec(
                old(self).pid,
                norm_deg(heading - old(self).target),
            ),
            old(self).armed ==> -1000 <= r->Some_0 <= 1000,
            !old(self).armed ==> *final(self) == *old(self),
    {
        if !self.armed {
            return None;
        }
        let t = self.target;
        let out = rotation_update(&mut self.pid, t, heading);
        Some(out)
    }
}

/// The drive aggregator: the latest translation and rotation commands,
/// remixed into wheel commands whenever either changes.
#[derive(Clone, Copy, PartialEq, Eq, Structural, Debug)]
pub struct DriveState {
    pub speed: i32,
    pub angle: i32,
    pub rotation: i32,
}

/// The aggregator's invariant.
pub open spec fn drive_state_wf(s: DriveState) -> bool {
    &&& -1000 <= s.speed <= 1000
    &&& -1000000 <= s.angle <= 1000000
    &&& -1000 <= s.rotation <= 1000
}

impl DriveState {
    /// At rest: everything zero.
    pub fn new() -> (s: DriveState)
        ensures
            s.speed == 0 && s.angle == 0 && s.rotation == 0,
            drive_state_wf(s),
    {
        DriveState { speed: 0, angle: 0, rotation: 0 }
    }

    /// A new translation command arrived: remix.
    pub fn on_speed_angle(&mut self, speed: i32, angle: i32) -> (r: MotorData)
        requires
            drive_state_wf(*old(self)),
            -1000 <= speed <= 1000,
            -1000000 <= angle <= 1000000,
        ensures
            drive_state_wf(*final(self)),
            final(self).speed == speed && final(self).angle == angle,
            final(self).rotation == old(self).rotation,
            (r.fl as int, r.fr as int, r.bl as int, r.br as int)
                == crate::movement::drive_spec(
                speed as int,
                angle as int,
                old(self).rotation as int,
            ),
    {
        self.speed = speed;
        self.angle = angle;
        drive(self.speed, self.angle, self.rotation)
    }

    /// A new rotation command arrived: remix.
    pub fn on_rotation(&mut self, rotation: i32) -> (r: MotorData)
        requires
            drive_state_wf(*old(self)),
            -1000 <= rotation <= 1000,
        ensures
            drive_state_wf(*final(self)),
            final(self).rotation == rotation,
            final(self).speed == old(self).speed && final(self).angle == old(self).angle,
            (r.fl as int, r.fr as int, r.bl as int, r.br as int)
                == crate::movement::drive_spec(
                old(self).speed as int,
                old(self).angle as int,
                rotation as int,
            ),
    {
        self.rotation = rotation;
        drive(self.speed, self.angle, self.rotation)
    }
}

} // verus!
