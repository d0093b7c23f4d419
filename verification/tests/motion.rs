use soccer_core::config::Config;
use soccer_core::control::{rotation_update, speed_angle_update, DriveState, RotationLoop, TranslationLoop};
use soccer_core::data::Coordinate;
use soccer_core::movement::drive;
use soccer_core::pid::PidState;

#[test]
fn drive_at_rest_is_silent() {
    let r = drive(0, 0, 0);
    assert_eq!((r.fl, r.fr, r.bl, r.br), (0, 0, 0, 0));
}

#[test]
fn drive_full_ahead() {
    let r = drive(1000, 0, 0);
    assert_eq!((r.fl, r.fr, r.bl, r.br), (209, -209, 209, -209));
}

#[test]
fn drive_exact_mix() {
    let r = drive(800, 30, 0);
    assert_eq!((r.fl, r.fr, r.bl, r.br), (65, -172, 172, -65));
}

#[test]
fn opposite_directions_negate_wheels() {
    // Holonomic mixing symmetry: the same speed at the opposite direction
    // gives the exact negation of every wheel command.
    for (s, a) in [(800, 30), (1000, 0), (357, 123), (500, -77)] {
        let fwd = drive(s, a, 0);
        let back = drive(s, a + 180, 0);
        assert_eq!(fwd.fl, -back.fl);
        assert_eq!(fwd.fr, -back.fr);
        assert_eq!(fwd.bl, -back.bl);
        assert_eq!(fwd.br, -back.br);
    }
}

#[test]
fn weak_commands_are_boosted_to_stall_threshold() {
    // An intended wheel speed of 1 is boosted away from zero by the stall
    // threshold of 26, ending at 27, which survives the final cutoff.
    let r = drive(10, 0, 0);
    assert_eq!((r.fl, r.fr, r.bl, r.br), (27, -27, 27, -27));
    // A rotation command just strong enough for one unit per wheel.
    let r = drive(0, 0, 22);
    assert_eq!((r.fl, r.fr, r.bl, r.br), (27, 27, 27, 27));
    // Below one unit everything stays exactly zero.
    let r = drive(0, 0, 21);
    assert_eq!((r.fl, r.fr, r.bl, r.br), (0, 0, 0, 0));
}

#[test]
fn wheel_commands_never_exceed_pwm_range() {
    for s in [-1000, -500, 0, 500, 1000] {
        for a in [-180, -90, -45, 0, 30, 90, 135, 180] {
            for rot in [-1000, 0, 1000] {
                let r = drive(s, a, rot);
                for w in [r.fl, r.fr, r.bl, r.br] {
                    assert!(-254 <= w && w <= 254);
                    assert!(w == 0 || w.abs() >= 27);
                }
            }
        }
    }
}

#[test]
fn pid_proportional_and_derivative() {
    let mut pid = PidState::new(200, 70, 1);
    // First sample: proportional only.
    assert_eq!(pid.next_output(3), -600);
    // Second sample: the derivative counteracts the approach.
    assert_eq!(pid.next_output(2), -330);
    // Saturation at one full scale.
    assert_eq!(pid.next_output(100), -1000);
}

#[test]
fn rotation_error_is_normalized() {
    let mut pid = PidState::new(200, 70, 1);
    // Heading 179, target -179: the short way around is -2 degrees.
    let r = rotation_update(&mut pid, -179, 179);
    assert_eq!(r, 400);
}

#[test]
fn translation_full_speed_toward_target() {
    let mut pid = PidState::new(100, 100, 10);
    let coord = Coordinate { x: 910, y: 1500, valid: true };
    let (speed, angle) = speed_angle_update(&mut pid, 910, 1200, coord, 0, false);
    assert_eq!(speed, 1000);
    assert_eq!(angle, 0);
}

#[test]
fn invalid_position_caps_speed() {
    // With an invalid robot position the translation loop still aims at
    // the target but caps the speed at half scale.
    let mut pid = PidState::new(100, 100, 10);
    let coord = Coordinate { x: 910, y: 1500, valid: false };
    let (speed, angle) = speed_angle_update(&mut pid, 910, 1200, coord, 0, false);
    assert_eq!(speed, 500);
    assert_eq!(angle, 0);
}

#[test]
fn target_clamped_into_playable_rectangle() {
    // A field player's deep target in the central lane is clamped to the
    // striker line at y = 1580.
    let mut pid = PidState::new(100, 100, 10);
    let coord = Coordinate { x: 910, y: 1580, valid: true };
    let (speed, _) = speed_angle_update(&mut pid, 910, 2400, coord, 0, false);
    // The clamped target equals the robot position: nothing to do.
    assert_eq!(speed, 0);
    // A goalkeeper in the same spot may still go deeper.
    let mut pid = PidState::new(100, 100, 10);
    let (speed, angle) = speed_angle_update(&mut pid, 910, 2400, coord, 0, true);
    assert_eq!(angle, 180);
    assert_eq!(speed, 1000);
}

#[test]
fn loops_arm_and_disarm_with_the_start_flag() {
    let mut config = Config::default();
    let mut tl = TranslationLoop::new();
    let coord = Coordinate { x: 910, y: 1500, valid: true };

    // Not started: targets arrive but the loop stays disarmed and silent.
    tl.on_target(910, 1200, &config);
    assert!(!tl.armed);
    assert!(tl.on_update(coord, 0, false).is_none());

    // Started: the next target arms the loop and loads the gains.
    config.started = true;
    config.pid2_p = 100;
    config.pid2_d = 100;
    tl.on_target(910, 1200, &config);
    assert!(tl.armed);
    let out = tl.on_update(coord, 0, false).unwrap();
    assert_eq!(out, (1000, 0));

    // Stopping disarms on the next target.
    config.started = false;
    tl.on_target(910, 1200, &config);
    assert!(!tl.armed);
    assert!(tl.on_update(coord, 0, false).is_none());
}

#[test]
fn rotation_loop_follows_heading_changes() {
    let mut config = Config::default();
    config.started = true;
    let mut rl = RotationLoop::new();
    assert!(rl.on_update(10).is_none());
    rl.on_target(0, &config);
    assert!(rl.armed);
    assert_eq!(rl.on_update(3).unwrap(), -600);
    assert_eq!(rl.on_update(2).unwrap(), -330);
    // A fresh target re-arms and clears the derivative history.
    rl.on_target(90, &config);
    assert_eq!(rl.on_update(93).unwrap(), -600);
}

#[test]
fn drive_state_remixes_on_either_input() {
    let mut ds = DriveState::new();
    let r = ds.on_speed_angle(800, 30);
    assert_eq!((r.fl, r.fr, r.bl, r.br), (65, -172, 172, -65));
    let r = ds.on_rotation(0);
    assert_eq!((r.fl, r.fr, r.bl, r.br), (65, -172, 172, -65));
    let r = ds.on_speed_angle(0, 0);
    assert_eq!((r.fl, r.fr, r.bl, r.br), (0, 0, 0, 0));
}
