use soccer_core::config::Config;
use soccer_core::data::{Coordinate, LidarData, RangingSample};
use soccer_core::led::wheel;
use soccer_core::logger::{available_buffer_size, UpChannel, MODE_BLOCK_IF_FULL, MODE_NON_BLOCKING_TRIM};
use soccer_core::store::Store;
use soccer_core::wire::{
    camera_data_of, encode_heading_frame, encode_lidar_frame, heading_of_q7, parse_camera_frame,
    parse_frame, q7_of_heading, CameraFrame, Frame,
};

fn bundle() -> LidarData {
    LidarData {
        front: RangingSample { dist: 100, signal: 900 },
        left: RangingSample { dist: 80, signal: 901 },
        right: RangingSample { dist: 102, signal: 902 },
        back: RangingSample { dist: 140, signal: 65535 },
    }
}

#[test]
fn lidar_frame_round_trip() {
    let encoded = encode_lidar_frame(bundle());
    assert_eq!(encoded.len(), 17);
    assert_eq!(encoded[0], 1);
    match parse_frame(&encoded) {
        Some(Frame::Lidar(d)) => assert_eq!(d, bundle()),
        other => panic!("unexpected frame: {:?}", other),
    }
}

#[test]
fn heading_frame_round_trip() {
    for angle in [0i16, 1, -1, 23040, -22912, 32767, -32768] {
        let encoded = encode_heading_frame(angle);
        assert_eq!(encoded.len(), 3);
        assert_eq!(encoded[0], 2);
        match parse_frame(&encoded) {
            Some(Frame::Heading(a)) => assert_eq!(a, angle),
            other => panic!("unexpected frame: {:?}", other),
        }
    }
}

#[test]
fn malformed_frames_are_rejected() {
    assert!(parse_frame(&[]).is_none());
    assert!(parse_frame(&[3, 0, 0]).is_none());
    // A ranging frame of the wrong length.
    assert!(parse_frame(&[1, 0, 0]).is_none());
    // A heading frame of the wrong length.
    let long = [2u8; 17];
    assert!(parse_frame(&long).is_none());
}

#[test]
fn camera_frame_parsing_and_units() {
    // angle = 30 * 128, dist = 30 cm * 128, goal not detected.
    let buf = [1u8, 0, 15, 0, 15, 0, 0, 0, 0];
    let frame = parse_camera_frame(&buf).unwrap();
    assert_eq!(
        frame,
        CameraFrame { angle: 3840, dist: 3840, goal_angle: 0, goal_dist: 0 },
    );
    let data = camera_data_of(frame);
    assert_eq!(data.angle, 30);
    assert_eq!(data.dist, 300);
    assert_eq!(data.goal_angle, 0);
    assert_eq!(data.goal_dist, 0);
    assert!(parse_camera_frame(&buf[..8]).is_none());
    assert!(parse_camera_frame(&[2u8; 9]).is_none());
}

#[test]
fn heading_word_conversions() {
    assert_eq!(q7_of_heading(180), 23040);
    assert_eq!(q7_of_heading(-179), -22912);
    assert_eq!(heading_of_q7(23040), 180);
    assert_eq!(heading_of_q7(-22912), -179);
    assert_eq!(heading_of_q7(0), 0);
    // 90.5 degrees truncates to 90.
    assert_eq!(heading_of_q7(11584), 90);
}

#[test]
fn ring_buffer_free_space() {
    assert_eq!(available_buffer_size(0, 0), 4095);
    assert_eq!(available_buffer_size(100, 50), 49);
    assert_eq!(available_buffer_size(0, 4095), 0);
    assert_eq!(available_buffer_size(50, 100), 3996);
}

#[test]
fn blocking_writes_respect_free_space() {
    let mut ch = UpChannel::new(MODE_BLOCK_IF_FULL);
    assert!(ch.host_is_connected());
    let payload = vec![7u8; 4095];
    assert_eq!(ch.blocking_write(&payload), 4095);
    assert_eq!(ch.write, 4095);
    // The ring keeps one byte free: a full ring accepts nothing more.
    assert_eq!(ch.blocking_write(&[1, 2, 3]), 0);
    // Flushing waits for the host; afterwards the ring is drained.
    ch.flush();
    assert_eq!(ch.read, ch.write);
    // One byte fits before the write cursor wraps, then the rest follows.
    assert_eq!(ch.blocking_write(&[1, 2, 3]), 1);
    assert_eq!(ch.buffer[4095], 1);
    assert_eq!(ch.write, 0);
    assert_eq!(ch.blocking_write(&[2, 3]), 2);
    assert_eq!(ch.buffer[0], 2);
    assert_eq!(ch.buffer[1], 3);
}

#[test]
fn nonblocking_writes_trim() {
    let mut ch = UpChannel::new(MODE_NON_BLOCKING_TRIM);
    assert!(!ch.host_is_connected());
    let payload = vec![9u8; 5000];
    // Without a host, one call consumes at most a full ring.
    assert_eq!(ch.nonblocking_write(&payload), 4096);
    assert_eq!(ch.write, 0);
    // Flushing without a host is a no-op.
    let read_before = ch.read;
    ch.flush();
    assert_eq!(ch.read, read_before);
}

#[test]
fn color_wheel_endpoints() {
    let c = wheel(0);
    assert_eq!((c.r, c.g, c.b), (255, 0, 0));
    let c = wheel(100);
    assert_eq!((c.r, c.g, c.b), (0, 210, 45));
    let c = wheel(200);
    assert_eq!((c.r, c.g, c.b), (90, 0, 165));
    let c = wheel(255);
    assert_eq!((c.r, c.g, c.b), (255, 0, 0));
}

#[test]
fn store_fields_are_independent() {
    let mut store = Store::new();
    assert!(!store.coordinate.valid);
    store.set_heading(90);
    store.set_coordinate(Coordinate { x: 1000, y: 1030, valid: true });
    store.set_ball(Coordinate { x: 910, y: 400, valid: true });
    assert_eq!(store.heading, 90);
    assert_eq!(store.coordinate.x, 1000);
    assert!(store.ball.valid);
    assert!(!store.goal.valid);
    store.set_goal(Coordinate { x: 910, y: 250, valid: true });
    assert_eq!(store.coordinate.y, 1030);
}

#[test]
fn stock_configuration() {
    let c = Config::default();
    assert!(!c.started);
    assert!(!c.goalie);
    assert_eq!((c.pid_p, c.pid_d, c.pid2_p, c.pid2_d), (200, 70, 100, 100));
    assert!(!c.print_imu);
}
