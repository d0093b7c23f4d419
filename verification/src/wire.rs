//! The byte protocol between the sensor board and the main board, and the
//! camera's serial frame.
//!
//! Frames are delimited externally (a serial break); within one frame the
//! first byte selects the kind: `1` carries a ranging bundle of eight
//! little-endian 16-bit words, `2` a heading angle as a signed 16-bit word
//! in 1/128-degree steps.  A camera frame starts with `1` and carries four
//! unsigned 16-bit words in 1/128 units.

use vstd::prelude::*;
use crate::data::{CameraData, LidarData, RangingSample};
use crate::num::tdiv;

verus! {

/// The value of a little-endian 16-bit word.
pub open spec fn le16(lo: u8, hi: u8) -> int {
    lo + 256 * hi
}

/// The signed reading of a 16-bit word.
pub open spec fn as_signed16(v: int) -> int {
    if v < 32768 {
        v
    } else {
        v - 65536
    }
}

/// A decoded frame from the sensor board.
#[derive(Clone, Copy, PartialEq, Eq, Structural, Debug)]
pub enum Frame {
    /// A ranging bundle, distances in centimeters.
    Lidar(LidarData),
    /// A heading angle in 1/128-degree steps.
    Heading(i16),
}

/// The ranging bundle a well-formed 17-byte frame carries.
pub open spec fn lidar_of_bytes(s: Seq<u8>) -> LidarData {
    LidarData {
        front: RangingSample { dist: le16(s[1], s[2]) as u16, signal: le16(s[3], s[4]) as u16 },
        left: RangingSample { dist: le16(s[5], s[6]) as u16, signal: le16(s[7], s[8]) as u16 },
        right: RangingSample { dist: le16(s[9], s[10]) as u16, signal: le16(s[11], s[12]) as u16 },
        back: RangingSample { dist: le16(s[13], s[14]) as u16, signal: le16(s[15], s[16]) as u16 },
    }
}

/// What a received frame decodes to, if anything.
pub open spec fn parse_frame_spec(s: Seq<u8>) -> Option<Frame> {
    if s.len() == 17 && s[0] == 1 {
        Some(Frame::Lidar(lidar_of_bytes(s)))
    } else if s.len() == 3 && s[0] == 2 {
        Some(Frame::Heading(as_signed16(le16(s[1], s[2])) as i16))
    } else {
        None
    }
}

/// The 17-byte encoding of a ranging bundle.
pub open spec fn lidar_frame_spec(d: LidarData) -> Seq<u8> {
    seq![
        1u8,
        (d.front.dist as int % 256) as u8,
        (d.front.dist as int / 256) as u8,
        (d.front.signal as int % 256) as u8,
        (d.front.signal as int / 256) as u8,
        (d.left.dist as int % 256) as u8,
        (d.left.dist as int / 256) as u8,
        (d.left.signal as int % 256) as u8,
        (d.left.signal as int / 256) as u8,
        (d.right.dist as int % 256) as u8,
        (d.right.dist as int / 256) as u8,
        (d.right.signal as int % 256) as u8,
        (d.right.signal as int / 256) as u8,
        (d.back.dist as int % 256) as u8,
        (d.back.dist as int / 256) as u8,
        (d.back.signal as int % 256) as u8,
        (d.back.signal as int / 256) as u8,
    ]
}

/// The 3-byte encoding of a heading angle.
pub open spec fn heading_frame_spec(angle: i16) -> Seq<u8> {
    let u = angle as int % 65536;
    seq![2u8, (u % 256) as u8, (u / 256) as u8]
}

/// Splitting a 16-bit word into little-endian bytes and reading it back is
/// the identity.
pub proof fn lemma_le16_roundtrip(v: int)
    requires
        0 <= v < 65536,
    ensures
        le16((v % 256) as u8, (v / 256) as u8) == v,
{
    assert(v % 256 + 256 * (v / 256) == v) by (nonlinear_arith)
        requires 0 <= v < 65536;
    assert(0 <= v % 256 < 256 && 0 <= v / 256 < 256) by (nonlinear_arith)
        requires 0 <= v < 65536;
}

/// A ranging bundle survives the encode/decode round trip.
pub proof fn lemma_lidar_roundtrip(d: LidarData)
    ensures
        parse_frame_spec(lidar_frame_spec(d)) == Some(Frame::Lidar(d)),
{
    let s = lidar_frame_spec(d);
    lemma_le16_roundtrip(d.front.dist as int);
    lemma_le16_roundtrip(d.front.signal as int);
    lemma_le16_roundtrip(d.left.dist as int);
    lemma_le16_roundtrip(d.left.signal as int);
    lemma_le16_roundtrip(d.right.dist as int);
    lemma_le16_roundtrip(d.right.signal as int);
    lemma_le16_roundtrip(d.back.dist as int);
    lemma_le16_roundtrip(d.back.signal as int);
    assert(lidar_of_bytes(s) == d);
}

/// A heading angle survives the encode/decode round trip.
pub proof fn lemma_heading_roundtrip(angle: i16)
    ensures
        parse_frame_spec(heading_frame_spec(angle)) == Some(Frame::Heading(angle)),
{
    let u = angle as int % 65536;
    assert(0 <= angle as int % 65536 < 65536) by (nonlinear_arith);
    lemma_le16_roundtrip(u);
    if angle >= 0 {
        assert(u == angle) by (nonlinear_arith)
            requires u == angle as int % 65536 && 0 <= angle < 32768;
    } else {
        assert(u == angle + 65536) by (nonlinear_arith)
            requires u == angle as int % 65536 && -32768 <= angle < 0;
    }
}

/// Decode one frame from the sensor board.
pub fn parse_frame(buf: &[u8]) -> (r: Option<Frame>)
    ensures
        r == parse_frame_spec(buf@),
{
    if buf.len() == 17 && buf[0] == 1 {
        let d = LidarData {
            front: RangingSample {
                dist: read_le16(buf, 1),
                signal: read_le16(buf, 3),
            },
            left: RangingSample {
                dist: read_le16(buf, 5),
                signal: read_le16(buf, 7),
            },
            right: RangingSample {
                dist: read_le16(buf, 9),
                signal: read_le16(buf, 11),
            },
            back: RangingSample {
                dist: read_le16(buf, 13),
                signal: read_le16(buf, 15),
            },
        };
        Some(Frame::Lidar(d))
    } else if buf.len() == 3 && buf[0] == 2 {
        let u = read_le16(buf, 1);
        let v: i16 = if u < 32768 {
            u as i16
        } else {
            ((u as i32) - 65536) as i16
        };
        Some(Frame::Heading(v))
    } else {
        None
    }
}

/// Encode a ranging bundle for the wire.
pub fn encode_lidar_frame(d: LidarData) -> (r: Vec<u8>)
    ensures
        r@ == lidar_frame_spec(d),
        parse_frame_spec(r@) == Some(Frame::Lidar(d)),
{
    let mut v: Vec<u8> = Vec::new();
    v.push(1);
    push_le16(&mut v, d.front.dist);
    push_le16(&mut v, d.front.signal);
    push_le16(&mut v, d.left.dist);
    push_le16(&mut v, d.left.signal);
    push_le16(&mut v, d.right.dist);
    push_le16(&mut v, d.right.signal);
    push_le16(&mut v, d.back.dist);
    push_le16(&mut v, d.back.signal);
    proof {
        assert(v@ =~= lidar_frame_spec(d));
        lemma_lidar_roundtrip(d);
    }
    v
}

/// Encode a heading angle for the wire.
pub fn encode_heading_frame(angle: i16) -> (r: Vec<u8>)
    ensures
        r@ == heading_frame_spec(angle),
        parse_frame_spec(r@) == Some(Frame::Heading(angle)),
{
    let u: u16 = if angle >= 0 {
        angle as u16
    } else {
        ((angle as i32) + 65536) as u16
    };
    proof {
        assert(u == angle as int % 65536) by (nonlinear_arith)
            requires
                -32768 <= angle <= 32767
                    && u == if angle >= 0 { angle as int } else { angle + 65536 },
        ;
    }
    let mut v: Vec<u8> = Vec::new();
    v.push(2);
    push_le16(&mut v, u);
    proof {
        assert(v@ =~= heading_frame_spec(angle));
        lemma_heading_roundtrip(angle);
    }
    v
}

/// The camera's raw frame, all fields in 1/128 units.
#[derive(Clone, Copy, PartialEq, Eq, Structural, Debug)]
pub struct CameraFrame {
    pub angle: u16,
    pub dist: u16,
    pub goal_angle: u16,
    pub goal_dist: u16,
}

/// The observation a well-formed 9-byte camera frame carries.
pub open spec fn camera_of_bytes(s: Seq<u8>) -> CameraFrame {
    CameraFrame {
        angle: le16(s[1], s[2]) as u16,
        dist: le16(s[3], s[4]) as u16,
        goal_angle: le16(s[5], s[6]) as u16,
        goal_dist: le16(s[7], s[8]) as u16,
    }
}

/// What a camera frame decodes to, if anything.
pub open spec fn parse_camera_spec(s: Seq<u8>) -> Option<CameraFrame> {
    if s.len() == 9 && s[0] == 1 {
        Some(camera_of_bytes(s))
    } else {
        None
    }
}

/// Decode one camera frame.
pub fn parse_camera_frame(buf: &[u8]) -> (r: Option<CameraFrame>)
    ensures
        r == parse_camera_spec(buf@),
{
    if buf.len() == 9 && buf[0] == 1 {
        Some(
            CameraFrame {
                angle: read_le16(buf, 1),
                dist: read_le16(buf, 3),
                goal_angle: read_le16(buf, 5),
                goal_dist: read_le16(buf, 7),
            },
        )
    } else {
        None
    }
}

/// Degrees and millimeters of a camera observation: angles in whole
/// degrees, distances in millimeters, both rounded toward zero.  The
/// not-detected convention `(0, 0)` is preserved for any observation of at
/// least one unit.
pub open spec fn camera_data_spec(f: CameraFrame) -> CameraData {
    CameraData {
        angle: tdiv(f.angle as int, 128) as i32,
        dist: tdiv(f.dist as int * 10, 128) as i32,
        goal_angle: tdiv(f.goal_angle as int, 128) as i32,
        goal_dist: tdiv(f.goal_dist as int * 10, 128) as i32,
    }
}

/// Convert a raw camera frame into the estimator's units.
pub fn camera_data_of(f: CameraFrame) -> (r: CameraData)
    ensures
        r == camera_data_spec(f),
        crate::ball::cam_wf(r),
{
    proof {
        crate::num::lemma_tdiv_bound(f.angle as int, 128);
        crate::num::lemma_tdiv_bound(f.dist as int * 10, 128);
        crate::num::lemma_tdiv_bound(f.goal_angle as int, 128);
        crate::num::lemma_tdiv_bound(f.goal_dist as int * 10, 128);
    }
    let angle: u16 = f.angle / 128;
    let dist: u32 = (f.dist as u32) * 10 / 128;
    let goal_angle: u16 = f.goal_angle / 128;
    let goal_dist: u32 = (f.goal_dist as u32) * 10 / 128;
    CameraData {
        angle: angle as i32,
        dist: dist as i32,
        goal_angle: goal_angle as i32,
        goal_dist: goal_dist as i32,
    }
}

/// The heading the main board publishes for a received angle word: whole
/// degrees, normalized.
pub fn heading_of_q7(angle: i16) -> (r: i32)
    ensures
        r == crate::angles::norm_deg(tdiv(angle as int, 128)),
        -180 < r <= 180,
{
    let deg: i32 = if angle >= 0 {
        (angle as i32) / 128
    } else {
        -((-(angle as i32)) / 128)
    };
    crate::angles::clamp_angle(deg)
}

/// The angle word the sensor board sends for a heading in whole degrees.
pub fn q7_of_heading(deg: i32) -> (r: i16)
    requires
        -180 < deg <= 180,
    ensures
        r == deg * 128,
{
    (deg * 128) as i16
}

fn read_le16(buf: &[u8], i: usize) -> (r: u16)
    requires
        i + 1 < buf@.len(),
    ensures
        r == le16(buf@[i as int], buf@[i + 1]),
{
    (buf[i] as u16) + 256 * (buf[i + 1] as u16)
}

fn push_le16(v: &mut Vec<u8>, x: u16)
    ensures
        final(v)@ == old(v)@ + seq![(x as int % 256) as u8, (x as int / 256) as u8],
{
    proof {
        assert(0 <= x as int % 256 < 256 && 0 <= x as int / 256 < 256) by (nonlinear_arith)
            requires 0 <= x < 65536;
    }
    let lo: u8 = (x % 256) as u8;
    let hi: u8 = (x / 256) as u8;
    v.push(lo);
    v.push(hi);
}

} // verus!
