//! The status LED's color wheel: positions 0 to 255 walk once around the
//! hue circle through red, blue and green.

use vstd::prelude::*;

verus! {

/// An 8-bit RGB color.
#[derive(Clone, Copy, PartialEq, Eq, Structural, Debug)]
pub struct Rgb8 {
    pub r: u8,
    pub g: u8,
    pub b: u8,
}

/// The color at a wheel position.
pub open spec fn wheel_spec(pos: int) -> (int, int, int) {
    let p = 255 - pos;
    if p < 85 {
        (255 - p * 3, 0, p * 3)
    } else if p < 170 {
        (0, (p - 85) * 3, 255 - (p - 85) * 3)
    } else {
        ((p - 170) * 3, 255 - (p - 170) * 3, 0)
    }
}

/// The color at a wheel position.
pub fn wheel(wheel_pos: u8) -> (c: Rgb8)
    ensures
        (c.r as int, c.g as int, c.b as int) == wheel_spec(wheel_pos as int),
{
    let p: u8 = 255 - wheel_pos;
    if p < 85 {
        Rgb8 { r: 255 - p * 3, g: 0, b: p * 3 }
    } else if p < 170 {
        let q = p - 85;
        Rgb8 { r: 0, g: q * 3, b: 255 - q * 3 }
    } else {
        let q = p - 170;
        Rgb8 { r: q * 3, g: 255 - q * 3, b: 0 }
    }
}

} // verus!
