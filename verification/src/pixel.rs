//! The pixel model: an ordered triple of 8-bit channels (red, green, blue),
//! with the per-channel operations the transforms are built from.

use vstd::prelude::*;

verus! {

/// One pixel: red, green and blue channels, each a byte.
#[derive(Clone, Copy, PartialEq, Eq, Structural, Debug)]
pub struct Pixel {
    pub r: u8,
    pub g: u8,
    pub b: u8,
}

impl Pixel {
    /// The per-channel complement: every channel `c` becomes `255 - c`.
    pub open spec fn complement(self) -> Pixel {
        Pixel { r: (255 - self.r) as u8, g: (255 - self.g) as u8, b: (255 - self.b) as u8 }
    }

    /// A channel brightened by `delta`, saturating at 0 and 255.
    pub open spec fn brighten_channel(c: u8, delta: int) -> u8 {
        let v = c + delta;
        if v < 0 {
            0u8
        } else if v > 255 {
            255u8
        } else {
            v as u8
        }
    }

    /// The pixel brightened by `delta` on every channel, saturating.
    pub open spec fn brighten(self, delta: int) -> Pixel {
        Pixel {
            r: Pixel::brighten_channel(self.r, delta),
            g: Pixel::brighten_channel(self.g, delta),
            b: Pixel::brighten_channel(self.b, delta),
        }
    }
}

/// The per-channel complement is its own inverse: taking it twice gives the
/// original pixel back, byte for byte.
pub proof fn lemma_complement_involution(p: Pixel)
    ensures
        p.complement().complement() == p,
{
}

/// Executable complement, proved against the spec.
pub fn complement_pixel(p: Pixel) -> (r: Pixel)
    ensures
        r == p.complement(),
{
    Pixel { r: 255 - p.r, g: 255 - p.g, b: 255 - p.b }
}

/// Executable saturating brighten of one pixel.
pub fn brighten_pixel(p: Pixel, delta: i32) -> (r: Pixel)
    ensures
        r == p.brighten(delta as int),
{
    Pixel {
        r: brighten_channel_exec(p.r, delta),
        g: brighten_channel_exec(p.g, delta),
        b: brighten_channel_exec(p.b, delta),
    }
}

fn brighten_channel_exec(c: u8, delta: i32) -> (r: u8)
    ensures
        r == Pixel::brighten_channel(c, delta as int),
{
    let v: i64 = c as i64 + delta as i64;
    if v < 0 {
        0
    } else if v > 255 {
        255
    } else {
        v as u8
    }
}

} // verus!
