//! The fractal generator's integer part: the 800×800 canvas with its red and
//! blue background ramps, assembled around a plane of green channel values.
//! The green plane itself is the escape-time count of the complex iteration
//! `z ← z² + (-0.4 + 0.6i)`, a floating-point computation that the caller
//! supplies one byte per pixel, row-major.

use vstd::prelude::*;

use crate::buffer::ImageBuffer;
use crate::pixel::Pixel;

verus! {

/// The red background channel at column `x`: `floor(0.3 · x)`, which for
/// integer `x` is exactly `3x / 10`, truncated to a byte. For `x < 800` the
/// value is at most 239, so nothing is lost in the truncation.
pub open spec fn fractal_red(x: int) -> u8 {
    ((3 * x) / 10) as u8
}

/// The blue background channel at row `y`: `floor(0.3 · y)` truncated to a
/// byte, exactly as [`fractal_red`].
pub open spec fn fractal_blue(y: int) -> u8 {
    ((3 * y) / 10) as u8
}

/// Assembles the 800×800 fractal image. `greens` holds the escape-time
/// iteration count of each pixel, row-major, one byte per pixel; the pixel
/// at `(x, y)` carries the background ramps on red and blue and
/// `greens[y·800 + x]` on green.
#[verifier::loop_isolation(false)]
pub fn fractal_image(greens: &Vec<u8>) -> (img: ImageBuffer)
    requires
        greens@.len() == 640000,
    ensures
        img.wf(),
        img@.width == 800,
        img@.height == 800,
        forall|x: int, y: int|
            0 <= x < 800 && 0 <= y < 800 ==> #[trigger] img@.pix(x, y) == (Pixel {
                r: fractal_red(x),
                g: greens@[y * 800 + x],
                b: fractal_blue(y),
            }),
{
    let mut rows: Vec<Vec<Pixel>> = Vec::new();
    let mut idx: usize = 0;
    for y in 0..800usize
        invariant
            rows@.len() == y,
            idx == y * 800,
            forall|y2: int| 0 <= y2 < y ==> (#[trigger] rows@[y2])@.len() == 800,
            forall|y2: int, x2: int|
                0 <= y2 < y && 0 <= x2 < 800 ==> #[trigger] rows@[y2]@[x2] == (Pixel {
                    r: fractal_red(x2),
                    g: greens@[y2 * 800 + x2],
                    b: fractal_blue(y2),
                }),
    {
        let blue = ((3 * y) / 10) as u8;
        let mut row: Vec<Pixel> = Vec::new();
        for x in 0..800usize
            invariant
                row@.len() == x,
                idx == y * 800 + x,
                forall|x2: int|
                    0 <= x2 < x ==> #[trigger] row@[x2] == (Pixel {
                        r: fractal_red(x2),
                        g: greens@[y * 800 + x2],
                        b: fractal_blue(y as int),
                    }),
        {
            let red = ((3 * x) / 10) as u8;
            row.push(Pixel { r: red, g: greens[idx], b: blue });
            idx = idx + 1;
        }
        rows.push(row);
    }
    let img = ImageBuffer { width: 800, height: 800, rows };
    img
}

} // verus!
