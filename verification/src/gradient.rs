//! The gradient generator: a fixed 800×800 image filled from three running
//! byte counters, one per channel, advanced once per visited pixel. Pixels
//! are visited in row-major order, so the pixel visited n-th sits at column
//! `n % 800` of row `n / 800`.

use vstd::prelude::*;

use crate::buffer::ImageBuffer;
use crate::pixel::Pixel;

verus! {

/// One advance of a channel counter: `(c % 255) + 1`. After the first
/// advance a counter stays inside `1..=255`, so the ramp cycles with
/// period 255 rather than 256.
pub open spec fn gradient_step(c: u8) -> u8 {
    (((c as int) % 255) + 1) as u8
}

/// The value of a channel counter that started at `c0`, once `n` pixels have
/// been visited: the pixel visited n-th shows `gradient_channel(c0, n)`.
pub open spec fn gradient_channel(c0: u8, n: nat) -> u8
    decreases n,
{
    if n == 0 {
        c0
    } else {
        gradient_step(gradient_channel(c0, (n - 1) as nat))
    }
}

/// Executable counter advance, proved against [`gradient_step`].
pub fn gradient_step_exec(c: u8) -> (r: u8)
    ensures
        r == gradient_step(c),
{
    (c % 255) + 1
}

/// The closed form of the counter ramp: on every pixel after the first, a
/// channel that started at `c0` shows `((c0 - 1 + n) % 255) + 1`, and a
/// channel that started at 0 shows `((n - 1) % 255) + 1` — the cyclic ramp
/// through `1..=255`.
pub proof fn lemma_gradient_channel_closed_form(c0: u8, n: nat)
    requires
        1 <= n,
    ensures
        gradient_channel(c0, n) as int == if c0 == 0 {
            (n - 1) % 255 + 1
        } else {
            (c0 - 1 + n) % 255 + 1
        },
    decreases n,
{
    if n == 1 {
        assert(gradient_channel(c0, 0) == c0);
        assert(gradient_channel(c0, 1) == gradient_step(c0));
    } else {
        lemma_gradient_channel_closed_form(c0, (n - 1) as nat);
        let a: int = if c0 == 0 {
            n - 2
        } else {
            c0 - 1 + n - 1
        };
        let m: int = a % 255;
        vstd::arithmetic::div_mod::lemma_fundamental_div_mod(a, 255);
        if m == 254 {
            vstd::arithmetic::div_mod::lemma_fundamental_div_mod_converse_mod(
                a + 1,
                255,
                a / 255 + 1,
                0,
            );
        } else {
            vstd::arithmetic::div_mod::lemma_fundamental_div_mod_converse_mod(
                a + 1,
                255,
                a / 255,
                m + 1,
            );
        }
    }
}

/// Generates the 800×800 gradient image from the initial channel values
/// `(r0, g0, b0)`: the pixel visited n-th in row-major order — the one at
/// column `n % 800` of row `n / 800` — carries the three counters after `n`
/// advances.
#[verifier::loop_isolation(false)]
pub fn generate(r0: u8, g0: u8, b0: u8) -> (img: ImageBuffer)
    ensures
        img.wf(),
        img@.width == 800,
        img@.height == 800,
        forall|x: int, y: int|
            0 <= x < 800 && 0 <= y < 800 ==> #[trigger] img@.pix(x, y) == (Pixel {
                r: gradient_channel(r0, (y * 800 + x) as nat),
                g: gradient_channel(g0, (y * 800 + x) as nat),
                b: gradient_channel(b0, (y * 800 + x) as nat),
            }),
{
    let mut cr = r0;
    let mut cg = g0;
    let mut cb = b0;
    let mut rows: Vec<Vec<Pixel>> = Vec::new();
    for y in 0..800usize
        invariant
            rows@.len() == y,
            cr == gradient_channel(r0, (y * 800) as nat),
            cg == gradient_channel(g0, (y * 800) as nat),
            cb == gradient_channel(b0, (y * 800) as nat),
            forall|y2: int| 0 <= y2 < y ==> (#[trigger] rows@[y2])@.len() == 800,
            forall|y2: int, x2: int|
                0 <= y2 < y && 0 <= x2 < 800 ==> #[trigger] rows@[y2]@[x2] == (Pixel {
                    r: gradient_channel(r0, (y2 * 800 + x2) as nat),
                    g: gradient_channel(g0, (y2 * 800 + x2) as nat),
                    b: gradient_channel(b0, (y2 * 800 + x2) as nat),
                }),
    {
        let mut row: Vec<Pixel> = Vec::new();
        for x in 0..800usize
            invariant
                row@.len() == x,
                cr == gradient_channel(r0, (y * 800 + x) as nat),
                cg == gradient_channel(g0, (y * 800 + x) as nat),
                cb == gradient_channel(b0, (y * 800 + x) as nat),
                forall|x2: int|
                    0 <= x2 < x ==> #[trigger] row@[x2] == (Pixel {
                        r: gradient_channel(r0, (y * 800 + x2) as nat),
                        g: gradient_channel(g0, (y * 800 + x2) as nat),
                        b: gradient_channel(b0, (y * 800 + x2) as nat),
                    }),
        {
            row.push(Pixel { r: cr, g: cg, b: cb });
            cr = gradient_step_exec(cr);
            cg = gradient_step_exec(cg);
            cb = gradient_step_exec(cb);
        }
        rows.push(row);
    }
    let img = ImageBuffer { width: 800, height: 800, rows };
    img
}

} // verus!
