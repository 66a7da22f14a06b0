//! The image-buffer model: a width×height grid of RGB pixels, row-major with
//! the origin at the top left, together with its mathematical view and the
//! exact transforms (rotate, invert, brighten, grayscale, crop).

use vstd::prelude::*;

use crate::dispatch::RotateDegrees;
use crate::pixel::Pixel;

verus! {

/// The mathematical view of an image: its dimensions and its pixel grid as a
/// sequence of rows, each row a sequence of pixels.
#[verifier::ext_equal]
pub struct ImgView {
    pub width: int,
    pub height: int,
    pub rows: Seq<Seq<Pixel>>,
}

impl ImgView {
    /// A well-formed view: non-negative dimensions, one row per scanline,
    /// every row exactly `width` pixels wide.
    pub open spec fn wf(self) -> bool {
        &&& 0 <= self.width
        &&& 0 <= self.height
        &&& self.rows.len() == self.height
        &&& forall|y: int| 0 <= y < self.height ==> (#[trigger] self.rows[y]).len() == self.width
    }

    /// The pixel at column `x` of row `y`.
    pub open spec fn pix(self, x: int, y: int) -> Pixel {
        self.rows[y][x]
    }

    /// The image rotated 90 degrees clockwise: a source pixel at `(x, y)`
    /// lands at column `height - 1 - y`, row `x` of the result.
    pub open spec fn rotate90(self) -> ImgView {
        ImgView {
            width: self.height,
            height: self.width,
            rows: Seq::new(
                self.width as nat,
                |yy: int| Seq::new(self.height as nat, |xx: int| self.pix(yy, self.height - 1 - xx)),
            ),
        }
    }

    /// The image rotated 180 degrees: both coordinates are mirrored.
    pub open spec fn rotate180(self) -> ImgView {
        ImgView {
            width: self.width,
            height: self.height,
            rows: Seq::new(
                self.height as nat,
                |yy: int|
                    Seq::new(
                        self.width as nat,
                        |xx: int| self.pix(self.width - 1 - xx, self.height - 1 - yy),
                    ),
            ),
        }
    }

    /// The image rotated 270 degrees clockwise (90 counter-clockwise).
    pub open spec fn rotate270(self) -> ImgView {
        ImgView {
            width: self.height,
            height: self.width,
            rows: Seq::new(
                self.width as nat,
                |yy: int| Seq::new(self.height as nat, |xx: int| self.pix(self.width - 1 - yy, xx)),
            ),
        }
    }

    /// Every pixel replaced by its per-channel complement.
    pub open spec fn invert(self) -> ImgView {
        ImgView {
            width: self.width,
            height: self.height,
            rows: Seq::new(
                self.height as nat,
                |yy: int| Seq::new(self.width as nat, |xx: int| self.pix(xx, yy).complement()),
            ),
        }
    }

    /// Every pixel brightened by `delta`, saturating at 0 and 255.
    pub open spec fn brighten(self, delta: int) -> ImgView {
        ImgView {
            width: self.width,
            height: self.height,
            rows: Seq::new(
                self.height as nat,
                |yy: int| Seq::new(self.width as nat, |xx: int| self.pix(xx, yy).brighten(delta)),
            ),
        }
    }

    /// Every pixel replaced by its luminance on all three channels.
    pub open spec fn grayscale(self) -> ImgView {
        ImgView {
            width: self.width,
            height: self.height,
            rows: Seq::new(
                self.height as nat,
                |yy: int| Seq::new(self.width as nat, |xx: int| gray_pixel(self.pix(xx, yy))),
            ),
        }
    }

    /// The `w` × `h` sub-image whose top-left corner sits at `(x, y)`.
    pub open spec fn crop(self, x: int, y: int, w: int, h: int) -> ImgView {
        ImgView {
            width: w,
            height: h,
            rows: Seq::new(
                h as nat,
                |yy: int| Seq::new(w as nat, |xx: int| self.pix(x + xx, y + yy)),
            ),
        }
    }
}

/// The luminance of a pixel: the sRGB-weighted average
/// `(2126·r + 7152·g + 722·b) / 10000`, rounded towards zero.
pub open spec fn luma(p: Pixel) -> u8 {
    ((2126 * p.r + 7152 * p.g + 722 * p.b) / 10000) as u8
}

/// A pixel desaturated to its luminance: all three channels equal `luma(p)`.
pub open spec fn gray_pixel(p: Pixel) -> Pixel {
    Pixel { r: luma(p), g: luma(p), b: luma(p) }
}

/// An owned image buffer. The executable counterpart of [`ImgView`]: the
/// pixel grid is held as one `Vec` of rows.
pub struct ImageBuffer {
    pub width: usize,
    pub height: usize,
    pub rows: Vec<Vec<Pixel>>,
}

impl View for ImageBuffer {
    type V = ImgView;

    open spec fn view(&self) -> ImgView {
        ImgView {
            width: self.width as int,
            height: self.height as int,
            rows: Seq::new(self.rows@.len() as nat, |y: int| self.rows@[y]@),
        }
    }
}

impl ImageBuffer {
    /// A well-formed buffer is one whose view is well formed.
    pub open spec fn wf(&self) -> bool {
        self@.wf()
    }

    /// The width in pixels.
    pub fn width(&self) -> (w: usize)
        ensures
            w == self@.width,
    {
        self.width
    }

    /// The height in pixels.
    pub fn height(&self) -> (h: usize)
        ensures
            h == self@.height,
    {
        self.height
    }

    /// The pixel at column `x` of row `y`.
    pub fn get(&self, x: usize, y: usize) -> (p: Pixel)
        requires
            self.wf(),
            x < self@.width,
            y < self@.height,
        ensures
            p == self@.pix(x as int, y as int),
    {
        proof {
            assert(self@.rows[y as int] == self.rows@[y as int]@);
            assert(self@.rows[y as int].len() == self@.width);
        }
        self.rows[y][x]
    }

    /// Builds a buffer from a flat, row-major pixel sequence. Returns a
    /// buffer exactly when the sequence has one pixel per grid cell.
    #[verifier::loop_isolation(false)]
    pub fn from_pixels(width: usize, height: usize, pixels: &Vec<Pixel>) -> (r: Option<
        ImageBuffer,
    >)
        ensures
            r is Some <==> pixels@.len() == width * height,
            r matches Some(img) ==> {
                &&& img.wf()
                &&& img@.width == width
                &&& img@.height == height
                &&& forall|x: int, y: int|
                    0 <= x < width && 0 <= y < height ==> img@.pix(x, y) == pixels@[y * width + x]
            },
    {
        let len = pixels.len();
        let total = match width.checked_mul(height) {
            Some(n) => n,
            None => {
                return None;
            },
        };
        if len != total {
            return None;
        }
        let mut rows: Vec<Vec<Pixel>> = Vec::new();
        let mut idx: usize = 0;
        proof {
            assert(0 * width == 0) by (nonlinear_arith);
        }
        for y in 0..height
            invariant
                idx == y * width,
                rows@.len() == y,
                forall|y2: int| 0 <= y2 < y ==> (#[trigger] rows@[y2])@.len() == width,
                forall|y2: int, x2: int|
                    0 <= y2 < y && 0 <= x2 < width ==> #[trigger] rows@[y2]@[x2] == pixels@[y2
                        * width + x2],
        {
            let mut row: Vec<Pixel> = Vec::new();
            for x in 0..width
                invariant
                    idx == y * width + x,
                    row@.len() == x,
                    forall|x2: int| 0 <= x2 < x ==> #[trigger] row@[x2] == pixels@[y * width + x2],
            {
                proof {
                    assert(y * width + x < width * height) by (nonlinear_arith)
                        requires
                            0 <= y < height,
                            0 <= x < width,
                    ;
                }
                row.push(pixels[idx]);
                idx = idx + 1;
            }
            proof {
                assert(y * width + width == (y + 1) * width) by (nonlinear_arith);
            }
            rows.push(row);
        }
        let img = ImageBuffer { width, height, rows };
        Some(img)
    }

    /// A copy of the image rotated 90 degrees clockwise.
    #[verifier::loop_isolation(false)]
    pub fn rotate90(&self) -> (r: ImageBuffer)
        requires
            self.wf(),
        ensures
            r.wf(),
            r@ == self@.rotate90(),
    {
        let out_w: usize = self.height;
        let out_h: usize = self.width;
        let mut rows: Vec<Vec<Pixel>> = Vec::new();
        for yy in 0..out_h
            invariant
                rows@.len() == yy,
                forall|y2: int| 0 <= y2 < yy ==> (#[trigger] rows@[y2])@.len() == out_w,
                forall|y2: int, x2: int|
                    0 <= y2 < yy && 0 <= x2 < out_w ==> #[trigger] rows@[y2]@[x2] == self@.pix(
                        y2,
                        self@.height - 1 - x2,
                    ),
        {
            let mut row: Vec<Pixel> = Vec::new();
            for xx in 0..out_w
                invariant
                    row@.len() == xx,
                    forall|x2: int|
                        0 <= x2 < xx ==> #[trigger] row@[x2] == self@.pix(
                            yy as int,
                            self@.height - 1 - x2,
                        ),
            {
                row.push(self.get(yy, self.height - 1 - xx));
            }
            rows.push(row);
        }
        let r = ImageBuffer { width: out_w, height: out_h, rows };
        proof {
            assert(r@ =~~= self@.rotate90());
        }
        r
    }

    /// A copy of the image rotated 180 degrees.
    #[verifier::loop_isolation(false)]
    pub fn rotate180(&self) -> (r: ImageBuffer)
        requires
            self.wf(),
        ensures
            r.wf(),
            r@ == self@.rotate180(),
    {
        let out_w: usize = self.width;
        let out_h: usize = self.height;
        let mut rows: Vec<Vec<Pixel>> = Vec::new();
        for yy in 0..out_h
            invariant
                rows@.len() == yy,
                forall|y2: int| 0 <= y2 < yy ==> (#[trigger] rows@[y2])@.len() == out_w,
                forall|y2: int, x2: int|
                    0 <= y2 < yy && 0 <= x2 < out_w ==> #[trigger] rows@[y2]@[x2] == self@.pix(
                        self@.width - 1 - x2,
                        self@.height - 1 - y2,
                    ),
        {
            let mut row: Vec<Pixel> = Vec::new();
            for xx in 0..out_w
                invariant
                    row@.len() == xx,
                    forall|x2: int|
                        0 <= x2 < xx ==> #[trigger] row@[x2] == self@.pix(
                            self@.width - 1 - x2,
                            self@.height - 1 - yy,
                        ),
            {
                row.push(self.get(self.width - 1 - xx, self.height - 1 - yy));
            }
            rows.push(row);
        }
        let r = ImageBuffer { width: out_w, height: out_h, rows };
        proof {
            assert(r@ =~~= self@.rotate180());
        }
        r
    }

    /// A copy of the image rotated 270 degrees clockwise.
    #[verifier::loop_isolation(false)]
    pub fn rotate270(&self) -> (r: ImageBuffer)
        requires
            self.wf(),
        ensures
            r.wf(),
            r@ == self@.rotate270(),
    {
        let out_w: usize = self.height;
        let out_h: usize = self.width;
        let mut rows: Vec<Vec<Pixel>> = Vec::new();
        for yy in 0..out_h
            invariant
                rows@.len() == yy,
                forall|y2: int| 0 <= y2 < yy ==> (#[trigger] rows@[y2])@.len() == out_w,
                forall|y2: int, x2: int|
                    0 <= y2 < yy && 0 <= x2 < out_w ==> #[trigger] rows@[y2]@[x2] == self@.pix(
                        self@.width - 1 - y2,
                        x2,
                    ),
        {
            let mut row: Vec<Pixel> = Vec::new();
            for xx in 0..out_w
                invariant
                    row@.len() == xx,
                    forall|x2: int|
                        0 <= x2 < xx ==> #[trigger] row@[x2] == self@.pix(
                            self@.width - 1 - yy,
                            x2,
                        ),
            {
                row.push(self.get(self.width - 1 - yy, xx));
            }
            rows.push(row);
        }
        let r = ImageBuffer { width: out_w, height: out_h, rows };
        proof {
            assert(r@ =~~= self@.rotate270());
        }
        r
    }

    /// A copy of the image with every pixel complemented per channel.
    #[verifier::loop_isolation(false)]
    pub fn invert(&self) -> (r: ImageBuffer)
        requires
            self.wf(),
        ensures
            r.wf(),
            r@ == self@.invert(),
    {
        let out_w: usize = self.width;
        let out_h: usize = self.height;
        let mut rows: Vec<Vec<Pixel>> = Vec::new();
        for yy in 0..out_h
            invariant
                rows@.len() == yy,
                forall|y2: int| 0 <= y2 < yy ==> (#[trigger] rows@[y2])@.len() == out_w,
                forall|y2: int, x2: int|
                    0 <= y2 < yy && 0 <= x2 < out_w ==> #[trigger] rows@[y2]@[x2] == self@.pix(
                        x2,
                        y2,
                    ).complement(),
        {
            let mut row: Vec<Pixel> = Vec::new();
            for xx in 0..out_w
                invariant
                    row@.len() == xx,
                    forall|x2: int|
                        0 <= x2 < xx ==> #[trigger] row@[x2] == self@.pix(x2, yy as int).complement(),
            {
                row.push(crate::pixel::complement_pixel(self.get(xx, yy)));
            }
            rows.push(row);
        }
        let r = ImageBuffer { width: out_w, height: out_h, rows };
        proof {
            assert(r@ =~~= self@.invert());
        }
        r
    }

    /// A copy of the image with every pixel brightened by `delta`,
    /// saturating at 0 and 255 per channel.
    #[verifier::loop_isolation(false)]
    pub fn brighten(&self, delta: i32) -> (r: ImageBuffer)
        requires
            self.wf(),
        ensures
            r.wf(),
            r@ == self@.brighten(delta as int),
    {
        let out_w: usize = self.width;
        let out_h: usize = self.height;
        let mut rows: Vec<Vec<Pixel>> = Vec::new();
        for yy in 0..out_h
            invariant
                rows@.len() == yy,
                forall|y2: int| 0 <= y2 < yy ==> (#[trigger] rows@[y2])@.len() == out_w,
                forall|y2: int, x2: int|
                    0 <= y2 < yy && 0 <= x2 < out_w ==> #[trigger] rows@[y2]@[x2] == self@.pix(
                        x2,
                        y2,
                    ).brighten(delta as int),
        {
            let mut row: Vec<Pixel> = Vec::new();
            for xx in 0..out_w
                invariant
                    row@.len() == xx,
                    forall|x2: int|
                        0 <= x2 < xx ==> #[trigger] row@[x2] == self@.pix(x2, yy as int).brighten(
                            delta as int,
                        ),
            {
                row.push(crate::pixel::brighten_pixel(self.get(xx, yy), delta));
            }
            rows.push(row);
        }
        let r = ImageBuffer { width: out_w, height: out_h, rows };
        proof {
            assert(r@ =~~= self@.brighten(delta as int));
        }
        r
    }

    /// A copy of the image desaturated: every pixel carries its luminance on
    /// all three channels.
    #[verifier::loop_isolation(false)]
    pub fn grayscale(&self) -> (r: ImageBuffer)
        requires
            self.wf(),
        ensures
            r.wf(),
            r@ == self@.grayscale(),
    {
        let out_w: usize = self.width;
        let out_h: usize = self.height;
        let mut rows: Vec<Vec<Pixel>> = Vec::new();
        for yy in 0..out_h
            invariant
                rows@.len() == yy,
                forall|y2: int| 0 <= y2 < yy ==> (#[trigger] rows@[y2])@.len() == out_w,
                forall|y2: int, x2: int|
                    0 <= y2 < yy && 0 <= x2 < out_w ==> #[trigger] rows@[y2]@[x2] == gray_pixel(
                        self@.pix(x2, y2),
                    ),
        {
            let mut row: Vec<Pixel> = Vec::new();
            for xx in 0..out_w
                invariant
                    row@.len() == xx,
                    forall|x2: int|
                        0 <= x2 < xx ==> #[trigger] row@[x2] == gray_pixel(
                            self@.pix(x2, yy as int),
                        ),
            {
                row.push(gray_pixel_exec(self.get(xx, yy)));
            }
            rows.push(row);
        }
        let r = ImageBuffer { width: out_w, height: out_h, rows };
        proof {
            assert(r@ =~~= self@.grayscale());
        }
        r
    }

    /// The `w` × `h` sub-image whose top-left corner sits at `(x, y)`.
    /// The rectangle must lie inside the source image.
    #[verifier::loop_isolation(false)]
    pub fn crop(&self, x: usize, y: usize, w: usize, h: usize) -> (r: ImageBuffer)
        requires
            self.wf(),
            x + w <= self@.width,
            y + h <= self@.height,
        ensures
            r.wf(),
            r@ == self@.crop(x as int, y as int, w as int, h as int),
    {
        let mut rows: Vec<Vec<Pixel>> = Vec::new();
        for yy in 0..h
            invariant
                rows@.len() == yy,
                forall|y2: int| 0 <= y2 < yy ==> (#[trigger] rows@[y2])@.len() == w,
                forall|y2: int, x2: int|
                    0 <= y2 < yy && 0 <= x2 < w ==> #[trigger] rows@[y2]@[x2] == self@.pix(
                        x + x2,
                        y + y2,
                    ),
        {
            let mut row: Vec<Pixel> = Vec::new();
            for xx in 0..w
                invariant
                    row@.len() == xx,
                    forall|x2: int|
                        0 <= x2 < xx ==> #[trigger] row@[x2] == self@.pix(x + x2, y + yy),
            {
                row.push(self.get(x + xx, y + yy));
            }
            rows.push(row);
        }
        let r = ImageBuffer { width: w, height: h, rows };
        proof {
            assert(r@ =~~= self@.crop(x as int, y as int, w as int, h as int));
        }
        r
    }

    /// A copy of the image rotated clockwise by the given fixed angle.
    pub fn rotate(&self, degrees: RotateDegrees) -> (r: ImageBuffer)
        requires
            self.wf(),
        ensures
            r.wf(),
            r@ == (match degrees {
                RotateDegrees::R90 => self@.rotate90(),
                RotateDegrees::R180 => self@.rotate180(),
                RotateDegrees::R270 => self@.rotate270(),
            }),
    {
        match degrees {
            RotateDegrees::R90 => self.rotate90(),
            RotateDegrees::R180 => self.rotate180(),
            RotateDegrees::R270 => self.rotate270(),
        }
    }

    /// Flattens the image to raw row-major RGB bytes: three bytes per pixel,
    /// red first.
    #[verifier::loop_isolation(false)]
    pub fn to_raw(&self) -> (bytes: Vec<u8>)
        requires
            self.wf(),
        ensures
            bytes@.len() == 3 * self@.width * self@.height,
            forall|x: int, y: int|
                0 <= x < self@.width && 0 <= y < self@.height ==> {
                    let p = #[trigger] self@.pix(x, y);
                    let i = 3 * (y * self@.width + x);
                    &&& bytes@[i] == p.r
                    &&& bytes@[i + 1] == p.g
                    &&& bytes@[i + 2] == p.b
                },
    {
        let w = self.width;
        let h = self.height;
        let mut bytes: Vec<u8> = Vec::new();
        proof {
            assert(0 * w == 0) by (nonlinear_arith);
        }
        for y in 0..h
            invariant
                bytes@.len() == 3 * (y * w),
                forall|x2: int, y2: int|
                    0 <= x2 < w && 0 <= y2 < y ==> {
                        let p = #[trigger] self@.pix(x2, y2);
                        let i = 3 * (y2 * w + x2);
                        &&& bytes@[i] == p.r
                        &&& bytes@[i + 1] == p.g
                        &&& bytes@[i + 2] == p.b
                    },
        {
            for x in 0..w
                invariant
                    bytes@.len() == 3 * (y * w + x),
                    forall|x2: int, y2: int|
                        0 <= x2 < w && 0 <= y2 < y ==> {
                            let p = #[trigger] self@.pix(x2, y2);
                            let i = 3 * (y2 * w + x2);
                            &&& bytes@[i] == p.r
                            &&& bytes@[i + 1] == p.g
                            &&& bytes@[i + 2] == p.b
                        },
                    forall|x2: int|
                        0 <= x2 < x ==> {
                            let p = #[trigger] self@.pix(x2, y as int);
                            let i = 3 * (y * w + x2);
                            &&& bytes@[i] == p.r
                            &&& bytes@[i + 1] == p.g
                            &&& bytes@[i + 2] == p.b
                        },
            {
                proof {
                    assert forall|x2: int, y2: int| 0 <= x2 < w && 0 <= y2 < y implies #[trigger] (3
                        * (y2 * w + x2)) + 2 < 3 * (y * w + x) by {
                        assert(y2 * w + x2 < y * w + x) by (nonlinear_arith)
                            requires
                                0 <= x2 < w,
                                0 <= y2 < y,
                                0 <= x,
                        ;
                    }
                }
                let p = self.get(x, y);
                bytes.push(p.r);
                bytes.push(p.g);
                bytes.push(p.b);
            }
            proof {
                assert(y * w + w == (y + 1) * w) by (nonlinear_arith);
            }
        }
        proof {
            assert(3 * (h * w) == 3 * self@.width * self@.height) by (nonlinear_arith)
                requires
                    w == self@.width,
                    h == self@.height,
            ;
        }
        bytes
    }

    /// Builds a buffer from raw row-major RGB bytes, three bytes per pixel.
    /// Returns a buffer exactly when the byte count matches the dimensions.
    #[verifier::loop_isolation(false)]
    pub fn from_raw(width: usize, height: usize, bytes: &Vec<u8>) -> (r: Option<ImageBuffer>)
        ensures
            r is Some <==> bytes@.len() == 3 * width * height,
            r matches Some(img) ==> {
                &&& img.wf()
                &&& img@.width == width
                &&& img@.height == height
                &&& forall|x: int, y: int|
                    0 <= x < width && 0 <= y < height ==> {
                        let i = 3 * (y * width + x);
                        #[trigger] img@.pix(x, y) == (Pixel {
                            r: bytes@[i],
                            g: bytes@[i + 1],
                            b: bytes@[i + 2],
                        })
                    }
            },
    {
        let len = bytes.len();
        let n = match width.checked_mul(height) {
            Some(n) => n,
            None => {
                proof {
                    assert(len < 3 * width * height) by (nonlinear_arith)
                        requires
                            len < width * height,
                            0 <= width,
                            0 <= height,
                    ;
                }
                return None;
            },
        };
        let total = match n.checked_mul(3) {
            Some(t) => t,
            None => {
                proof {
                    assert(3 * (width * height) == 3 * width * height) by (nonlinear_arith);
                }
                return None;
            },
        };
        proof {
            assert(3 * (width * height) == 3 * width * height) by (nonlinear_arith);
        }
        if len != total {
            return None;
        }
        let mut pixels: Vec<Pixel> = Vec::new();
        let mut j: usize = 0;
        for i in 0..n
            invariant
                j == 3 * i,
                pixels@.len() == i,
                forall|k: int|
                    0 <= k < i ==> #[trigger] pixels@[k] == (Pixel {
                        r: bytes@[3 * k],
                        g: bytes@[3 * k + 1],
                        b: bytes@[3 * k + 2],
                    }),
        {
            let p = Pixel { r: bytes[j], g: bytes[j + 1], b: bytes[j + 2] };
            pixels.push(p);
            j = j + 3;
        }
        let img = match ImageBuffer::from_pixels(width, height, &pixels) {
            Some(img) => img,
            None => {
                return None;
            },
        };
        proof {
            assert forall|x: int, y: int| 0 <= x < width && 0 <= y < height implies {
                let i = 3 * (y * width + x);
                #[trigger] img@.pix(x, y) == (Pixel {
                    r: bytes@[i],
                    g: bytes@[i + 1],
                    b: bytes@[i + 2],
                })
            } by {
                assert(0 <= y * width + x < width * height) by (nonlinear_arith)
                    requires
                        0 <= x < width,
                        0 <= y < height,
                ;
            }
        }
        Some(img)
    }

    /// Like [`ImageBuffer::crop`], but checks the rectangle itself: it
    /// returns a sub-image exactly when the rectangle lies inside the source,
    /// and `None` otherwise.
    pub fn try_crop(&self, x: usize, y: usize, w: usize, h: usize) -> (r: Option<ImageBuffer>)
        requires
            self.wf(),
        ensures
            r is Some <==> x + w <= self@.width && y + h <= self@.height,
            r matches Some(img) ==> img.wf() && img@ == self@.crop(
                x as int,
                y as int,
                w as int,
                h as int,
            ),
    {
        if x <= self.width && w <= self.width - x && y <= self.height && h <= self.height - y {
            Some(self.crop(x, y, w, h))
        } else {
            None
        }
    }
}

/// Rotating an image by 90 degrees four times gives back a pixel-identical
/// image: on every well-formed view, four clockwise quarter turns are the
/// identity.
pub proof fn lemma_rotate90_four_times(v: ImgView)
    requires
        v.wf(),
    ensures
        v.rotate90().rotate90().rotate90().rotate90() == v,
{
    assert(v.rotate90().rotate90().rotate90().rotate90() =~~= v);
}

/// Inverting an image twice gives back the original pixel values exactly:
/// the per-channel complement is its own inverse.
pub proof fn lemma_invert_involution(v: ImgView)
    requires
        v.wf(),
    ensures
        v.invert().invert() == v,
{
    assert(v.invert().invert() =~~= v);
}

/// Executable luminance of one pixel, proved against [`luma`].
pub fn luma_exec(p: Pixel) -> (l: u8)
    ensures
        l == luma(p),
{
    ((2126 * (p.r as u32) + 7152 * (p.g as u32) + 722 * (p.b as u32)) / 10000) as u8
}

/// Executable desaturation of one pixel, proved against [`gray_pixel`].
pub fn gray_pixel_exec(p: Pixel) -> (r: Pixel)
    ensures
        r == gray_pixel(p),
{
    let l = luma_exec(p);
    Pixel { r: l, g: l, b: l }
}

} // verus!
