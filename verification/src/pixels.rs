//! The pixel-buffer model shared by the whole pipeline: an RGBA image as a
//! flat row-major byte buffer, its mathematical view, and the lemmas that
//! connect per-pixel reasoning to the flat buffer.

use vstd::prelude::*;
use vstd::arithmetic::div_mod::{
    lemma_div_denominator, lemma_div_pos_is_pos, lemma_fundamental_div_mod,
    lemma_mod_division_less_than_divisor, lemma_multiply_divide_lt,
};

verus! {

/// One RGBA pixel, four 8-bit channels.
#[derive(Clone, Copy, PartialEq, Eq, Structural, Debug)]
pub struct Pixel {
    pub r: u8,
    pub g: u8,
    pub b: u8,
    pub a: u8,
}

/// The fully transparent pixel used where a synthesized region has no source.
pub open spec fn transparent() -> Pixel {
    Pixel { r: 0, g: 0, b: 0, a: 0 }
}

/// Mathematical view of an image: dimensions plus the flat byte buffer.
pub ghost struct ImageV {
    pub width: nat,
    pub height: nat,
    pub pixels: Seq<u8>,
}

impl ImageV {
    /// The buffer holds exactly four bytes per pixel.
    pub open spec fn wf(self) -> bool {
        self.pixels.len() == 4 * self.width * self.height
    }
}

/// An RGBA pixel buffer in row-major order, four bytes per pixel.
#[derive(Debug)]
pub struct Image {
    pub width: u32,
    pub height: u32,
    pub pixels: Vec<u8>,
}

impl View for Image {
    type V = ImageV;

    open spec fn view(&self) -> ImageV {
        ImageV { width: self.width as nat, height: self.height as nat, pixels: self.pixels@ }
    }
}

impl Image {
    pub open spec fn wf(self) -> bool {
        self@.wf()
    }

    /// Reads the pixel at `(x, y)`.
    pub fn get_px(&self, x: u32, y: u32) -> (p: Pixel)
        requires
            self.wf(),
            x < self.width,
            y < self.height,
        ensures
            p == px_at(self@.pixels, self@.width as int, x as int, y as int),
    {
        let n = self.pixels.len();
        proof {
            lemma_rowmajor_bound(self@.width as int, self@.height as int, x as int, y as int);
            assert(px_index(self@.width as int, x as int, y as int) + 4 <= n);
        }
        let i: usize = 4 * ((y as usize) * (self.width as usize) + (x as usize));
        Pixel { r: self.pixels[i], g: self.pixels[i + 1], b: self.pixels[i + 2], a: self.pixels[i + 3] }
    }
}

/// Byte offset of the first channel of the pixel at `(x, y)` in a buffer
/// of width `w`.
pub open spec fn px_index(w: int, x: int, y: int) -> int {
    4 * (y * w + x)
}

/// The pixel stored at `(x, y)` in flat buffer `s` of width `w`.
pub open spec fn px_at(s: Seq<u8>, w: int, x: int, y: int) -> Pixel {
    Pixel {
        r: s[px_index(w, x, y)],
        g: s[px_index(w, x, y) + 1],
        b: s[px_index(w, x, y) + 2],
        a: s[px_index(w, x, y) + 3],
    }
}

/// Channel `c` of a pixel, in buffer order.
pub open spec fn channel_of(p: Pixel, c: int) -> u8 {
    if c == 0 {
        p.r
    } else if c == 1 {
        p.g
    } else if c == 2 {
        p.b
    } else {
        p.a
    }
}

/// The image whose pixel at `(x, y)` is `f(x, y)`, as a flat buffer.
pub open spec fn img_from(w: nat, h: nat, f: spec_fn(int, int) -> Pixel) -> ImageV {
    ImageV {
        width: w,
        height: h,
        pixels: Seq::new(
            4 * w * h,
            |i: int| channel_of(f((i / 4) % (w as int), i / (4 * w as int)), i % 4),
        ),
    }
}

/// In row-major order, an earlier pixel has a strictly smaller index.
pub proof fn lemma_rowmajor_lt(w: int, x1: int, y1: int, x2: int, y2: int)
    requires
        0 <= x1 < w,
        0 <= x2,
        0 <= y1,
        y1 < y2 || (y1 == y2 && x1 < x2),
    ensures
        y1 * w + x1 < y2 * w + x2,
{
    if y1 < y2 {
        assert(y1 * w + w <= y2 * w) by (nonlinear_arith)
            requires y1 < y2, 0 < w;
    }
}

/// Every pixel's four channels lie inside a well-formed buffer.
pub proof fn lemma_rowmajor_bound(w: int, h: int, x: int, y: int)
    requires
        0 <= x < w,
        0 <= y < h,
    ensures
        0 <= px_index(w, x, y),
        px_index(w, x, y) + 4 <= 4 * w * h,
{
    assert(0 <= y * w + x && 4 * (y * w + x) + 4 <= 4 * w * h) by (nonlinear_arith)
        requires 0 <= x < w, 0 <= y < h;
}

/// A flat buffer that agrees with `f` on every pixel is exactly the buffer
/// of the image built from `f`.
pub proof fn lemma_img_from_pointwise(w: nat, h: nat, f: spec_fn(int, int) -> Pixel, s: Seq<u8>)
    requires
        w >= 1,
        s.len() == 4 * w * h,
        forall|x: int, y: int| 0 <= x < w && 0 <= y < h ==> #[trigger] px_at(s, w as int, x, y) == f(x, y),
    ensures
        s =~= img_from(w, h, f).pixels,
{
    let t = img_from(w, h, f).pixels;
    let wi = w as int;
    let hi = h as int;
    assert forall|i: int| 0 <= i < s.len() implies s[i] == t[i] by {
        let x = (i / 4) % wi;
        let y = i / (4 * wi);
        let c = i % 4;
        lemma_fundamental_div_mod(i, 4);
        lemma_fundamental_div_mod(i / 4, wi);
        lemma_div_denominator(i, 4, wi);
        lemma_div_pos_is_pos(i, 4);
        lemma_div_pos_is_pos(i, 4 * wi);
        lemma_mod_division_less_than_divisor(i / 4, wi);
        lemma_mod_division_less_than_divisor(i, 4);
        assert(i < (4 * wi) * hi) by (nonlinear_arith)
            requires i < 4 * w * h, w == wi, h == hi, w >= 1;
        lemma_multiply_divide_lt(i, 4 * wi, hi);
        assert(i / 4 == wi * y + x);
        assert(i == 4 * (wi * y) + 4 * x + c) by (nonlinear_arith)
            requires i == 4 * (i / 4) + c, i / 4 == wi * y + x;
        assert(y * wi == wi * y) by (nonlinear_arith);
        assert(i == px_index(wi, x, y) + c);
        assert(px_at(s, wi, x, y) == f(x, y));
        assert(s[i] == channel_of(f(x, y), c));
    }
}

} // verus!
