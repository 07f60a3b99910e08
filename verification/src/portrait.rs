//! Portrait generator: composites a normalized image onto a fixed mask
//! under an affine placement (translation plus a per-mille scale).  Three
//! portrait variants share this algorithm, each with its own mask and
//! placement constants.

use vstd::prelude::*;
use crate::pixels::{
    img_from, lemma_img_from_pointwise, lemma_rowmajor_lt, px_at, Image, ImageV, Pixel,
};

verus! {

/// Largest supported mask edge, in pixels.
pub const MAX_MASK_EDGE: u32 = 4096;

/// Placement of the source within the mask's coordinate space: a
/// translation in output pixels and a scale in parts per thousand.
#[derive(Clone, Copy, PartialEq, Eq, Structural, Debug)]
pub struct Placement {
    pub dx: i32,
    pub dy: i32,
    pub scale_pm: u32,
}

/// The placement is usable: the scale is nonzero and the translation is
/// small enough for exact arithmetic.
pub open spec fn placement_wf(pl: Placement) -> bool {
    1 <= pl.scale_pm
}

/// Source coordinate for output offset `t` under translation `d` and
/// per-mille scale `pm`.
pub open spec fn back_coord(t: int, d: int, pm: int) -> int {
    ((t - d) * 1000) / pm
}

/// Pixel `(x, y)` of the portrait: the source pixel where the placement
/// maps `(x, y)` into the source and that pixel is opaque enough,
/// otherwise the mask's own pixel.
pub open spec fn portrait_px(base: ImageV, mask: ImageV, pl: Placement, x: int, y: int) -> Pixel {
    let sx = back_coord(x, pl.dx as int, pl.scale_pm as int);
    let sy = back_coord(y, pl.dy as int, pl.scale_pm as int);
    let m = px_at(mask.pixels, mask.width as int, x, y);
    if pl.dx <= x && pl.dy <= y && sx < base.width && sy < base.height {
        let s = px_at(base.pixels, base.width as int, sx, sy);
        if s.a >= 128 {
            s
        } else {
            m
        }
    } else {
        m
    }
}

/// The portrait image for `base` composited against `mask` under `pl`.
pub open spec fn portrait_of(base: ImageV, mask: ImageV, pl: Placement) -> ImageV {
    img_from(mask.width, mask.height, |x: int, y: int| portrait_px(base, mask, pl, x, y))
}

/// Computes one portrait pixel.
fn portrait_pixel(base: &Image, mask: &Image, pl: Placement, x: u32, y: u32) -> (p: Pixel)
    requires
        base.wf(),
        mask.wf(),
        placement_wf(pl),
        x < mask@.width,
        y < mask@.height,
        mask@.width <= MAX_MASK_EDGE,
        mask@.height <= MAX_MASK_EDGE,
    ensures
        p == portrait_px(base@, mask@, pl, x as int, y as int),
{
    let m = mask.get_px(x, y);
    let tx: i64 = x as i64 - pl.dx as i64;
    let ty: i64 = y as i64 - pl.dy as i64;
    if tx >= 0 && ty >= 0 {
        let sx: u64 = ((tx as u64) * 1000) / (pl.scale_pm as u64);
        let sy: u64 = ((ty as u64) * 1000) / (pl.scale_pm as u64);
        if sx < base.width as u64 && sy < base.height as u64 {
            let s = base.get_px(sx as u32, sy as u32);
            if s.a >= 128 {
                s
            } else {
                m
            }
        } else {
            m
        }
    } else {
        m
    }
}

/// Generates one portrait variant: output dimensions are the mask's.
pub fn gen_portrait(base: &Image, mask: &Image, pl: Placement) -> (r: Image)
    requires
        base.wf(),
        mask.wf(),
        placement_wf(pl),
        1 <= mask@.width <= MAX_MASK_EDGE,
        1 <= mask@.height <= MAX_MASK_EDGE,
    ensures
        r.wf(),
        r@ == portrait_of(base@, mask@, pl),
        r@.width == mask@.width,
        r@.height == mask@.height,
{
    let w = mask.width;
    let h = mask.height;
    let mut out: Vec<u8> = Vec::new();
    let mut y: u32 = 0;
    while y < h
        invariant
            base.wf(),
            mask.wf(),
            placement_wf(pl),
            1 <= mask@.width <= MAX_MASK_EDGE,
            1 <= mask@.height <= MAX_MASK_EDGE,
            w == mask@.width,
            h == mask@.height,
            y <= h,
            out@.len() == 4 * (y * w),
            forall|yy: int, xx: int|
                0 <= yy < y && 0 <= xx < w ==> #[trigger] px_at(out@, w as int, xx, yy)
                    == portrait_px(base@, mask@, pl, xx, yy),
        decreases h - y,
    {
        let mut x: u32 = 0;
        while x < w
            invariant
                base.wf(),
                mask.wf(),
                placement_wf(pl),
                1 <= mask@.width <= MAX_MASK_EDGE,
                1 <= mask@.height <= MAX_MASK_EDGE,
                w == mask@.width,
                h == mask@.height,
                y < h,
                x <= w,
                out@.len() == 4 * (y * w + x),
                forall|yy: int, xx: int|
                    0 <= yy < h && 0 <= xx < w && (yy < y || (yy == y && xx < x))
                        ==> #[trigger] px_at(out@, w as int, xx, yy) == portrait_px(
                        base@,
                        mask@,
                        pl,
                        xx,
                        yy,
                    ),
            decreases w - x,
        {
            let ghost before = out@;
            let p = portrait_pixel(base, mask, pl, x, y);
            out.push(p.r);
            out.push(p.g);
            out.push(p.b);
            out.push(p.a);
            proof {
                assert forall|yy: int, xx: int|
                    0 <= yy < h && 0 <= xx < w && (yy < y || (yy == y && xx < x + 1))
                        implies #[trigger] px_at(out@, w as int, xx, yy) == portrait_px(
                    base@,
                    mask@,
                    pl,
                    xx,
                    yy,
                ) by {
                    if yy < y || xx < x {
                        lemma_rowmajor_lt(w as int, xx, yy, x as int, y as int);
                        assert(px_at(out@, w as int, xx, yy) == px_at(before, w as int, xx, yy));
                    } else {
                        assert(out@[4 * (y * w + x) as int] == p.r);
                    }
                }
            }
            x = x + 1;
        }
        proof {
            assert(((y + 1) as int) * (w as int) == (y as int) * (w as int) + (w as int))
                by (nonlinear_arith);
        }
        y = y + 1;
    }
    proof {
        assert(out@.len() == 4 * mask@.width * mask@.height) by (nonlinear_arith)
            requires
                out@.len() == 4 * ((h as int) * (w as int)),
                w == mask@.width,
                h == mask@.height,
        ;
        lemma_img_from_pointwise(
            mask@.width,
            mask@.height,
            |xx: int, yy: int| portrait_px(base@, mask@, pl, xx, yy),
            out@,
        );
    }
    let r = Image { width: w, height: h, pixels: out };
    proof {
        assert(r@.pixels =~= portrait_of(base@, mask@, pl).pixels);
        assert(r@ == portrait_of(base@, mask@, pl));
    }
    r
}

} // verus!
