//! Icon generator: derives the fixed-size icon from a normalized image by
//! resampling the head region, with its overlay, into the canonical
//! portrait composition.  A pure function of the input pixels.

use vstd::prelude::*;
use crate::pixels::{
    img_from, lemma_img_from_pointwise, lemma_rowmajor_lt, px_at, transparent, Image, ImageV,
    Pixel,
};

verus! {

/// Edge of the generated icon, in pixels.
pub const ICON_EDGE: u32 = 64;

/// Nearest-sample coordinate on the head region (2 grid units wide,
/// starting at grid unit 2) for icon position `t`.
pub open spec fn head_sample(w: int, t: int) -> int {
    let u = w / 16;
    2 * u + (t * (2 * u)) / 64
}

/// Nearest-sample coordinate on the overlay region (2 grid units wide,
/// starting at grid unit 10) for icon position `t`.
pub open spec fn overlay_sample(w: int, t: int) -> int {
    let u = w / 16;
    10 * u + (t * (2 * u)) / 64
}

/// Pixel `(x, y)` of the icon derived from normalized image `v`: the
/// overlay pixel where it is opaque enough, else the head pixel;
/// transparent where the sample row falls outside the source.
pub open spec fn icon_px(v: ImageV, x: int, y: int) -> Pixel {
    let w = v.width as int;
    let sx = head_sample(w, x);
    let sy = head_sample(w, y);
    let ox = overlay_sample(w, x);
    if sy < v.height {
        let over = px_at(v.pixels, w, ox, sy);
        if over.a >= 128 {
            over
        } else {
            px_at(v.pixels, w, sx, sy)
        }
    } else {
        transparent()
    }
}

/// The icon image derived from normalized image `v`.
pub open spec fn icon_of(v: ImageV) -> ImageV {
    img_from(ICON_EDGE as nat, ICON_EDGE as nat, |x: int, y: int| icon_px(v, x, y))
}

/// Computes one icon pixel.
fn icon_pixel(base: &Image, x: u32, y: u32) -> (p: Pixel)
    requires
        base.wf(),
        1 <= base@.width <= 1024,
        x < ICON_EDGE,
        y < ICON_EDGE,
    ensures
        p == icon_px(base@, x as int, y as int),
{
    let u = base.width / 16;
    proof {
        assert(x * (2 * u) <= 63 * 128 && y * (2 * u) <= 63 * 128) by (nonlinear_arith)
            requires x < 64, y < 64, u <= 64, x >= 0, y >= 0, u >= 0;
        assert((x as int) * (2 * (u as int)) / 64 < 2 * u || u == 0) by (nonlinear_arith)
            requires x < 64, u >= 0, u == base@.width as int / 16;
        assert((y as int) * (2 * (u as int)) / 64 < 2 * u || u == 0) by (nonlinear_arith)
            requires y < 64, u >= 0;
        assert(16 * ((base@.width as int) / 16) <= base@.width as int);
    }
    let sx = 2 * u + (x * (2 * u)) / 64;
    let sy = 2 * u + (y * (2 * u)) / 64;
    let ox = 10 * u + (x * (2 * u)) / 64;
    if sy < base.height {
        let over = base.get_px(ox, sy);
        if over.a >= 128 {
            over
        } else {
            base.get_px(sx, sy)
        }
    } else {
        Pixel { r: 0, g: 0, b: 0, a: 0 }
    }
}

/// Generates the fixed-size icon from a normalized image.
pub fn gen_icon(base: &Image) -> (r: Image)
    requires
        base.wf(),
        1 <= base@.width <= 1024,
    ensures
        r.wf(),
        r@ == icon_of(base@),
        r@.width == ICON_EDGE,
        r@.height == ICON_EDGE,
{
    let mut out: Vec<u8> = Vec::new();
    let mut y: u32 = 0;
    while y < ICON_EDGE
        invariant
            base.wf(),
            1 <= base@.width <= 1024,
            y <= ICON_EDGE,
            out@.len() == 4 * (y * ICON_EDGE),
            forall|yy: int, xx: int|
                0 <= yy < y && 0 <= xx < ICON_EDGE ==> #[trigger] px_at(
                    out@,
                    ICON_EDGE as int,
                    xx,
                    yy,
                ) == icon_px(base@, xx, yy),
        decreases ICON_EDGE - y,
    {
        let mut x: u32 = 0;
        while x < ICON_EDGE
            invariant
                base.wf(),
                1 <= base@.width <= 1024,
                y < ICON_EDGE,
                x <= ICON_EDGE,
                out@.len() == 4 * (y * ICON_EDGE + x),
                forall|yy: int, xx: int|
                    0 <= yy < ICON_EDGE && 0 <= xx < ICON_EDGE && (yy < y || (yy == y && xx < x))
                        ==> #[trigger] px_at(out@, ICON_EDGE as int, xx, yy) == icon_px(
                        base@,
                        xx,
                        yy,
                    ),
            decreases ICON_EDGE - x,
        {
            let ghost before = out@;
            let p = icon_pixel(base, x, y);
            out.push(p.r);
            out.push(p.g);
            out.push(p.b);
            out.push(p.a);
            proof {
                assert forall|yy: int, xx: int|
                    0 <= yy < ICON_EDGE && 0 <= xx < ICON_EDGE && (yy < y || (yy == y && xx < x
                        + 1)) implies #[trigger] px_at(out@, ICON_EDGE as int, xx, yy) == icon_px(
                    base@,
                    xx,
                    yy,
                ) by {
                    if yy < y || xx < x {
                        lemma_rowmajor_lt(ICON_EDGE as int, xx, yy, x as int, y as int);
                        assert(px_at(out@, ICON_EDGE as int, xx, yy) == px_at(
                            before,
                            ICON_EDGE as int,
                            xx,
                            yy,
                        ));
                    } else {
                        assert(out@[4 * (y * ICON_EDGE + x) as int] == p.r);
                    }
                }
            }
            x = x + 1;
        }
        y = y + 1;
    }
    proof {
        lemma_img_from_pointwise(
            ICON_EDGE as nat,
            ICON_EDGE as nat,
            |xx: int, yy: int| icon_px(base@, xx, yy),
            out@,
        );
    }
    let r = Image { width: ICON_EDGE, height: ICON_EDGE, pixels: out };
    proof {
        assert(r@.pixels =~= icon_of(base@).pixels);
        assert(r@ == icon_of(base@));
    }
    r
}

} // verus!
