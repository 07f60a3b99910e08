//! Conversion from the legacy layout (width twice the height) to the
//! canonical square layout: the source occupies the top half unchanged,
//! and the limb regions missing from the legacy layout are synthesized in
//! the bottom half by mirroring the corresponding existing regions,
//! following a fixed table of rectangles on the standard 16-unit grid.

use vstd::prelude::*;
use crate::pixels::{
    img_from, lemma_img_from_pointwise, lemma_rowmajor_lt, px_at, transparent, Image, ImageV,
    Pixel,
};

verus! {

/// Source position for one synthesized rectangle.  Coordinates are in grid
/// units of `u` pixels: when `(x, y)` lies in the destination rectangle of
/// size `rw x rh` units at `(dx0, dy0)`, the pixel comes from the source
/// rectangle at `(sx0, sy0)`, mirrored horizontally.
pub open spec fn region_map(
    u: int,
    x: int,
    y: int,
    sx0: int,
    sy0: int,
    dx0: int,
    dy0: int,
    rw: int,
    rh: int,
) -> Option<(int, int)> {
    if dx0 * u <= x < (dx0 + rw) * u && dy0 * u <= y < (dy0 + rh) * u {
        Some((sx0 * u + (rw * u - 1 - (x - dx0 * u)), sy0 * u + (y - dy0 * u)))
    } else {
        None
    }
}

/// The fixed synthesis table for the bottom half, tried in order: the left
/// leg is mirrored from the right leg, the left arm from the right arm,
/// face by face.  `None` where no rectangle covers `(x, y)`.
pub open spec fn bottom_src(u: int, x: int, y: int) -> Option<(int, int)> {
    if region_map(u, x, y, 1, 4, 5, 12, 1, 1) is Some {
        region_map(u, x, y, 1, 4, 5, 12, 1, 1)
    } else if region_map(u, x, y, 2, 4, 6, 12, 1, 1) is Some {
        region_map(u, x, y, 2, 4, 6, 12, 1, 1)
    } else if region_map(u, x, y, 0, 5, 6, 13, 1, 3) is Some {
        region_map(u, x, y, 0, 5, 6, 13, 1, 3)
    } else if region_map(u, x, y, 1, 5, 5, 13, 1, 3) is Some {
        region_map(u, x, y, 1, 5, 5, 13, 1, 3)
    } else if region_map(u, x, y, 2, 5, 4, 13, 1, 3) is Some {
        region_map(u, x, y, 2, 5, 4, 13, 1, 3)
    } else if region_map(u, x, y, 3, 5, 7, 13, 1, 3) is Some {
        region_map(u, x, y, 3, 5, 7, 13, 1, 3)
    } else if region_map(u, x, y, 11, 4, 9, 12, 1, 1) is Some {
        region_map(u, x, y, 11, 4, 9, 12, 1, 1)
    } else if region_map(u, x, y, 12, 4, 10, 12, 1, 1) is Some {
        region_map(u, x, y, 12, 4, 10, 12, 1, 1)
    } else if region_map(u, x, y, 10, 5, 10, 13, 1, 3) is Some {
        region_map(u, x, y, 10, 5, 10, 13, 1, 3)
    } else if region_map(u, x, y, 11, 5, 9, 13, 1, 3) is Some {
        region_map(u, x, y, 11, 5, 9, 13, 1, 3)
    } else if region_map(u, x, y, 12, 5, 8, 13, 1, 3) is Some {
        region_map(u, x, y, 12, 5, 8, 13, 1, 3)
    } else if region_map(u, x, y, 13, 5, 11, 13, 1, 3) is Some {
        region_map(u, x, y, 13, 5, 11, 13, 1, 3)
    } else {
        None
    }
}

/// Pixel `(x, y)` of the canonical image derived from legacy image `v`:
/// the source itself in the top half, a mirrored source pixel where the
/// synthesis table covers the bottom half, transparent elsewhere.
pub open spec fn convert_px(v: ImageV, x: int, y: int) -> Pixel {
    let w = v.width as int;
    let u = w / 16;
    if y < v.height {
        px_at(v.pixels, w, x, y)
    } else {
        match bottom_src(u, x, y) {
            Some(s) => px_at(v.pixels, w, s.0, s.1),
            None => transparent(),
        }
    }
}

/// The canonical square image derived from a legacy-layout image.
pub open spec fn converted(v: ImageV) -> ImageV {
    img_from(v.width, v.width, |x: int, y: int| convert_px(v, x, y))
}

/// Tests one synthesis rectangle, in executable form.
fn region_try(
    u: u32,
    x: u32,
    y: u32,
    sx0: u32,
    sy0: u32,
    dx0: u32,
    dy0: u32,
    rw: u32,
    rh: u32,
) -> (r: Option<(u32, u32)>)
    requires
        u <= 64,
        sx0 <= 13,
        sy0 <= 5,
        dx0 <= 11,
        dy0 <= 13,
        rw == 1,
        1 <= rh <= 3,
    ensures
        match r {
            Some(s) => region_map(
                u as int,
                x as int,
                y as int,
                sx0 as int,
                sy0 as int,
                dx0 as int,
                dy0 as int,
                rw as int,
                rh as int,
            ) == Some((s.0 as int, s.1 as int)) && s.0 < (sx0 + rw) * u && s.1 < (sy0 + rh) * u,
            None => region_map(
                u as int,
                x as int,
                y as int,
                sx0 as int,
                sy0 as int,
                dx0 as int,
                dy0 as int,
                rw as int,
                rh as int,
            ) is None,
        },
{
    proof {
        assert((dx0 + rw) * u == dx0 * u + rw * u && (dy0 + rh) * u == dy0 * u + rh * u
            && (sx0 + rw) * u == sx0 * u + rw * u && (sy0 + rh) * u == sy0 * u + rh * u
            && dx0 * u <= 704 && rw * u <= 64 && dy0 * u <= 832 && rh * u <= 192 && sx0 * u <= 832
            && sy0 * u <= 320) by (nonlinear_arith)
            requires u <= 64, sx0 <= 13, sy0 <= 5, dx0 <= 11, dy0 <= 13, rw == 1, 1 <= rh <= 3;
    }
    if dx0 * u <= x && x < (dx0 + rw) * u && dy0 * u <= y && y < (dy0 + rh) * u {
        Some((sx0 * u + (rw * u - 1 - (x - dx0 * u)), sy0 * u + (y - dy0 * u)))
    } else {
        None
    }
}

/// Walks the synthesis table in order, in executable form.
fn region_lookup(u: u32, x: u32, y: u32) -> (r: Option<(u32, u32)>)
    requires
        u <= 64,
    ensures
        match r {
            Some(s) => bottom_src(u as int, x as int, y as int) == Some(
                (s.0 as int, s.1 as int),
            ) && s.0 < 14 * u && s.1 < 8 * u,
            None => bottom_src(u as int, x as int, y as int) is None,
        },
{
    if let Some(s) = region_try(u, x, y, 1, 4, 5, 12, 1, 1) {
        return Some(s);
    }
    if let Some(s) = region_try(u, x, y, 2, 4, 6, 12, 1, 1) {
        return Some(s);
    }
    if let Some(s) = region_try(u, x, y, 0, 5, 6, 13, 1, 3) {
        return Some(s);
    }
    if let Some(s) = region_try(u, x, y, 1, 5, 5, 13, 1, 3) {
        return Some(s);
    }
    if let Some(s) = region_try(u, x, y, 2, 5, 4, 13, 1, 3) {
        return Some(s);
    }
    if let Some(s) = region_try(u, x, y, 3, 5, 7, 13, 1, 3) {
        return Some(s);
    }
    if let Some(s) = region_try(u, x, y, 11, 4, 9, 12, 1, 1) {
        return Some(s);
    }
    if let Some(s) = region_try(u, x, y, 12, 4, 10, 12, 1, 1) {
        return Some(s);
    }
    if let Some(s) = region_try(u, x, y, 10, 5, 10, 13, 1, 3) {
        return Some(s);
    }
    if let Some(s) = region_try(u, x, y, 11, 5, 9, 13, 1, 3) {
        return Some(s);
    }
    if let Some(s) = region_try(u, x, y, 12, 5, 8, 13, 1, 3) {
        return Some(s);
    }
    if let Some(s) = region_try(u, x, y, 13, 5, 11, 13, 1, 3) {
        return Some(s);
    }
    None
}

/// Computes one pixel of the canonical image.
fn convert_pixel(src: &Image, x: u32, y: u32) -> (p: Pixel)
    requires
        src.wf(),
        src@.width == 2 * src@.height,
        1 <= src@.height,
        src@.width <= 1024,
        x < src@.width,
        y < src@.width,
    ensures
        p == convert_px(src@, x as int, y as int),
{
    let u = src.width / 16;
    if y < src.height {
        src.get_px(x, y)
    } else {
        match region_lookup(u, x, y) {
            Some(s) => {
                proof {
                    assert(16 * ((src@.width as int) / 16) <= src@.width as int);
                }
                src.get_px(s.0, s.1)
            },
            None => Pixel { r: 0, g: 0, b: 0, a: 0 },
        }
    }
}

/// Converts a legacy-layout image (width twice the height) to the
/// canonical square layout.
pub fn convert_to_canonical(src: &Image) -> (r: Image)
    requires
        src.wf(),
        src@.width == 2 * src@.height,
        1 <= src@.height,
        src@.width <= 1024,
    ensures
        r.wf(),
        r@ == converted(src@),
        r@.width == src@.width,
        r@.height == src@.width,
{
    let w = src.width;
    let mut out: Vec<u8> = Vec::new();
    let mut y: u32 = 0;
    while y < w
        invariant
            src.wf(),
            src@.width == 2 * src@.height,
            1 <= src@.height,
            src@.width <= 1024,
            w == src@.width,
            y <= w,
            out@.len() == 4 * (y * w),
            forall|yy: int, xx: int|
                0 <= yy < y && 0 <= xx < w ==> #[trigger] px_at(out@, w as int, xx, yy)
                    == convert_px(src@, xx, yy),
        decreases w - y,
    {
        let mut x: u32 = 0;
        while x < w
            invariant
                src.wf(),
                src@.width == 2 * src@.height,
                1 <= src@.height,
                src@.width <= 1024,
                w == src@.width,
                y < w,
                x <= w,
                out@.len() == 4 * (y * w + x),
                forall|yy: int, xx: int|
                    0 <= yy < w && 0 <= xx < w && (yy < y || (yy == y && xx < x))
                        ==> #[trigger] px_at(out@, w as int, xx, yy) == convert_px(src@, xx, yy),
            decreases w - x,
        {
            let ghost before = out@;
            let p = convert_pixel(src, x, y);
            out.push(p.r);
            out.push(p.g);
            out.push(p.b);
            out.push(p.a);
            proof {
                assert forall|yy: int, xx: int|
                    0 <= yy < w && 0 <= xx < w && (yy < y || (yy == y && xx < x + 1))
                        implies #[trigger] px_at(out@, w as int, xx, yy) == convert_px(
                        src@,
                        xx,
                        yy,
                    ) by {
                    if yy < y || xx < x {
                        lemma_rowmajor_lt(w as int, xx, yy, x as int, y as int);
                        assert(px_at(out@, w as int, xx, yy) == px_at(before, w as int, xx, yy));
                    } else {
                        assert(out@[4 * (y * w + x) as int] == p.r);
                    }
                }
            }
            x = x + 1;
        }
        proof {
            assert(((y + 1) as int) * (w as int) == (y as int) * (w as int) + (w as int))
                by (nonlinear_arith);
        }
        y = y + 1;
    }
    proof {
        assert(out@.len() == 4 * w * w) by (nonlinear_arith)
            requires out@.len() == 4 * ((w as int) * (w as int));
        lemma_img_from_pointwise(
            src@.width,
            src@.width,
            |xx: int, yy: int| convert_px(src@, xx, yy),
            out@,
        );
    }
    let r = Image { width: w, height: w, pixels: out };
    proof {
        assert(r@.pixels =~= converted(src@).pixels);
        assert(r@ == converted(src@));
    }
    r
}

} // verus!
