//! The image normalizer: decodes source bytes, detects the legacy layout
//! by its aspect ratio and converts it to the canonical layout, and applies
//! the fixed color correction.  Every caller that needs a real conversion
//! passes through this one pipeline stage.

use vstd::prelude::*;
use crate::color::{color_correct, corrected};
use crate::convert::{convert_to_canonical, converted};
use crate::decode::{decode_rgba, decode_spec};
use crate::packer::MAX_EDGE;
use crate::pixels::{Image, ImageV};
use crate::SkinError;

verus! {

/// The decoded dimensions the pipeline supports: nonempty, and at most the
/// maximum edge on either side.
pub open spec fn fits(v: ImageV) -> bool {
    1 <= v.width <= MAX_EDGE && 1 <= v.height <= MAX_EDGE
}

/// The layout step of normalization: a legacy image (width twice the
/// height) is converted to the canonical square layout, anything else
/// passes through unchanged.
pub open spec fn relaid(v: ImageV) -> ImageV {
    if v.width == 2 * v.height {
        converted(v)
    } else {
        v
    }
}

/// The normalized image for decoded image `v`: the layout step followed by
/// the fixed color correction.
pub open spec fn normalized(v: ImageV) -> ImageV {
    ImageV {
        width: relaid(v).width,
        height: relaid(v).height,
        pixels: corrected(relaid(v).pixels),
    }
}

/// Decodes `data` and produces the canonical-layout, color-corrected
/// image.  A legacy source comes out square; an already-canonical source
/// keeps its dimensions.  Fails exactly when the bytes do not decode, or
/// when the decoded dimensions are unsupported.
pub fn normalize(data: &Vec<u8>) -> (r: Result<Image, SkinError>)
    ensures
        match r {
            Ok(img) => {
                &&& decode_spec(data@) matches Some(v) && fits(v) && img@ == normalized(v) && (
                v.width == 2 * v.height ==> img@.width == v.width && img@.height == v.width) && (
                v.width != 2 * v.height ==> img@.width == v.width && img@.height == v.height)
                &&& img.wf()
                &&& fits(img@)
            },
            Err(e) => {
                ||| (e == SkinError::Decode && decode_spec(data@) is None)
                ||| (e == SkinError::Dimensions && (decode_spec(data@) matches Some(v) && !fits(
                    v,
                )))
            },
        },
        r is Ok <==> (decode_spec(data@) matches Some(v) && fits(v)),
{
    let decoded = match decode_rgba(data) {
        Ok(d) => d,
        Err(e) => {
            return Err(e);
        },
    };
    if decoded.width < 1 || decoded.width > MAX_EDGE || decoded.height < 1 || decoded.height
        > MAX_EDGE {
        return Err(SkinError::Dimensions);
    }
    let mut img = if decoded.width == 2 * decoded.height {
        convert_to_canonical(&decoded)
    } else {
        decoded
    };
    color_correct(&mut img);
    Ok(img)
}

} // verus!
