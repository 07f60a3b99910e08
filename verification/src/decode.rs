//! Decoding of source image bytes into raw RGBA pixels, through the
//! `image` crate.  The wrapper pins the decoder to the PNG path, which
//! consults no global registry, so the result is a function of the input
//! bytes alone and is modelled by an uninterpreted name.

use vstd::prelude::*;
use crate::pixels::Image;
use crate::pixels::ImageV;
use crate::SkinError;

verus! {

/// The RGBA image that decoding `bytes` yields, or `None` when the bytes
/// are not a supported image encoding.
pub uninterp spec fn decode_spec(bytes: Seq<u8>) -> Option<ImageV>;

/// Relies on `image::load_from_memory_with_format` with the PNG format
/// (the one decoder this crate enables) followed by
/// `DynamicImage::into_rgba8`.  With the format fixed, the call reads no
/// process-global detection or decoding hooks, so the result depends on
/// the bytes alone; the returned buffer holds exactly four bytes per
/// pixel.
#[verifier::external_body]
pub(crate) fn decode_rgba(bytes: &Vec<u8>) -> (r: Result<Image, SkinError>)
    ensures
        match r {
            Ok(img) => decode_spec(bytes@) == Some(img@) && img.wf(),
            Err(e) => decode_spec(bytes@) is None && e == SkinError::Decode,
        },
{
    match image::load_from_memory_with_format(bytes, image::ImageFormat::Png) {
        Ok(decoded) => {
            let rgba = decoded.into_rgba8();
            let (width, height) = rgba.dimensions();
            Ok(Image { width, height, pixels: rgba.into_raw() })
        },
        Err(_) => Err(SkinError::Decode),
    }
}

} // verus!
