//! Asset substitution pipeline for a user-selected character skin.
//!
//! The crate locates an integration point in a host code region, keeps a
//! small table of per-slot skin selections, normalizes source images into a
//! single canonical square layout with a fixed color correction, derives
//! icon and portrait renders from the normalized image, and packs the
//! results into fixed-capacity binary containers.

pub mod cache;
pub mod color;
pub mod convert;
pub mod decode;
pub mod dispatch;
pub mod icon;
pub mod locator;
pub mod normalize;
pub mod portrait;
pub mod selection;
pub mod packer;
pub mod pixels;

use vstd::prelude::*;

verus! {

/// Errors surfaced by the pipeline.  Every failure either passes through to
/// the caller's original asset or aborts the request; a partially written
/// buffer is never reported as complete.
#[derive(Clone, Copy, PartialEq, Eq, Structural, Debug)]
pub enum SkinError {
    /// The source bytes could not be decoded as an image.
    Decode,
    /// The decoded image is empty or exceeds the supported bounds.
    Dimensions,
    /// The payload would exceed the fixed container capacity.
    PayloadTooLarge,
    /// The destination buffer cannot hold the container.
    BufferTooSmall,
    /// A dispatcher was built from an id table or mask that does not fit
    /// the fixed layout.
    Config,
}

} // verus!
