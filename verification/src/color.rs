//! The fixed color correction applied to every normalized image: a
//! deterministic per-pixel contrast curve on the color channels, leaving
//! alpha untouched.

use vstd::prelude::*;
use crate::pixels::Image;

verus! {

/// The contrast curve for one color channel: values below the midpoint are
/// pulled down, values at or above it are pushed up, each by a quarter of
/// their distance to the nearer end of the range.
pub open spec fn corrected_channel(c: u8) -> u8 {
    if c < 128 {
        (c - c / 4) as u8
    } else {
        (c + (255 - c) / 4) as u8
    }
}

/// The corrected buffer: every color channel through the contrast curve,
/// every fourth byte (alpha) unchanged.
pub open spec fn corrected(s: Seq<u8>) -> Seq<u8> {
    Seq::new(
        s.len(),
        |i: int| if i % 4 == 3 {
            s[i]
        } else {
            corrected_channel(s[i])
        },
    )
}

/// Applies the fixed color correction to every pixel of `img`, in place.
/// The output is a pure function of the input bytes, so two calls on equal
/// buffers yield identical output bytes.
pub fn color_correct(img: &mut Image)
    ensures
        final(img).width == old(img).width,
        final(img).height == old(img).height,
        final(img)@.pixels == corrected(old(img)@.pixels),
        old(img).wf() ==> final(img).wf(),
{
    let n = img.pixels.len();
    let mut i: usize = 0;
    while i < n
        invariant
            img.pixels.len() == n,
            n == old(img)@.pixels.len(),
            img.width == old(img).width,
            img.height == old(img).height,
            i <= n,
            forall|j: int| 0 <= j < i ==> img.pixels@[j] == corrected(old(img)@.pixels)[j],
            forall|j: int| i <= j < n ==> img.pixels@[j] == old(img)@.pixels[j],
        decreases n - i,
    {
        if i % 4 != 3 {
            let c = img.pixels[i];
            let v = if c < 128 {
                c - c / 4
            } else {
                c + (255 - c) / 4
            };
            img.pixels.set(i, v);
        }
        i = i + 1;
    }
    proof {
        assert(img@.pixels =~= corrected(old(img)@.pixels));
    }
}

/// Color correction is deterministic and pure: equal input buffers are
/// corrected to equal output buffers.
pub proof fn lemma_color_correct_deterministic(a: Seq<u8>, b: Seq<u8>)
    requires
        a == b,
    ensures
        corrected(a) == corrected(b),
{
}

} // verus!
