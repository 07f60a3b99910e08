//! Container packer: serializes a pixel buffer plus trailing metadata into
//! a fixed-capacity raw-texture container, or into a self-describing icon
//! container, and relocates the raw container's metadata block so that it
//! always immediately follows the actual payload.

use vstd::prelude::*;
use crate::pixels::{Image, ImageV};
use crate::SkinError;

verus! {

/// Largest supported image edge, in pixels.
pub const MAX_EDGE: u32 = 1024;

/// Payload capacity of the raw-texture container.
pub const MAX_DATA_SIZE: usize = 0x400000;

/// Size of the raw container's trailing metadata block.
pub const META_SIZE: usize = 0xb0;

/// Total capacity of the raw-texture container: maximum payload plus the
/// metadata block.
pub const MAX_FILE_SIZE: usize = 0x4000b0;

/// Size of the icon container's self-describing header.
pub const ICON_HEADER_SIZE: usize = 16;

/// Byte `i` of the raw container's metadata block for image `v`: the
/// dimensions and payload size as little-endian words, zero elsewhere.
pub open spec fn meta_byte(v: ImageV, i: int) -> u8 {
    if 0 <= i < 4 {
        le32_byte(v.width as u32, i)
    } else if 4 <= i < 8 {
        le32_byte(v.height as u32, i - 4)
    } else if 8 <= i < 12 {
        le32_byte((4 * v.width * v.height) as u32, i - 8)
    } else {
        0
    }
}

/// Byte `i` (0-based, least significant first) of `x` in little-endian order.
pub open spec fn le32_byte(x: u32, i: int) -> u8 {
    (x >> (8 * i) as u32) as u8
}

/// The raw-texture container for image `v`, written over a buffer that
/// previously held `orig`: payload at offset 0, the metadata block
/// immediately after it, a stale copy of the metadata at the fixed high
/// offset, and inert bytes in between.
pub open spec fn packed_raw(v: ImageV, orig: Seq<u8>) -> Seq<u8> {
    let p = v.pixels.len() as int;
    Seq::new(
        MAX_FILE_SIZE as nat,
        |j: int|
            if j < p {
                v.pixels[j]
            } else if j < p + META_SIZE {
                meta_byte(v, j - p)
            } else if j < MAX_DATA_SIZE {
                orig[j]
            } else {
                meta_byte(v, j - MAX_DATA_SIZE)
            },
    )
}

/// The icon container for image `v` written over `orig`: a self-describing
/// header followed by the payload; bytes past the container are untouched.
pub open spec fn packed_icon(v: ImageV, orig: Seq<u8>) -> Seq<u8> {
    let p = v.pixels.len() as int;
    Seq::new(
        orig.len(),
        |j: int|
            if j < ICON_HEADER_SIZE {
                icon_header_byte(v, j)
            } else if j < ICON_HEADER_SIZE + p {
                v.pixels[j - ICON_HEADER_SIZE]
            } else {
                orig[j]
            },
    )
}

/// Byte `i` of the icon container's header: a four-byte tag, then width,
/// height and payload size as little-endian words.
pub open spec fn icon_header_byte(v: ImageV, i: int) -> u8 {
    if i == 0 {
        0x49
    } else if i == 1 {
        0x43
    } else if i == 2 {
        0x4f
    } else if i == 3 {
        0x4e
    } else if 4 <= i < 8 {
        le32_byte(v.width as u32, i - 4)
    } else if 8 <= i < 12 {
        le32_byte(v.height as u32, i - 8)
    } else {
        le32_byte((4 * v.width * v.height) as u32, i - 12)
    }
}

/// The metadata block for image `v`, as a write at the canonical maximum
/// offset produces it.
pub open spec fn metadata_block(v: ImageV) -> Seq<u8> {
    Seq::new(META_SIZE as nat, |k: int| meta_byte(v, k))
}

/// Round trip of the raw container's relocation: for every payload that
/// fits the container, a consumer that locates the metadata at the
/// payload's end recovers a block byte-identical to the one a write at
/// the canonical maximum offset would have produced — relocation
/// preserves the metadata content exactly, also where the two ranges
/// overlap.
pub proof fn lemma_metadata_round_trip(v: ImageV, orig: Seq<u8>)
    requires
        v.wf(),
        v.pixels.len() <= MAX_DATA_SIZE,
        orig.len() == MAX_FILE_SIZE,
    ensures
        ({
            let p = v.pixels.len() as int;
            packed_raw(v, orig).subrange(p, p + META_SIZE) == metadata_block(v)
        }),
{
    let packed = packed_raw(v, orig);
    let p = v.pixels.len() as int;
    assert forall|k: int| 0 <= k < META_SIZE implies packed.subrange(p, p + META_SIZE)[k]
        == metadata_block(v)[k] by {
        assert(packed[p + k] == meta_byte(v, k));
    }
    assert(packed.subrange(p, p + META_SIZE) =~= metadata_block(v));
}

/// Moves the metadata block from the fixed high offset to the position
/// immediately following the actual payload.  The copy runs forward, which
/// is safe here because the destination never lies above the source, even
/// when the two ranges overlap.
pub fn relocate_metadata(dest: &mut Vec<u8>, payload_len: usize)
    requires
        old(dest).len() == MAX_FILE_SIZE,
        payload_len <= MAX_DATA_SIZE,
    ensures
        final(dest).len() == MAX_FILE_SIZE,
        forall|j: int| 0 <= j < payload_len ==> final(dest)@[j] == old(dest)@[j],
        forall|k: int|
            0 <= k < META_SIZE ==> #[trigger] final(dest)@[payload_len + k] == old(dest)@[
                MAX_DATA_SIZE + k
            ],
        forall|j: int|
            payload_len + META_SIZE <= j < MAX_FILE_SIZE ==> final(dest)@[j] == old(dest)@[j],
{
    let mut k: usize = 0;
    while k < META_SIZE
        invariant
            dest.len() == MAX_FILE_SIZE,
            payload_len <= MAX_DATA_SIZE,
            k <= META_SIZE,
            forall|j: int| 0 <= j < payload_len ==> dest@[j] == old(dest)@[j],
            forall|i: int|
                0 <= i < k ==> #[trigger] dest@[payload_len + i] == old(dest)@[MAX_DATA_SIZE + i],
            forall|j: int| payload_len + k <= j < MAX_FILE_SIZE ==> dest@[j] == old(dest)@[j],
        decreases META_SIZE - k,
    {
        let b = dest[MAX_DATA_SIZE + k];
        dest.set(payload_len + k, b);
        k = k + 1;
    }
}

/// Packs `img` into the fixed-capacity raw-texture container: the payload
/// is written at offset 0, the metadata block at the fixed high offset, and
/// the metadata is then relocated to follow the payload.  On success the
/// reported length is the buffer's full capacity — the consumer locates the
/// metadata relative to content, and bytes past `payload + metadata` are
/// inert padding.  A payload above the capacity is refused and the buffer
/// is left untouched.
pub fn pack_raw(img: &Image, dest: &mut Vec<u8>) -> (r: Result<usize, SkinError>)
    requires
        img.wf(),
        old(dest).len() == MAX_FILE_SIZE,
    ensures
        final(dest).len() == MAX_FILE_SIZE,
        r is Ok <==> img@.pixels.len() <= MAX_DATA_SIZE,
        r is Ok ==> r == Ok::<usize, SkinError>(MAX_FILE_SIZE) && final(dest)@ == packed_raw(
            img@,
            old(dest)@,
        ),
        r is Err ==> r == Err::<usize, SkinError>(SkinError::PayloadTooLarge) && final(dest)@
            == old(dest)@,
{
    let p = img.pixels.len();
    if p > MAX_DATA_SIZE {
        return Err(SkinError::PayloadTooLarge);
    }
    let mut j: usize = 0;
    while j < p
        invariant
            dest.len() == MAX_FILE_SIZE,
            p == img@.pixels.len() <= MAX_DATA_SIZE,
            j <= p,
            forall|i: int| 0 <= i < j ==> dest@[i] == img@.pixels[i],
            forall|i: int| j <= i < MAX_FILE_SIZE ==> dest@[i] == old(dest)@[i],
        decreases p - j,
    {
        let b = img.pixels[j];
        dest.set(j, b);
        j = j + 1;
    }
    let mut k: usize = 0;
    while k < META_SIZE
        invariant
            dest.len() == MAX_FILE_SIZE,
            p == img@.pixels.len() <= MAX_DATA_SIZE,
            img.wf(),
            k <= META_SIZE,
            forall|i: int| 0 <= i < p ==> dest@[i] == img@.pixels[i],
            forall|i: int| p <= i < MAX_DATA_SIZE ==> dest@[i] == old(dest)@[i],
            forall|i: int| 0 <= i < k ==> dest@[MAX_DATA_SIZE + i] == meta_byte(img@, i),
            forall|i: int|
                MAX_DATA_SIZE + k <= i < MAX_FILE_SIZE ==> dest@[i] == old(dest)@[i],
        decreases META_SIZE - k,
    {
        let b = meta_byte_exec(img, k);
        dest.set(MAX_DATA_SIZE + k, b);
        k = k + 1;
    }
    let ghost staged = dest@;
    relocate_metadata(dest, p);
    proof {
        assert forall|j2: int| 0 <= j2 < MAX_FILE_SIZE implies dest@[j2] == packed_raw(
            img@,
            old(dest)@,
        )[j2] by {
            if p <= j2 < p + META_SIZE {
                let k2 = j2 - p;
                assert(dest@[p + k2] == staged[MAX_DATA_SIZE + k2]);
            }
        }
        assert(dest@ =~= packed_raw(img@, old(dest)@));
    }
    Ok(MAX_FILE_SIZE)
}

/// Computes metadata byte `k` of the raw container for `img`.
fn meta_byte_exec(img: &Image, k: usize) -> (b: u8)
    requires
        img.wf(),
        img@.pixels.len() <= 0xffff_ffff,
        k < META_SIZE,
    ensures
        b == meta_byte(img@, k as int),
{
    if k < 4 {
        (img.width >> (8 * k as u32)) as u8
    } else if k < 8 {
        (img.height >> (8 * (k - 4) as u32)) as u8
    } else if k < 12 {
        let n = img.pixels.len();
        proof {
            assert(n == 4 * img@.width * img@.height);
        }
        ((n as u32) >> (8 * (k - 8) as u32)) as u8
    } else {
        0
    }
}

/// Packs `img` into the self-describing icon container: header, then
/// payload.  Returns the container's exact byte length.  A container that
/// does not fit the destination buffer is refused and the buffer is left
/// untouched.
pub fn pack_icon(img: &Image, dest: &mut Vec<u8>) -> (r: Result<usize, SkinError>)
    requires
        img.wf(),
        img@.pixels.len() <= 0xffff_ffff,
    ensures
        final(dest).len() == old(dest).len(),
        r is Ok <==> ICON_HEADER_SIZE + img@.pixels.len() <= old(dest).len(),
        r is Ok ==> r == Ok::<usize, SkinError>(
            (ICON_HEADER_SIZE + img@.pixels.len()) as usize,
        ) && final(dest)@ == packed_icon(img@, old(dest)@),
        r is Err ==> r == Err::<usize, SkinError>(SkinError::BufferTooSmall) && final(dest)@
            == old(dest)@,
{
    let p = img.pixels.len();
    if dest.len() < ICON_HEADER_SIZE || dest.len() - ICON_HEADER_SIZE < p {
        return Err(SkinError::BufferTooSmall);
    }
    let total = ICON_HEADER_SIZE + p;
    let mut k: usize = 0;
    while k < ICON_HEADER_SIZE
        invariant
            dest.len() == old(dest).len(),
            ICON_HEADER_SIZE + p <= dest.len(),
            p == img@.pixels.len(),
            img@.pixels.len() <= 0xffff_ffff,
            img.wf(),
            k <= ICON_HEADER_SIZE,
            forall|i: int| 0 <= i < k ==> dest@[i] == icon_header_byte(img@, i),
            forall|i: int| k <= i < dest@.len() ==> dest@[i] == old(dest)@[i],
        decreases ICON_HEADER_SIZE - k,
    {
        let b = icon_header_byte_exec(img, k);
        dest.set(k, b);
        k = k + 1;
    }
    let mut j: usize = 0;
    while j < p
        invariant
            dest.len() == old(dest).len(),
            ICON_HEADER_SIZE + p <= dest.len(),
            p == img@.pixels.len(),
            j <= p,
            forall|i: int| 0 <= i < ICON_HEADER_SIZE ==> dest@[i] == icon_header_byte(img@, i),
            forall|i: int| 0 <= i < j ==> dest@[ICON_HEADER_SIZE + i] == img@.pixels[i],
            forall|i: int|
                ICON_HEADER_SIZE + j <= i < dest@.len() ==> dest@[i] == old(dest)@[i],
        decreases p - j,
    {
        let b = img.pixels[j];
        dest.set(ICON_HEADER_SIZE + j, b);
        j = j + 1;
    }
    proof {
        assert(dest@ =~= packed_icon(img@, old(dest)@));
    }
    Ok(total)
}

/// Computes header byte `k` of the icon container for `img`.
fn icon_header_byte_exec(img: &Image, k: usize) -> (b: u8)
    requires
        img.wf(),
        img@.pixels.len() <= 0xffff_ffff,
        k < ICON_HEADER_SIZE,
    ensures
        b == icon_header_byte(img@, k as int),
{
    if k == 0 {
        0x49
    } else if k == 1 {
        0x43
    } else if k == 2 {
        0x4f
    } else if k == 3 {
        0x4e
    } else if k < 8 {
        (img.width >> (8 * (k - 4) as u32)) as u8
    } else if k < 12 {
        (img.height >> (8 * (k - 8) as u32)) as u8
    } else {
        let n = img.pixels.len();
        proof {
            assert(n == 4 * img@.width * img@.height);
        }
        ((n as u32) >> (8 * (k - 12) as u32)) as u8
    }
}

/// Copies an already-built default container verbatim into the destination
/// buffer and reports its exact byte length.  Used for the no-selection
/// raw-texture fallback, where the on-disk default asset substitutes for a
/// normalized render.
pub fn pack_default(data: &Vec<u8>, dest: &mut Vec<u8>) -> (r: Result<usize, SkinError>)
    ensures
        final(dest).len() == old(dest).len(),
        r is Ok <==> data.len() <= old(dest).len(),
        r is Ok ==> r == Ok::<usize, SkinError>(data.len() as usize) && (forall|j: int|
            0 <= j < data@.len() ==> final(dest)@[j] == data@[j]) && (forall|j: int|
            data@.len() <= j < final(dest)@.len() ==> final(dest)@[j] == old(dest)@[j]),
        r is Err ==> r == Err::<usize, SkinError>(SkinError::BufferTooSmall) && final(dest)@
            == old(dest)@,
{
    let n = data.len();
    if n > dest.len() {
        return Err(SkinError::BufferTooSmall);
    }
    let mut j: usize = 0;
    while j < n
        invariant
            dest.len() == old(dest).len(),
            n == data@.len() <= dest.len(),
            j <= n,
            forall|i: int| 0 <= i < j ==> dest@[i] == data@[i],
            forall|i: int| j <= i < dest@.len() ==> dest@[i] == old(dest)@[i],
        decreases n - j,
    {
        let b = data[j];
        dest.set(j, b);
        j = j + 1;
    }
    Ok(n)
}

} // verus!
