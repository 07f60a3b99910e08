//! Substitution dispatcher: routes an opaque content identifier to a slot
//! and a target format, runs the matching generator over the slot's cached
//! render, and packs the result into the caller's fixed buffer — or
//! declines, so the caller keeps its original asset.

use vstd::prelude::*;
use crate::cache::{SlotCache, SLOT_COUNT};
use crate::normalize::fits;
use crate::icon::{gen_icon, icon_of};
use crate::packer::{
    pack_icon, pack_raw, packed_icon, packed_raw, ICON_HEADER_SIZE, MAX_DATA_SIZE, MAX_FILE_SIZE,
};
use crate::pixels::{Image, ImageV};
use crate::portrait::{gen_portrait, portrait_of, Placement, MAX_MASK_EDGE};
use crate::SkinError;

verus! {

/// Destination capacity the host supplies for an icon request.
pub const MAX_STOCK_ICON_SIZE: usize = 0x9c68;

/// Destination capacity the host supplies for the first portrait variant.
pub const MAX_PORTRAIT_A_SIZE: usize = 0x727068;

/// Destination capacity the host supplies for the second portrait variant.
pub const MAX_PORTRAIT_B_SIZE: usize = 0x2d068;

/// Destination capacity the host supplies for the third portrait variant.
pub const MAX_PORTRAIT_C_SIZE: usize = 0x81068;

/// Exact byte length of a packed icon container.
pub const ICON_CONTAINER_SIZE: usize = 0x4010;

/// The target format a recognized content identifier maps to.
#[derive(Clone, Copy, PartialEq, Eq, Structural, Debug)]
pub enum AssetKind {
    RawTexture,
    Icon,
    PortraitA,
    PortraitB,
    PortraitC,
}

/// What a dispatch call did: declined (the host keeps its original
/// asset), filled the buffer with the given length, or asks the caller to
/// supply the default on-disk container for the slot.
#[derive(Clone, Copy, PartialEq, Eq, Structural, Debug)]
pub enum DispatchOutcome {
    PassThrough,
    Packed(usize),
    NeedsDefault(usize),
}

/// Placement constants of the first portrait variant.
pub open spec fn placement_a() -> Placement {
    Placement { dx: -457i32, dy: 12i32, scale_pm: 1285u32 }
}

/// Placement constants of the second portrait variant.
pub open spec fn placement_b() -> Placement {
    Placement { dx: -90i32, dy: 9i32, scale_pm: 233u32 }
}

/// Placement constants of the third portrait variant.
pub open spec fn placement_c() -> Placement {
    Placement { dx: -481i32, dy: -96i32, scale_pm: 938u32 }
}

/// Position of the first occurrence of `id` in `ids`.
pub open spec fn first_idx(ids: Seq<u64>, id: u64) -> Option<int>
    decreases ids.len(),
{
    if ids.len() == 0 {
        None
    } else if ids[0] == id {
        Some(0)
    } else {
        match first_idx(ids.drop_first(), id) {
            Some(i) => Some(i + 1),
            None => None,
        }
    }
}

/// A witness at position `i` with no earlier occurrence pins `first_idx`.
proof fn lemma_first_idx_some(ids: Seq<u64>, id: u64, i: int)
    requires
        0 <= i < ids.len(),
        ids[i] == id,
        forall|j: int| 0 <= j < i ==> ids[j] != id,
    ensures
        first_idx(ids, id) == Some(i),
    decreases i,
{
    if i > 0 {
        lemma_first_idx_some(ids.drop_first(), id, i - 1);
    }
}

/// With no occurrence at all, `first_idx` is `None`.
proof fn lemma_first_idx_none(ids: Seq<u64>, id: u64)
    requires
        forall|j: int| 0 <= j < ids.len() ==> ids[j] != id,
    ensures
        first_idx(ids, id) is None,
    decreases ids.len(),
{
    if ids.len() > 0 {
        lemma_first_idx_none(ids.drop_first(), id);
    }
}

/// Finds the first occurrence of `id` in `ids`.
fn find_first(ids: &Vec<u64>, id: u64) -> (r: Option<usize>)
    ensures
        match r {
            Some(i) => i < ids.len() && first_idx(ids@, id) == Some(i as int),
            None => first_idx(ids@, id) is None,
        },
{
    let mut i: usize = 0;
    while i < ids.len()
        invariant
            i <= ids.len(),
            forall|j: int| 0 <= j < i ==> ids@[j] != id,
        decreases ids.len() - i,
    {
        if ids[i] == id {
            proof {
                lemma_first_idx_some(ids@, id, i as int);
            }
            return Some(i);
        }
        i = i + 1;
    }
    proof {
        lemma_first_idx_none(ids@, id);
    }
    None
}

/// A portrait mask the dispatcher accepts for a destination of capacity
/// `cap`: well formed, nonempty, within the edge bound, and small enough
/// that its container always fits.
pub open spec fn mask_ok(m: ImageV, cap: int) -> bool {
    &&& m.wf()
    &&& 1 <= m.width <= MAX_MASK_EDGE
    &&& 1 <= m.height <= MAX_MASK_EDGE
    &&& ICON_HEADER_SIZE + m.pixels.len() <= cap
}

/// The dispatcher's fixed routing tables (one content identifier per slot
/// and format) and the three portrait masks.
pub struct Dispatcher {
    pub raw_ids: Vec<u64>,
    pub icon_ids: Vec<u64>,
    pub portrait_a_ids: Vec<u64>,
    pub portrait_b_ids: Vec<u64>,
    pub portrait_c_ids: Vec<u64>,
    pub mask_a: Image,
    pub mask_b: Image,
    pub mask_c: Image,
}

/// Slot and format for a recognized identifier: the tables are consulted
/// in a fixed order, each mapping an identifier to the slot at its
/// position.
pub open spec fn route_spec(d: Dispatcher, id: u64) -> Option<(int, AssetKind)> {
    match first_idx(d.raw_ids@, id) {
        Some(i) => Some((i, AssetKind::RawTexture)),
        None => match first_idx(d.icon_ids@, id) {
            Some(i) => Some((i, AssetKind::Icon)),
            None => match first_idx(d.portrait_a_ids@, id) {
                Some(i) => Some((i, AssetKind::PortraitA)),
                None => match first_idx(d.portrait_b_ids@, id) {
                    Some(i) => Some((i, AssetKind::PortraitB)),
                    None => match first_idx(d.portrait_c_ids@, id) {
                        Some(i) => Some((i, AssetKind::PortraitC)),
                        None => None,
                    },
                },
            },
        },
    }
}

/// Destination capacity the host owes for each format.
pub open spec fn spec_buffer_len(kind: AssetKind) -> int {
    match kind {
        AssetKind::RawTexture => MAX_FILE_SIZE as int,
        AssetKind::Icon => MAX_STOCK_ICON_SIZE as int,
        AssetKind::PortraitA => MAX_PORTRAIT_A_SIZE as int,
        AssetKind::PortraitB => MAX_PORTRAIT_B_SIZE as int,
        AssetKind::PortraitC => MAX_PORTRAIT_C_SIZE as int,
    }
}

/// Checks that a mask suits a destination of capacity `cap`.
fn check_mask(m: &Image, cap: usize) -> (b: bool)
    ensures
        b == mask_ok(m@, cap as int),
{
    if m.width < 1 || m.width > MAX_MASK_EDGE || m.height < 1 || m.height > MAX_MASK_EDGE {
        return false;
    }
    proof {
        assert(m@.width * m@.height <= 0x1000000 && 4 * (m@.width * m@.height) == 4 * m@.width
            * m@.height) by (nonlinear_arith)
            requires 1 <= m@.width <= 4096, 1 <= m@.height <= 4096;
    }
    let wh: u64 = (m.width as u64) * (m.height as u64);
    if (m.pixels.len() as u64) != 4 * wh {
        return false;
    }
    if cap < ICON_HEADER_SIZE {
        return false;
    }
    if m.pixels.len() > cap - ICON_HEADER_SIZE {
        return false;
    }
    true
}

impl Dispatcher {
    /// Every table has one identifier per slot and every mask suits its
    /// destination capacity.
    pub open spec fn wf(self) -> bool {
        &&& self.raw_ids.len() == SLOT_COUNT
        &&& self.icon_ids.len() == SLOT_COUNT
        &&& self.portrait_a_ids.len() == SLOT_COUNT
        &&& self.portrait_b_ids.len() == SLOT_COUNT
        &&& self.portrait_c_ids.len() == SLOT_COUNT
        &&& mask_ok(self.mask_a@, MAX_PORTRAIT_A_SIZE as int)
        &&& mask_ok(self.mask_b@, MAX_PORTRAIT_B_SIZE as int)
        &&& mask_ok(self.mask_c@, MAX_PORTRAIT_C_SIZE as int)
    }

    /// Builds the dispatcher, refusing id tables of the wrong size and
    /// masks that could overflow their destination.
    pub fn new(
        raw_ids: Vec<u64>,
        icon_ids: Vec<u64>,
        portrait_a_ids: Vec<u64>,
        portrait_b_ids: Vec<u64>,
        portrait_c_ids: Vec<u64>,
        mask_a: Image,
        mask_b: Image,
        mask_c: Image,
    ) -> (r: Result<Dispatcher, SkinError>)
        ensures
            match r {
                Ok(d) => d.wf() && d.raw_ids == raw_ids && d.icon_ids == icon_ids
                    && d.portrait_a_ids == portrait_a_ids && d.portrait_b_ids == portrait_b_ids
                    && d.portrait_c_ids == portrait_c_ids && d.mask_a == mask_a && d.mask_b
                    == mask_b && d.mask_c == mask_c,
                Err(e) => e == SkinError::Config,
            },
            r is Ok <==> (raw_ids.len() == SLOT_COUNT && icon_ids.len() == SLOT_COUNT
                && portrait_a_ids.len() == SLOT_COUNT && portrait_b_ids.len() == SLOT_COUNT
                && portrait_c_ids.len() == SLOT_COUNT && mask_ok(
                mask_a@,
                MAX_PORTRAIT_A_SIZE as int,
            ) && mask_ok(mask_b@, MAX_PORTRAIT_B_SIZE as int) && mask_ok(
                mask_c@,
                MAX_PORTRAIT_C_SIZE as int,
            )),
    {
        if raw_ids.len() != SLOT_COUNT || icon_ids.len() != SLOT_COUNT || portrait_a_ids.len()
            != SLOT_COUNT || portrait_b_ids.len() != SLOT_COUNT || portrait_c_ids.len()
            != SLOT_COUNT {
            return Err(SkinError::Config);
        }
        if !check_mask(&mask_a, MAX_PORTRAIT_A_SIZE) || !check_mask(&mask_b, MAX_PORTRAIT_B_SIZE)
            || !check_mask(&mask_c, MAX_PORTRAIT_C_SIZE) {
            return Err(SkinError::Config);
        }
        Ok(
            Dispatcher {
                raw_ids,
                icon_ids,
                portrait_a_ids,
                portrait_b_ids,
                portrait_c_ids,
                mask_a,
                mask_b,
                mask_c,
            },
        )
    }

    /// Maps a content identifier to its slot and format, or `None` for an
    /// unrecognized identifier.
    pub fn route(&self, id: u64) -> (r: Option<(usize, AssetKind)>)
        requires
            self.wf(),
        ensures
            match r {
                Some(p) => p.0 < SLOT_COUNT && route_spec(*self, id) == Some((p.0 as int, p.1)),
                None => route_spec(*self, id) is None,
            },
    {
        if let Some(i) = find_first(&self.raw_ids, id) {
            return Some((i, AssetKind::RawTexture));
        }
        if let Some(i) = find_first(&self.icon_ids, id) {
            return Some((i, AssetKind::Icon));
        }
        if let Some(i) = find_first(&self.portrait_a_ids, id) {
            return Some((i, AssetKind::PortraitA));
        }
        if let Some(i) = find_first(&self.portrait_b_ids, id) {
            return Some((i, AssetKind::PortraitB));
        }
        if let Some(i) = find_first(&self.portrait_c_ids, id) {
            return Some((i, AssetKind::PortraitC));
        }
        None
    }

    /// Serves one asset request.  An unrecognized identifier, or a
    /// recognized one with nothing to substitute, leaves the buffer
    /// untouched; a raw-texture request with no selection asks the caller
    /// for the slot's default container; otherwise the slot's render runs
    /// through the matching generator and packer and the written length is
    /// reported.
    pub fn dispatch(&self, cache: &SlotCache, id: u64, dest: &mut Vec<u8>) -> (r: DispatchOutcome)
        requires
            self.wf(),
            cache.wf(),
            match route_spec(*self, id) {
                Some(p) => old(dest).len() == spec_buffer_len(p.1),
                None => true,
            },
        ensures
            final(dest).len() == old(dest).len(),
            match route_spec(*self, id) {
                None => r == DispatchOutcome::PassThrough && final(dest)@ == old(dest)@,
                Some(p) => match cache.slots[p.0].render {
                    Some(img) => match p.1 {
                        AssetKind::RawTexture => r == DispatchOutcome::Packed(MAX_FILE_SIZE)
                            && final(dest)@ == packed_raw(img@, old(dest)@),
                        AssetKind::Icon => r == DispatchOutcome::Packed(ICON_CONTAINER_SIZE)
                            && final(dest)@ == packed_icon(icon_of(img@), old(dest)@),
                        AssetKind::PortraitA => r == DispatchOutcome::Packed(
                            (ICON_HEADER_SIZE + self.mask_a@.pixels.len()) as usize,
                        ) && final(dest)@ == packed_icon(
                            portrait_of(img@, self.mask_a@, placement_a()),
                            old(dest)@,
                        ),
                        AssetKind::PortraitB => r == DispatchOutcome::Packed(
                            (ICON_HEADER_SIZE + self.mask_b@.pixels.len()) as usize,
                        ) && final(dest)@ == packed_icon(
                            portrait_of(img@, self.mask_b@, placement_b()),
                            old(dest)@,
                        ),
                        AssetKind::PortraitC => r == DispatchOutcome::Packed(
                            (ICON_HEADER_SIZE + self.mask_c@.pixels.len()) as usize,
                        ) && final(dest)@ == packed_icon(
                            portrait_of(img@, self.mask_c@, placement_c()),
                            old(dest)@,
                        ),
                    },
                    None => match p.1 {
                        AssetKind::RawTexture => r == DispatchOutcome::NeedsDefault(p.0 as usize)
                            && final(dest)@ == old(dest)@,
                        _ => r == DispatchOutcome::PassThrough && final(dest)@ == old(dest)@,
                    },
                },
            },
    {
        match self.route(id) {
            None => DispatchOutcome::PassThrough,
            Some((slot, kind)) => self.dispatch_render(kind, slot, cache.get_render(slot), dest),
        }
    }

    /// Serves one already-routed request from a single slot's cached
    /// render.  A caller that guards each slot with its own lock can route
    /// first, lock only that slot's cell, and serve from it: no other slot
    /// is read or written.
    pub fn dispatch_render(
        &self,
        kind: AssetKind,
        slot: usize,
        render: Option<&Image>,
        dest: &mut Vec<u8>,
    ) -> (r: DispatchOutcome)
        requires
            self.wf(),
            slot < SLOT_COUNT,
            match render {
                Some(img) => img.wf() && fits(img@),
                None => true,
            },
            old(dest).len() == spec_buffer_len(kind),
        ensures
            final(dest).len() == old(dest).len(),
            match render {
                Some(img) => match kind {
                    AssetKind::RawTexture => r == DispatchOutcome::Packed(MAX_FILE_SIZE)
                        && final(dest)@ == packed_raw(img@, old(dest)@),
                    AssetKind::Icon => r == DispatchOutcome::Packed(ICON_CONTAINER_SIZE)
                        && final(dest)@ == packed_icon(icon_of(img@), old(dest)@),
                    AssetKind::PortraitA => r == DispatchOutcome::Packed(
                        (ICON_HEADER_SIZE + self.mask_a@.pixels.len()) as usize,
                    ) && final(dest)@ == packed_icon(
                        portrait_of(img@, self.mask_a@, placement_a()),
                        old(dest)@,
                    ),
                    AssetKind::PortraitB => r == DispatchOutcome::Packed(
                        (ICON_HEADER_SIZE + self.mask_b@.pixels.len()) as usize,
                    ) && final(dest)@ == packed_icon(
                        portrait_of(img@, self.mask_b@, placement_b()),
                        old(dest)@,
                    ),
                    AssetKind::PortraitC => r == DispatchOutcome::Packed(
                        (ICON_HEADER_SIZE + self.mask_c@.pixels.len()) as usize,
                    ) && final(dest)@ == packed_icon(
                        portrait_of(img@, self.mask_c@, placement_c()),
                        old(dest)@,
                    ),
                },
                None => match kind {
                    AssetKind::RawTexture => r == DispatchOutcome::NeedsDefault(slot)
                        && final(dest)@ == old(dest)@,
                    _ => r == DispatchOutcome::PassThrough && final(dest)@ == old(dest)@,
                },
            },
    {
        match render {
            None => match kind {
                AssetKind::RawTexture => DispatchOutcome::NeedsDefault(slot),
                _ => DispatchOutcome::PassThrough,
            },
            Some(img) => match kind {
                AssetKind::RawTexture => {
                    proof {
                        assert(4 * img@.width * img@.height <= MAX_DATA_SIZE)
                            by (nonlinear_arith)
                            requires
                                img@.width <= 1024,
                                img@.height <= 1024,
                                img@.width >= 0,
                                img@.height >= 0,
                                MAX_DATA_SIZE == 0x400000,
                        ;
                    }
                    match pack_raw(img, dest) {
                        Ok(n) => DispatchOutcome::Packed(n),
                        Err(_) => {
                            proof {
                                assert(false);
                            }
                            DispatchOutcome::PassThrough
                        },
                    }
                },
                AssetKind::Icon => {
                    let icon = gen_icon(img);
                    match pack_icon(&icon, dest) {
                        Ok(n) => DispatchOutcome::Packed(n),
                        Err(_) => {
                            proof {
                                assert(false);
                            }
                            DispatchOutcome::PassThrough
                        },
                    }
                },
                AssetKind::PortraitA => {
                    let pl = Placement { dx: -457, dy: 12, scale_pm: 1285 };
                    let port = gen_portrait(img, &self.mask_a, pl);
                    match pack_icon(&port, dest) {
                        Ok(n) => DispatchOutcome::Packed(n),
                        Err(_) => {
                            proof {
                                assert(false);
                            }
                            DispatchOutcome::PassThrough
                        },
                    }
                },
                AssetKind::PortraitB => {
                    let pl = Placement { dx: -90, dy: 9, scale_pm: 233 };
                    let port = gen_portrait(img, &self.mask_b, pl);
                    match pack_icon(&port, dest) {
                        Ok(n) => DispatchOutcome::Packed(n),
                        Err(_) => {
                            proof {
                                assert(false);
                            }
                            DispatchOutcome::PassThrough
                        },
                    }
                },
                AssetKind::PortraitC => {
                    let pl = Placement { dx: -481, dy: -96, scale_pm: 938 };
                    let port = gen_portrait(img, &self.mask_c, pl);
                    match pack_icon(&port, dest) {
                        Ok(n) => DispatchOutcome::Packed(n),
                        Err(_) => {
                            proof {
                                assert(false);
                            }
                            DispatchOutcome::PassThrough
                        },
                    }
                },
            },
        }
    }
}

} // verus!
