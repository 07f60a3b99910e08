//! Parsing of the host's fixed-layout selection record, and the handling
//! of a selection event: entities of other kinds are ignored, everything
//! else is recorded in the slot cache.

use vstd::prelude::*;
use crate::cache::{SlotCache, SLOT_COUNT};
use crate::decode::decode_spec;
use crate::normalize::fits;
use crate::SkinError;

verus! {

/// Byte offset of the entity-kind field in the host's selection record.
pub const FIGHTER_ID_OFFSET: usize = 0x58;

/// Byte offset of the slot-index field in the host's selection record.
pub const FIGHTER_SLOT_OFFSET: usize = 0x64;

/// Minimum size of the host's selection record.
pub const FIGHTER_INFO_SIZE: usize = 0x65;

/// The two fields of the host's selection record that the pipeline reads:
/// the entity kind and the slot index.
#[derive(Clone, Copy, PartialEq, Eq, Structural, Debug)]
pub struct FighterInfo {
    pub fighter_id: u8,
    pub fighter_slot: u8,
}

impl FighterInfo {
    /// Decodes the record from a host-supplied byte region, validated by
    /// size alone: the two fields sit at fixed offsets.
    pub fn parse(bytes: &[u8]) -> (r: Option<FighterInfo>)
        ensures
            match r {
                Some(info) => bytes@.len() >= FIGHTER_INFO_SIZE && info.fighter_id == bytes@[
                    FIGHTER_ID_OFFSET as int
                ] && info.fighter_slot == bytes@[FIGHTER_SLOT_OFFSET as int],
                None => bytes@.len() < FIGHTER_INFO_SIZE,
            },
    {
        if bytes.len() < FIGHTER_INFO_SIZE {
            return None;
        }
        Some(
            FighterInfo {
                fighter_id: bytes[FIGHTER_ID_OFFSET],
                fighter_slot: bytes[FIGHTER_SLOT_OFFSET],
            },
        )
    }
}

/// The slot a selection callback addresses: `Some` exactly when the
/// entity kind matches the target and the slot index lies in the table.
pub fn selection_slot(info: &FighterInfo, target_kind: u8) -> (r: Option<usize>)
    ensures
        match r {
            Some(slot) => info.fighter_id == target_kind && info.fighter_slot < SLOT_COUNT
                && slot == info.fighter_slot,
            None => info.fighter_id != target_kind || info.fighter_slot >= SLOT_COUNT,
        },
{
    if info.fighter_id != target_kind {
        return None;
    }
    let slot = info.fighter_slot as usize;
    if slot >= SLOT_COUNT {
        return None;
    }
    Some(slot)
}

/// Handles one selection callback.  Selections of entity kinds other than
/// `target_kind`, and slot indices outside the table, are ignored and the
/// cache is untouched; otherwise the selection is recorded through
/// `SlotCache::select` and `Ok(true)` reports that it was.
pub fn handle_selection(
    cache: &mut SlotCache,
    info: &FighterInfo,
    target_kind: u8,
    sel: Option<(String, Vec<u8>)>,
) -> (r: Result<bool, SkinError>)
    requires
        old(cache).wf(),
    ensures
        final(cache).wf(),
        final(cache).renders_enabled == old(cache).renders_enabled,
        (info.fighter_id != target_kind || info.fighter_slot >= SLOT_COUNT) ==> r == Ok::<
            bool,
            SkinError,
        >(false) && *final(cache) == *old(cache),
        (info.fighter_id == target_kind && info.fighter_slot < SLOT_COUNT) ==> {
            let slot = info.fighter_slot as int;
            &&& final(cache).last_selected == info.fighter_slot
            &&& forall|j: int|
                0 <= j < SLOT_COUNT && j != slot ==> final(cache).slots[j] == old(cache).slots[j]
            &&& match sel {
                None => r == Ok::<bool, SkinError>(true) && final(cache).slots[slot]@.selected
                    is None && final(cache).slots[slot]@.render is None,
                Some(s) => {
                    if old(cache).renders_enabled {
                        match decode_spec(s.1@) {
                            Some(v) => {
                                if fits(v) {
                                    &&& r == Ok::<bool, SkinError>(true)
                                    &&& final(cache).slots[slot]@.selected == Some(s.0@)
                                    &&& final(cache).slots[slot]@.render == Some(
                                        crate::normalize::normalized(v),
                                    )
                                } else {
                                    &&& r == Err::<bool, SkinError>(SkinError::Dimensions)
                                    &&& final(cache).slots[slot]@.selected is None
                                    &&& final(cache).slots[slot]@.render is None
                                }
                            },
                            None => {
                                &&& r == Err::<bool, SkinError>(SkinError::Decode)
                                &&& final(cache).slots[slot]@.selected is None
                                &&& final(cache).slots[slot]@.render is None
                            },
                        }
                    } else {
                        &&& r == Ok::<bool, SkinError>(true)
                        &&& final(cache).slots[slot]@.selected == Some(s.0@)
                        &&& final(cache).slots[slot]@.render is None
                    }
                },
            }
        },
{
    match selection_slot(info, target_kind) {
        None => Ok(false),
        Some(slot) => match cache.select(slot, sel) {
            Ok(()) => Ok(true),
            Err(e) => Err(e),
        },
    }
}

} // verus!
