//! Slot cache: a fixed table of per-slot skin selections and their
//! normalized renders.  An operation on one slot never changes any other
//! slot, so callers may guard each slot independently.

use vstd::prelude::*;
use crate::normalize::{fits, normalize, normalized};
use crate::decode::decode_spec;
use crate::pixels::{Image, ImageV};
use crate::SkinError;

verus! {

/// Number of concurrent entity slots.
pub const SLOT_COUNT: usize = 8;

/// Sentinel for the "last selected" indicator when no selection is live.
pub const NO_SLOT: usize = 0xff;

/// One slot: the selected source path and the most recently normalized
/// render, absent until a selection event arrives.
pub struct SlotEntry {
    pub selected: Option<String>,
    pub render: Option<Image>,
}

/// Mathematical view of one slot.
pub ghost struct EntryV {
    pub selected: Option<Seq<char>>,
    pub render: Option<ImageV>,
}

impl View for SlotEntry {
    type V = EntryV;

    open spec fn view(&self) -> EntryV {
        EntryV {
            selected: match self.selected {
                Some(s) => Some(s@),
                None => None,
            },
            render: match self.render {
                Some(img) => Some(img@),
                None => None,
            },
        }
    }
}

impl SlotEntry {
    /// A cached render, when present, is a well-formed image within the
    /// supported bounds.
    pub open spec fn wf(self) -> bool {
        match self.render {
            Some(img) => img.wf() && fits(img@),
            None => true,
        }
    }
}

/// Computes the new contents of one slot for a selection event, with the
/// status: the path is stored and, when renders are enabled, the source
/// bytes are synchronously normalized into the render; a selection whose
/// bytes cannot be normalized yields a cleared slot and reports the
/// failure.  The new contents depend on the event alone, so a caller may
/// guard each slot's cell independently and apply events concurrently for
/// different slots.
pub fn select_entry(renders_enabled: bool, sel: Option<(String, Vec<u8>)>) -> (r: (
    SlotEntry,
    Result<(), SkinError>,
))
    ensures
        r.0.wf(),
        match sel {
            None => r.1 == Ok::<(), SkinError>(()) && r.0@.selected is None && r.0@.render
                is None,
            Some(s) => {
                if renders_enabled {
                    match decode_spec(s.1@) {
                        Some(v) => {
                            if fits(v) {
                                &&& r.1 == Ok::<(), SkinError>(())
                                &&& r.0@.selected == Some(s.0@)
                                &&& r.0@.render == Some(normalized(v))
                            } else {
                                &&& r.1 == Err::<(), SkinError>(SkinError::Dimensions)
                                &&& r.0@.selected is None
                                &&& r.0@.render is None
                            }
                        },
                        None => {
                            &&& r.1 == Err::<(), SkinError>(SkinError::Decode)
                            &&& r.0@.selected is None
                            &&& r.0@.render is None
                        },
                    }
                } else {
                    &&& r.1 == Ok::<(), SkinError>(())
                    &&& r.0@.selected == Some(s.0@)
                    &&& r.0@.render is None
                }
            },
        },
{
    match sel {
        None => (SlotEntry { selected: None, render: None }, Ok(())),
        Some((path, data)) => {
            if renders_enabled {
                match normalize(&data) {
                    Ok(img) => (SlotEntry { selected: Some(path), render: Some(img) }, Ok(())),
                    Err(e) => (SlotEntry { selected: None, render: None }, Err(e)),
                }
            } else {
                (SlotEntry { selected: Some(path), render: None }, Ok(()))
            }
        },
    }
}

/// The fixed table of slots, plus the advisory "last selected" indicator.
pub struct SlotCache {
    pub renders_enabled: bool,
    pub last_selected: usize,
    pub slots: Vec<SlotEntry>,
}

impl SlotCache {
    /// The table has exactly one entry per slot and every cached render is
    /// a well-formed image within the supported bounds.
    pub open spec fn wf(self) -> bool {
        &&& self.slots.len() == SLOT_COUNT
        &&& forall|i: int| 0 <= i < SLOT_COUNT ==> (#[trigger] self.slots[i]).wf()
    }

    /// Creates the cache with every slot empty and no live selection.
    pub fn new(renders_enabled: bool) -> (r: SlotCache)
        ensures
            r.wf(),
            r.renders_enabled == renders_enabled,
            r.last_selected == NO_SLOT,
            forall|i: int|
                0 <= i < SLOT_COUNT ==> (#[trigger] r.slots[i]).selected is None && r.slots[
                    i
                ].render is None,
    {
        let mut slots: Vec<SlotEntry> = Vec::new();
        let mut i: usize = 0;
        while i < SLOT_COUNT
            invariant
                i == slots.len() <= SLOT_COUNT,
                forall|j: int|
                    0 <= j < i ==> (#[trigger] slots[j]).selected is None && slots[j].render
                        is None,
            decreases SLOT_COUNT - i,
        {
            slots.push(SlotEntry { selected: None, render: None });
            i = i + 1;
        }
        SlotCache { renders_enabled, last_selected: NO_SLOT, slots }
    }

    /// Records a selection for `slot`: stores the path and, when renders
    /// are enabled, synchronously normalizes the supplied source bytes
    /// into the slot's render.  A selection whose bytes cannot be
    /// normalized clears the slot and reports the failure.  No other slot
    /// changes.
    pub fn select(&mut self, slot: usize, sel: Option<(String, Vec<u8>)>) -> (r: Result<
        (),
        SkinError,
    >)
        requires
            old(self).wf(),
            slot < SLOT_COUNT,
        ensures
            final(self).wf(),
            final(self).renders_enabled == old(self).renders_enabled,
            final(self).last_selected == slot,
            final(self).slots.len() == SLOT_COUNT,
            forall|j: int|
                0 <= j < SLOT_COUNT && j != slot ==> final(self).slots[j] == old(self).slots[j],
            match sel {
                None => r == Ok::<(), SkinError>(()) && final(self).slots[slot as int]@.selected
                    is None && final(self).slots[slot as int]@.render is None,
                Some(s) => {
                    if old(self).renders_enabled {
                        match decode_spec(s.1@) {
                            Some(v) => {
                                if fits(v) {
                                    &&& r == Ok::<(), SkinError>(())
                                    &&& final(self).slots[slot as int]@.selected == Some(s.0@)
                                    &&& final(self).slots[slot as int]@.render == Some(
                                        normalized(v),
                                    )
                                } else {
                                    &&& r == Err::<(), SkinError>(SkinError::Dimensions)
                                    &&& final(self).slots[slot as int]@.selected is None
                                    &&& final(self).slots[slot as int]@.render is None
                                }
                            },
                            None => {
                                &&& r == Err::<(), SkinError>(SkinError::Decode)
                                &&& final(self).slots[slot as int]@.selected is None
                                &&& final(self).slots[slot as int]@.render is None
                            },
                        }
                    } else {
                        &&& r == Ok::<(), SkinError>(())
                        &&& final(self).slots[slot as int]@.selected == Some(s.0@)
                        &&& final(self).slots[slot as int]@.render is None
                    }
                },
            },
    {
        self.last_selected = slot;
        let (entry, status) = select_entry(self.renders_enabled, sel);
        self.slots.set(slot, entry);
        status
    }

    /// Snapshot of the selected source path for `slot`.
    pub fn get_selected(&self, slot: usize) -> (r: Option<&String>)
        requires
            self.wf(),
            slot < SLOT_COUNT,
        ensures
            match r {
                Some(s) => self.slots[slot as int].selected == Some(*s),
                None => self.slots[slot as int].selected is None,
            },
    {
        match &self.slots[slot].selected {
            Some(s) => Some(s),
            None => None,
        }
    }

    /// The cached render for `slot`, exactly as the most recent completed
    /// `select` on that slot left it.
    pub fn get_render(&self, slot: usize) -> (r: Option<&Image>)
        requires
            self.wf(),
            slot < SLOT_COUNT,
        ensures
            match r {
                Some(img) => self.slots[slot as int].render == Some(*img),
                None => self.slots[slot as int].render is None,
            },
    {
        match &self.slots[slot].render {
            Some(img) => Some(img),
            None => None,
        }
    }

    /// Resets the advisory "last selected" indicator to the sentinel, as
    /// the externally intercepted telemetry event requires.  No slot
    /// changes.
    pub fn reset_last_selected(&mut self)
        ensures
            final(self).last_selected == NO_SLOT,
            final(self).renders_enabled == old(self).renders_enabled,
            final(self).slots == old(self).slots,
    {
        self.last_selected = NO_SLOT;
    }

    /// The advisory "last selected" indicator: a slot index, or the
    /// sentinel when reset.
    pub fn get_last_selected(&self) -> (r: usize)
        ensures
            r == self.last_selected,
    {
        self.last_selected
    }
}

} // verus!
