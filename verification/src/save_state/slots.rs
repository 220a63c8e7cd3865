//! Numbered save slots: ten independent places to keep a snapshot, one of
//! them selected as the current slot (number keys select, one key saves to
//! it and another loads from it).

use vstd::prelude::*;

use super::SaveStateError;

verus! {

/// Number of save slots (slots `0..=9`).
pub const SAVE_STATE_SLOT_COUNT: usize = 10;

/// A bank of save slots, each empty or holding one encoded snapshot.
pub struct SaveStateSlots {
    /// The slots; `None` is an empty slot.
    pub slots: Vec<Option<Vec<u8>>>,
    /// The slot that the save and load keys act on.
    pub current_slot: usize,
}

/// The bytes held by each slot.
pub open spec fn slot_contents(slots: Seq<Option<Vec<u8>>>) -> Seq<Option<Seq<u8>>> {
    slots.map_values(|o: Option<Vec<u8>>| match o {
        Some(b) => Some(b@),
        None => None,
    })
}

/// What loading slot `slot` of a bank holding `v` gives: its snapshot, or
/// why there is none.
pub open spec fn load_outcome(v: Seq<Option<Seq<u8>>>, slot: usize) -> Result<Seq<u8>, SaveStateError> {
    if slot >= SAVE_STATE_SLOT_COUNT {
        Err(SaveStateError::SlotOutOfRange { requested: slot, max: SAVE_STATE_SLOT_COUNT })
    } else {
        match v[slot as int] {
            Some(b) => Ok(b),
            None => Err(SaveStateError::SlotEmpty { slot }),
        }
    }
}

/// Number of slots among the first `n` of `v` that hold a snapshot.
pub open spec fn occupied(v: Seq<Option<Seq<u8>>>, n: int) -> nat
    decreases n,
{
    if n <= 0 {
        0
    } else {
        occupied(v, n - 1) + if v[n - 1] is Some { 1nat } else { 0nat }
    }
}

impl SaveStateSlots {
    /// There are exactly ten slots and the current one is among them.
    pub open spec fn wf(&self) -> bool {
        &&& self.slots@.len() == SAVE_STATE_SLOT_COUNT
        &&& self.current_slot < SAVE_STATE_SLOT_COUNT
    }

    /// The bytes held by each slot.
    pub open spec fn contents(&self) -> Seq<Option<Seq<u8>>> {
        slot_contents(self.slots@)
    }

    /// Ten empty slots, slot 0 selected.
    pub fn new() -> (s: Self)
        ensures
            s.wf(),
            s.current_slot == 0,
            forall|i: int| 0 <= i < SAVE_STATE_SLOT_COUNT ==> #[trigger] s.contents()[i] is None,
    {
        let mut slots: Vec<Option<Vec<u8>>> = Vec::new();
        let mut i: usize = 0;
        while i < SAVE_STATE_SLOT_COUNT
            invariant
                i <= SAVE_STATE_SLOT_COUNT,
                slots@.len() == i,
                forall|j: int| 0 <= j < i ==> #[trigger] slots@[j] is None,
            decreases SAVE_STATE_SLOT_COUNT - i,
        {
            slots.push(None);
            i = i + 1;
        }
        SaveStateSlots { slots, current_slot: 0 }
    }

    /// The selected slot.
    pub fn current_slot(&self) -> (r: usize)
        ensures
            r == self.current_slot,
    {
        self.current_slot
    }

    /// Select `slot`; an index past the last slot is ignored.
    pub fn set_current_slot(&mut self, slot: usize)
        requires
            old(self).wf(),
        ensures
            final(self).wf(),
            final(self).current_slot == if slot < SAVE_STATE_SLOT_COUNT { slot } else { old(self).current_slot },
            final(self).slots@ == old(self).slots@,
    {
        if slot < SAVE_STATE_SLOT_COUNT {
            self.current_slot = slot;
        }
    }

    /// Whether `slot` holds no snapshot (true for an index past the last
    /// slot).
    pub fn is_empty(&self, slot: usize) -> (r: bool)
        requires
            self.wf(),
        ensures
            r == (slot >= SAVE_STATE_SLOT_COUNT || self.contents()[slot as int] is None),
    {
        if slot >= SAVE_STATE_SLOT_COUNT {
            return true;
        }
        self.slots[slot].is_none()
    }

    /// Store the encoded snapshot `snapshot` in `slot`, replacing what it
    /// held. An index past the last slot is refused before the snapshot is
    /// looked at; a snapshot that failed to encode is passed on. Either
    /// error leaves every slot as it was.
    pub fn save(&mut self, snapshot: Result<Vec<u8>, SaveStateError>, slot: usize) -> (r: Result<(), SaveStateError>)
        requires
            old(self).wf(),
        ensures
            final(self).wf(),
            final(self).current_slot == old(self).current_slot,
            slot >= SAVE_STATE_SLOT_COUNT ==> r == Err::<(), SaveStateError>(
                SaveStateError::SlotOutOfRange { requested: slot, max: SAVE_STATE_SLOT_COUNT },
            ) && final(self).contents() == old(self).contents(),
            slot < SAVE_STATE_SLOT_COUNT ==> match snapshot {
                Ok(b) => r == Ok::<(), SaveStateError>(()) && final(self).contents() == old(self).contents().update(
                    slot as int,
                    Some(b@),
                ),
                Err(e) => r == Err::<(), SaveStateError>(e) && final(self).contents() == old(self).contents(),
            },
    {
        if slot >= SAVE_STATE_SLOT_COUNT {
            return Err(SaveStateError::SlotOutOfRange { requested: slot, max: SAVE_STATE_SLOT_COUNT });
        }
        match snapshot {
            Ok(blob) => {
                let ghost b = blob@;
                self.slots.set(slot, Some(blob));
                assert(self.contents() =~= old(self).contents().update(slot as int, Some(b)));
                Ok(())
            },
            Err(e) => Err(e),
        }
    }

    /// Store `snapshot` in the selected slot (see [`Self::save`]).
    pub fn save_current(&mut self, snapshot: Result<Vec<u8>, SaveStateError>) -> (r: Result<(), SaveStateError>)
        requires
            old(self).wf(),
        ensures
            final(self).wf(),
            final(self).current_slot == old(self).current_slot,
            match snapshot {
                Ok(b) => r == Ok::<(), SaveStateError>(()) && final(self).contents() == old(self).contents().update(
                    old(self).current_slot as int,
                    Some(b@),
                ),
                Err(e) => r == Err::<(), SaveStateError>(e) && final(self).contents() == old(self).contents(),
            },
    {
        let slot: usize = self.current_slot;
        self.save(snapshot, slot)
    }

    /// The snapshot held by `slot`, to be restored by the program; an index
    /// past the last slot and an empty slot are errors.
    pub fn load(&self, slot: usize) -> (r: Result<&[u8], SaveStateError>)
        requires
            self.wf(),
        ensures
            match r {
                Ok(b) => load_outcome(self.contents(), slot) == Ok::<Seq<u8>, SaveStateError>(b@),
                Err(e) => load_outcome(self.contents(), slot) == Err::<Seq<u8>, SaveStateError>(e),
            },
    {
        if slot >= SAVE_STATE_SLOT_COUNT {
            return Err(SaveStateError::SlotOutOfRange { requested: slot, max: SAVE_STATE_SLOT_COUNT });
        }
        match &self.slots[slot] {
            Some(blob) => Ok(blob.as_slice()),
            None => Err(SaveStateError::SlotEmpty { slot }),
        }
    }

    /// The snapshot held by the selected slot (see [`Self::load`]).
    pub fn load_current(&self) -> (r: Result<&[u8], SaveStateError>)
        requires
            self.wf(),
        ensures
            match r {
                Ok(b) => load_outcome(self.contents(), self.current_slot) == Ok::<Seq<u8>, SaveStateError>(b@),
                Err(e) => load_outcome(self.contents(), self.current_slot) == Err::<Seq<u8>, SaveStateError>(e),
            },
    {
        self.load(self.current_slot)
    }

    /// Empty `slot`; an index past the last slot is ignored.
    pub fn clear(&mut self, slot: usize)
        requires
            old(self).wf(),
        ensures
            final(self).wf(),
            final(self).current_slot == old(self).current_slot,
            final(self).contents() == if slot < SAVE_STATE_SLOT_COUNT {
                old(self).contents().update(slot as int, None)
            } else {
                old(self).contents()
            },
    {
        if slot < SAVE_STATE_SLOT_COUNT {
            self.slots.set(slot, None);
            assert(self.contents() =~= old(self).contents().update(slot as int, None));
        }
    }

    /// The bytes held by `slot`, if it is a slot holding a snapshot.
    pub fn get(&self, slot: usize) -> (r: Option<&[u8]>)
        requires
            self.wf(),
        ensures
            match r {
                Some(b) => slot < SAVE_STATE_SLOT_COUNT && self.contents()[slot as int] == Some(b@),
                None => slot >= SAVE_STATE_SLOT_COUNT || self.contents()[slot as int] is None,
            },
    {
        if slot >= SAVE_STATE_SLOT_COUNT {
            return None;
        }
        match &self.slots[slot] {
            Some(blob) => Some(blob.as_slice()),
            None => None,
        }
    }

    /// Number of slots holding a snapshot.
    pub fn occupied_count(&self) -> (r: usize)
        requires
            self.wf(),
        ensures
            r == occupied(self.contents(), SAVE_STATE_SLOT_COUNT as int),
    {
        let mut n: usize = 0;
        let mut i: usize = 0;
        while i < SAVE_STATE_SLOT_COUNT
            invariant
                self.wf(),
                i <= SAVE_STATE_SLOT_COUNT,
                n == occupied(self.contents(), i as int),
                n <= i,
            decreases SAVE_STATE_SLOT_COUNT - i,
        {
            if self.slots[i].is_some() {
                n = n + 1;
            }
            i = i + 1;
        }
        n
    }
}

impl Default for SaveStateSlots {
    /// Ten empty slots, slot 0 selected.
    fn default() -> (s: Self)
        ensures
            s.wf(),
            s.current_slot == 0,
            forall|i: int| 0 <= i < SAVE_STATE_SLOT_COUNT ==> #[trigger] s.contents()[i] is None,
    {
        SaveStateSlots::new()
    }
}

/// A snapshot saved to a slot is what loading that slot gives back, and
/// saving to one slot leaves what every other slot gives unchanged.
pub proof fn law_load_after_save(v: Seq<Option<Seq<u8>>>, slot: usize, other: usize, blob: Seq<u8>)
    requires
        v.len() == SAVE_STATE_SLOT_COUNT,
        slot < SAVE_STATE_SLOT_COUNT,
        other != slot,
    ensures
        load_outcome(v.update(slot as int, Some(blob)), slot) == Ok::<Seq<u8>, SaveStateError>(blob),
        load_outcome(v.update(slot as int, Some(blob)), other) == load_outcome(v, other),
{
}

/// A cleared slot loads as empty.
pub proof fn law_load_after_clear(v: Seq<Option<Seq<u8>>>, slot: usize)
    requires
        v.len() == SAVE_STATE_SLOT_COUNT,
        slot < SAVE_STATE_SLOT_COUNT,
    ensures
        load_outcome(v.update(slot as int, None), slot) == Err::<Seq<u8>, SaveStateError>(
            SaveStateError::SlotEmpty { slot },
        ),
{
}

} // verus!
