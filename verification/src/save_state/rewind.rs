//! The rewind ring: the most recent snapshots, oldest first, up to a
//! capacity. Pushing onto a full ring drops the oldest snapshot; popping
//! takes the newest, so repeated pops step back through time.

use vstd::prelude::*;

use std::collections::VecDeque;

use super::SaveStateError;

verus! {

/// Default rewind depth in snapshots.
pub const DEFAULT_REWIND_CAPACITY: usize = 60;

/// A bounded ring of encoded snapshots.
pub struct RewindBuffer {
    /// Snapshots, oldest first.
    pub buffer: VecDeque<Vec<u8>>,
    /// Most snapshots kept (at least one).
    pub capacity: usize,
}

/// The ring `s` after pushing `blob` with room for `cap` snapshots: the
/// oldest snapshot is dropped when the ring is full.
pub open spec fn pushed(s: Seq<Seq<u8>>, cap: nat, blob: Seq<u8>) -> Seq<Seq<u8>> {
    if s.len() >= cap {
        s.drop_first().push(blob)
    } else {
        s.push(blob)
    }
}

impl RewindBuffer {
    /// At least one slot, and no more snapshots than slots.
    pub open spec fn wf(&self) -> bool {
        &&& self.capacity >= 1
        &&& self.buffer@.len() <= self.capacity
    }

    /// The snapshots held, oldest first.
    pub open spec fn snapshots(&self) -> Seq<Seq<u8>> {
        self.buffer@.map_values(|b: Vec<u8>| b@)
    }

    /// An empty ring keeping up to `capacity` snapshots (at least one).
    pub fn with_capacity(capacity: usize) -> (r: Self)
        ensures
            r.wf(),
            r.capacity == if capacity >= 1 { capacity } else { 1 },
            r.snapshots().len() == 0,
    {
        let cap: usize = if capacity >= 1 { capacity } else { 1 };
        RewindBuffer { buffer: VecDeque::with_capacity(cap), capacity: cap }
    }

    /// Most snapshots kept.
    pub fn capacity(&self) -> (r: usize)
        ensures
            r == self.capacity,
    {
        self.capacity
    }

    /// Number of snapshots held.
    pub fn len(&self) -> (r: usize)
        ensures
            r == self.snapshots().len(),
    {
        self.buffer.len()
    }

    pub fn is_empty(&self) -> (r: bool)
        ensures
            r == (self.snapshots().len() == 0),
    {
        self.buffer.len() == 0
    }

    /// Whether the next push drops the oldest snapshot.
    pub fn is_full(&self) -> (r: bool)
        ensures
            r == (self.snapshots().len() >= self.capacity),
    {
        self.buffer.len() >= self.capacity
    }

    /// Push the encoded snapshot `snapshot`, dropping the oldest one if the
    /// ring is full. A snapshot that failed to encode is passed on and
    /// leaves the ring unchanged.
    pub fn push(&mut self, snapshot: Result<Vec<u8>, SaveStateError>) -> (r: Result<(), SaveStateError>)
        requires
            old(self).wf(),
        ensures
            final(self).wf(),
            final(self).capacity == old(self).capacity,
            match snapshot {
                Ok(b) => r == Ok::<(), SaveStateError>(()) && final(self).snapshots() == pushed(
                    old(self).snapshots(),
                    old(self).capacity as nat,
                    b@,
                ),
                Err(e) => r == Err::<(), SaveStateError>(e) && final(self).snapshots() == old(self).snapshots(),
            },
    {
        match snapshot {
            Ok(blob) => {
                let ghost b = blob@;
                let ghost s0 = self.buffer@;
                if self.buffer.len() >= self.capacity {
                    let _dropped: Option<Vec<u8>> = self.buffer.pop_front();
                }
                self.buffer.push_back(blob);
                assert(self.snapshots() =~= pushed(old(self).snapshots(), old(self).capacity as nat, b));
                Ok(())
            },
            Err(e) => Err(e),
        }
    }

    /// Take the newest snapshot, to be restored by the program; `None`
    /// when the ring is empty.
    pub fn pop(&mut self) -> (r: Option<Vec<u8>>)
        requires
            old(self).wf(),
        ensures
            final(self).wf(),
            final(self).capacity == old(self).capacity,
            old(self).snapshots().len() == 0 ==> r is None && final(self).snapshots() == old(self).snapshots(),
            old(self).snapshots().len() > 0 ==> (r matches Some(b) && b@ == old(self).snapshots().last())
                && final(self).snapshots() == old(self).snapshots().drop_last(),
    {
        let r: Option<Vec<u8>> = self.buffer.pop_back();
        assert(self.snapshots() =~= if old(self).snapshots().len() > 0 {
            old(self).snapshots().drop_last()
        } else {
            old(self).snapshots()
        });
        r
    }

    /// Drop every snapshot, keeping the capacity.
    pub fn clear(&mut self)
        requires
            old(self).wf(),
        ensures
            final(self).wf(),
            final(self).capacity == old(self).capacity,
            final(self).snapshots().len() == 0,
    {
        self.buffer.clear();
    }
}

impl Default for RewindBuffer {
    /// An empty ring of [`DEFAULT_REWIND_CAPACITY`] snapshots.
    fn default() -> (r: Self)
        ensures
            r.wf(),
            r.capacity == DEFAULT_REWIND_CAPACITY,
            r.snapshots().len() == 0,
    {
        RewindBuffer::with_capacity(DEFAULT_REWIND_CAPACITY)
    }
}

/// Popping right after a push gives the pushed snapshot back and leaves
/// the ring as it was, less the oldest snapshot if the push dropped it.
pub proof fn law_pop_after_push(s: Seq<Seq<u8>>, cap: nat, blob: Seq<u8>)
    requires
        cap >= 1,
        s.len() <= cap,
    ensures
        pushed(s, cap, blob).len() > 0,
        pushed(s, cap, blob).last() == blob,
        s.len() < cap ==> pushed(s, cap, blob).drop_last() == s,
        s.len() == cap ==> pushed(s, cap, blob).drop_last() == s.drop_first(),
{
    assert(s.push(blob).drop_last() =~= s);
    if s.len() > 0 {
        assert(s.drop_first().push(blob).drop_last() =~= s.drop_first());
    }
}

/// A push never grows the ring past its capacity, and the snapshots kept
/// are the newest ones in order.
pub proof fn law_push_keeps_newest(s: Seq<Seq<u8>>, cap: nat, blob: Seq<u8>)
    requires
        cap >= 1,
        s.len() <= cap,
    ensures
        pushed(s, cap, blob).len() <= cap,
        pushed(s, cap, blob) == (s + seq![blob]).subrange(
            (s.len() + 1 - pushed(s, cap, blob).len()) as int,
            (s.len() + 1) as int,
        ),
{
    assert(s.push(blob) =~= (s + seq![blob]).subrange(0, (s.len() + 1) as int));
    if s.len() >= cap {
        assert(s.drop_first().push(blob) =~= (s + seq![blob]).subrange(1, (s.len() + 1) as int));
    }
}

} // verus!
