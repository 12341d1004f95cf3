//! The per-worker scratch buffer.
//!
//! The buffer exists purely to keep a worker touching a realistic amount of
//! private memory while it consumes the shared data, so the benchmark is not
//! measuring an unrealistically cache-resident workload. Accepted strings
//! are written into it at a cyclic index that advances only on acceptance.
use vstd::prelude::*;
use vstd::arithmetic::div_mod::{lemma_mod_self_0, lemma_small_mod};
use vstd::pervasive::VecAdditionalExecFns;

verus! {

/// A privately owned, fixed-capacity sequence of string slots, overwritten
/// cyclically: the `k`-th accepted string lands in slot `k % capacity`.
pub struct ScratchBuffer {
    slots: Vec<String>,
    accepted: usize,
}

impl ScratchBuffer {
    /// The slots' contents.
    pub closed spec fn slots_view(&self) -> Seq<Seq<char>> {
        Seq::new(self.slots@.len(), |i: int| self.slots@[i]@)
    }

    /// The number of slots; fixed at construction.
    pub open spec fn capacity(&self) -> int {
        self.slots_view().len() as int
    }

    /// How many strings have been accepted into the buffer so far.
    pub closed spec fn accepted_ops(&self) -> int {
        self.accepted as int
    }

    /// The buffer has at least one slot, so the cyclic index is defined.
    pub open spec fn wf(&self) -> bool {
        self.capacity() >= 1
    }

    /// A fresh buffer of `capacity` empty slots.
    pub fn new(capacity: usize) -> (r: ScratchBuffer)
        requires
            capacity >= 1,
        ensures
            r.wf(),
            r.capacity() == capacity,
            r.accepted_ops() == 0,
            forall|j: int| 0 <= j < capacity ==> r.slots_view()[j] == Seq::<char>::empty(),
    {
        let mut slots: Vec<String> = Vec::with_capacity(capacity);
        let mut i: usize = 0;
        while i < capacity
            invariant
                i <= capacity,
                slots@.len() == i,
                forall|j: int| 0 <= j < i ==> slots@[j]@ == Seq::<char>::empty(),
            decreases capacity - i,
        {
            slots.push(String::new());
            i = i + 1;
        }
        ScratchBuffer { slots, accepted: 0 }
    }

    /// Write an accepted string into the next cyclic slot and advance the
    /// acceptance count.
    pub fn record(&mut self, s: String)
        requires
            old(self).wf(),
            old(self).accepted_ops() < usize::MAX,
        ensures
            final(self).wf(),
            final(self).capacity() == old(self).capacity(),
            final(self).accepted_ops() == old(self).accepted_ops() + 1,
            final(self).slots_view() == old(self).slots_view().update(
                old(self).accepted_ops() % old(self).capacity(),
                s@,
            ),
    {
        let idx: usize = self.accepted % self.slots.len();
        let ghost snapshot = self.slots_view();
        self.slots.set(idx, s);
        self.accepted = self.accepted + 1;
        proof {
            assert(self.slots_view() =~= snapshot.update(idx as int, s@));
        }
    }

    /// The number of slots.
    pub fn num_slots(&self) -> (n: usize)
        ensures
            n == self.capacity(),
    {
        self.slots.len()
    }

    /// How many strings have been accepted into the buffer so far.
    pub fn accepted_count(&self) -> (n: usize)
        ensures
            n == self.accepted_ops(),
    {
        self.accepted
    }

    /// Read the slot at `i`.
    pub fn slot(&self, i: usize) -> (r: &String)
        requires
            i < self.capacity(),
        ensures
            r@ == self.slots_view()[i as int],
    {
        &self.slots[i]
    }
}

/// The cyclic write index wraps correctly: among the first `capacity + 1`
/// accepted writes — write numbers `0` through `capacity` — exactly the
/// first (`0`) and the last (`capacity`) land in slot `0`. Starting from a
/// fresh buffer, after `capacity + 1` accepted operations the slot written
/// first has been overwritten exactly once.
pub proof fn lemma_first_slot_overwritten_once(capacity: int, w: int)
    requires
        capacity >= 1,
        0 <= w <= capacity,
    ensures
        w % capacity == 0 <==> (w == 0 || w == capacity),
{
    if w == 0 {
        lemma_small_mod(0, capacity as nat);
    } else if w == capacity {
        lemma_mod_self_0(capacity);
    } else {
        lemma_small_mod(w as nat, capacity as nat);
    }
}

} // verus!
