//! Generic allocator of opaque, generation-counted handles.
//!
//! A [`HandleTable`] hands out handles made of a slot index and a
//! generation counter, and stores one entry per live handle. Freeing a
//! handle bumps its slot's generation before the slot is offered for
//! reuse, so a freed handle is *retired*: no later allocation can ever
//! make it validate again. That is the safety net every registry built on
//! top of this table relies on to detect stale handles instead of
//! silently mis-resolving them.

use vstd::prelude::*;

use crate::errors::LibraryError;

verus! {

/// An opaque handle: a slot index paired with the generation the slot
/// had when the handle was minted.
#[derive(Clone, Copy, PartialEq, Eq, Structural, Debug)]
pub struct Handle {
    pub index: usize,
    pub generation: u64,
}

struct Slot<T> {
    generation: u64,
    entry: Option<T>,
}

/// How many of the slots in `s` currently hold an entry.
spec fn live_count<T>(s: Seq<Slot<T>>) -> nat
    decreases s.len(),
{
    if s.len() == 0 {
        0
    } else {
        live_count(s.drop_last()) + if s.last().entry is Some {
            1nat
        } else {
            0nat
        }
    }
}

proof fn lemma_live_count_push<T>(s: Seq<Slot<T>>, x: Slot<T>)
    ensures
        live_count(s.push(x)) == live_count(s) + if x.entry is Some {
            1nat
        } else {
            0nat
        },
{
    assert(s.push(x).drop_last() =~= s);
}

proof fn lemma_live_count_update<T>(s: Seq<Slot<T>>, i: int, x: Slot<T>)
    requires
        0 <= i < s.len(),
    ensures
        live_count(s.update(i, x)) + if s[i].entry is Some {
            1nat
        } else {
            0nat
        } == live_count(s) + if x.entry is Some {
            1nat
        } else {
            0nat
        },
    decreases s.len(),
{
    if i == s.len() - 1 {
        assert(s.update(i, x).drop_last() =~= s.drop_last());
        assert(s.update(i, x).last() == x);
    } else {
        assert(s.update(i, x).drop_last() =~= s.drop_last().update(i, x));
        assert(s.update(i, x).last() == s.last());
        lemma_live_count_update(s.drop_last(), i, x);
    }
}

proof fn lemma_live_count_concat<T>(a: Seq<Slot<T>>, b: Seq<Slot<T>>)
    ensures
        live_count(a + b) == live_count(a) + live_count(b),
    decreases b.len(),
{
    if b.len() == 0 {
        assert(a + b =~= a);
    } else {
        assert((a + b).drop_last() =~= a + b.drop_last());
        assert((a + b).last() == b.last());
        lemma_live_count_concat(a, b.drop_last());
    }
}

/// A growable table of generation-counted slots. Freed slots are kept on
/// a free list for O(1) amortized reuse; a slot whose generation counter
/// is exhausted is never reused.
pub struct HandleTable<T> {
    slots: Vec<Slot<T>>,
    free_list: Vec<usize>,
}

impl<T> HandleTable<T> {
    /// Number of slots ever created.
    pub closed spec fn slot_count(self) -> nat {
        self.slots@.len()
    }

    /// Does slot `i` currently hold an entry?
    pub closed spec fn live_at(self, i: int) -> bool {
        self.slots@[i].entry is Some
    }

    /// The current generation of slot `i`.
    pub closed spec fn gen_at(self, i: int) -> u64 {
        self.slots@[i].generation
    }

    /// The entry stored in slot `i`.
    pub closed spec fn value_at(self, i: int) -> T {
        self.slots@[i].entry.unwrap()
    }

    /// A handle is valid when its slot is live and the generations match.
    pub open spec fn valid(self, h: Handle) -> bool {
        &&& (h.index as int) < self.slot_count()
        &&& self.live_at(h.index as int)
        &&& self.gen_at(h.index as int) == h.generation
    }

    /// The entry a valid handle refers to.
    pub open spec fn entry_at(self, h: Handle) -> T {
        self.value_at(h.index as int)
    }

    /// A handle is retired once its slot has moved past its generation.
    /// Retired handles never validate again, whatever is allocated later.
    pub open spec fn retired(self, h: Handle) -> bool {
        &&& (h.index as int) < self.slot_count()
        &&& h.generation < self.gen_at(h.index as int)
    }

    /// Number of live entries.
    pub closed spec fn count_spec(self) -> nat {
        live_count(self.slots@)
    }

    /// Structural invariant: the free list names exactly reusable slots
    /// (empty, with headroom left on their generation counter) and names
    /// each at most once; live slots always have generation headroom, so
    /// freeing them can bump the counter.
    pub closed spec fn wf(self) -> bool {
        &&& forall|k: int|
            0 <= k < self.free_list@.len() ==> {
                &&& (#[trigger] self.free_list@[k] as int) < self.slots@.len()
                &&& self.slots@[self.free_list@[k] as int].entry is None
                &&& self.slots@[self.free_list@[k] as int].generation < u64::MAX
            }
        &&& forall|k1: int, k2: int|
            0 <= k1 < k2 < self.free_list@.len() ==> #[trigger] self.free_list@[k1]
                != #[trigger] self.free_list@[k2]
        &&& forall|i: int|
            0 <= i < self.slots@.len() && (#[trigger] self.slots@[i].entry) is Some
                ==> self.slots@[i].generation < u64::MAX
    }

    /// An empty table: no slots, so no handle is valid or retired.
    pub fn new() -> (t: HandleTable<T>)
        ensures
            t.wf(),
            t.slot_count() == 0,
            t.count_spec() == 0,
            forall|h: Handle| !t.valid(h) && !t.retired(h),
    {
        HandleTable { slots: Vec::new(), free_list: Vec::new() }
    }

    /// Store `value` in a fresh slot (reusing a freed one when possible)
    /// and mint the handle for it. Every handle that was valid stays
    /// valid with its entry untouched, every retired handle stays
    /// retired, and the minted handle is distinct from all of them.
    pub fn allocate(&mut self, value: T) -> (h: Handle)
        requires
            old(self).wf(),
        ensures
            final(self).wf(),
            final(self).valid(h),
            final(self).entry_at(h) == value,
            !old(self).valid(h),
            !old(self).retired(h),
            final(self).count_spec() == old(self).count_spec() + 1,
            forall|h2: Handle|
                old(self).valid(h2) ==> final(self).valid(h2) && final(self).entry_at(h2)
                    == old(self).entry_at(h2),
            forall|h2: Handle| old(self).retired(h2) ==> final(self).retired(h2) && h2 != h,
            forall|h2: Handle| h2 != h && !old(self).valid(h2) ==> !final(self).valid(h2),
            (h.index as int) < final(self).slot_count(),
            old(self).slot_count() <= final(self).slot_count(),
            final(self).slot_count() <= old(self).slot_count() + 1,
            !old(self).live_at(h.index as int) || (h.index as int) >= old(self).slot_count(),
            final(self).slot_count() == old(self).slot_count() || (final(self).slot_count()
                == old(self).slot_count() + 1 && h.index as int == old(self).slot_count()),
            final(self).live_at(h.index as int),
            final(self).gen_at(h.index as int) == h.generation,
            forall|i: int|
                0 <= i < old(self).slot_count() && i != h.index ==> final(self).live_at(i)
                    == old(self).live_at(i) && final(self).gen_at(i) == old(self).gen_at(i) && (
                old(self).live_at(i) ==> final(self).value_at(i) == old(self).value_at(i)),
    {
        let reuse = self.free_list.pop();
        match reuse {
            Some(i) => {
                let ghost old_slots = self.slots@;
                let g = self.slots[i].generation;
                let slot = &mut self.slots[i];
                *slot = Slot { generation: g, entry: Some(value) };
                proof {
                    lemma_live_count_update(old_slots, i as int, self.slots@[i as int]);
                }
                Handle { index: i, generation: g }
            },
            None => {
                let i = self.slots.len();
                proof {
                    lemma_live_count_push(self.slots@, Slot { generation: 0u64, entry: Some(value) });
                }
                self.slots.push(Slot { generation: 0, entry: Some(value) });
                Handle { index: i, generation: 0 }
            },
        }
    }

    /// Is `h` currently valid?
    pub fn validate(&self, h: Handle) -> (r: bool)
        ensures
            r == self.valid(h),
    {
        h.index < self.slots.len() && self.slots[h.index].generation == h.generation
            && self.slots[h.index].entry.is_some()
    }

    /// Drop the entry behind `h` and retire the handle: its slot's
    /// generation is bumped before the slot is offered for reuse, so `h`
    /// never validates again. Fails if `h` is not valid, leaving the
    /// table untouched.
    pub fn free(&mut self, h: Handle) -> (r: Result<(), LibraryError>)
        requires
            old(self).wf(),
        ensures
            final(self).wf(),
            !old(self).valid(h) ==> (r matches Err(LibraryError::InvalidHandle)) && *final(self)
                == *old(self),
            old(self).valid(h) ==> {
                &&& r is Ok
                &&& final(self).retired(h)
                &&& !final(self).valid(h)
                &&& final(self).slot_count() == old(self).slot_count()
                &&& final(self).count_spec() + 1 == old(self).count_spec()
                &&& forall|h2: Handle|
                    h2 != h && old(self).valid(h2) ==> final(self).valid(h2)
                        && final(self).entry_at(h2) == old(self).entry_at(h2)
                &&& forall|h2: Handle| !old(self).valid(h2) ==> !final(self).valid(h2)
                &&& forall|h2: Handle| old(self).retired(h2) ==> final(self).retired(h2)
                &&& !final(self).live_at(h.index as int)
                &&& forall|i: int|
                    0 <= i < old(self).slot_count() && i != h.index ==> final(self).live_at(i)
                        == old(self).live_at(i) && final(self).gen_at(i) == old(self).gen_at(i)
                        && (old(self).live_at(i)
                        ==> final(self).value_at(i) == old(self).value_at(i))
            },
    {
        if !self.validate(h) {
            return Err(LibraryError::InvalidHandle);
        }
        let ghost old_slots = self.slots@;
        let old_gen = self.slots[h.index].generation;
        let slot = &mut self.slots[h.index];
        *slot = Slot { generation: old_gen + 1, entry: None };
        proof {
            lemma_live_count_update(old_slots, h.index as int, self.slots@[h.index as int]);
        }
        if old_gen + 1 < u64::MAX {
            self.free_list.push(h.index);
        }
        Ok(())
    }

    /// Borrow the entry behind a valid handle.
    pub fn get(&self, h: Handle) -> (r: &T)
        requires
            self.valid(h),
        ensures
            *r == self.entry_at(h),
    {
        match &self.slots[h.index].entry {
            Some(v) => v,
            None => vstd::pervasive::unreached(),
        }
    }

    /// Replace the entry behind a valid handle, leaving its generation
    /// and every other slot untouched.
    pub fn store(&mut self, h: Handle, value: T)
        requires
            old(self).wf(),
            old(self).valid(h),
        ensures
            final(self).wf(),
            final(self).valid(h),
            final(self).entry_at(h) == value,
            final(self).slot_count() == old(self).slot_count(),
            final(self).count_spec() == old(self).count_spec(),
            forall|h2: Handle|
                h2 != h && old(self).valid(h2) ==> final(self).valid(h2)
                    && final(self).entry_at(h2) == old(self).entry_at(h2),
            forall|h2: Handle| !old(self).valid(h2) ==> !final(self).valid(h2),
            forall|h2: Handle| old(self).retired(h2) ==> final(self).retired(h2),
            final(self).live_at(h.index as int),
            final(self).gen_at(h.index as int) == old(self).gen_at(h.index as int),
            forall|i: int|
                0 <= i < old(self).slot_count() && i != h.index ==> final(self).live_at(i)
                    == old(self).live_at(i) && final(self).gen_at(i) == old(self).gen_at(i) && (
                old(self).live_at(i) ==> final(self).value_at(i) == old(self).value_at(i)),
    {
        let ghost old_slots = self.slots@;
        let g = self.slots[h.index].generation;
        let slot = &mut self.slots[h.index];
        *slot = Slot { generation: g, entry: Some(value) };
        proof {
            lemma_live_count_update(old_slots, h.index as int, self.slots@[h.index as int]);
        }
    }

    /// Number of slots ever created, live or not.
    pub fn slot_len(&self) -> (r: usize)
        ensures
            r == self.slot_count(),
    {
        self.slots.len()
    }

    /// Borrow the entry of slot `i`, or `None` when the slot is empty.
    pub fn peek(&self, i: usize) -> (r: Option<&T>)
        requires
            (i as int) < self.slot_count(),
        ensures
            r is Some <==> self.live_at(i as int),
            r is Some ==> *r.unwrap() == self.value_at(i as int),
    {
        match &self.slots[i].entry {
            Some(v) => Some(v),
            None => None,
        }
    }

    /// The handle that currently belongs to slot `i`; valid exactly when
    /// the slot is live.
    pub fn handle_at(&self, i: usize) -> (h: Handle)
        requires
            (i as int) < self.slot_count(),
        ensures
            h.index == i,
            h.generation == self.gen_at(i as int),
            self.live_at(i as int) ==> self.valid(h),
    {
        Handle { index: i, generation: self.slots[i].generation }
    }

    /// How many of the first `n` slots are live.
    pub closed spec fn count_prefix(self, n: int) -> nat {
        live_count(self.slots@.subrange(0, n))
    }

    /// Walking one slot further counts it exactly when it is live.
    pub proof fn lemma_count_prefix_step(&self, i: int)
        requires
            0 <= i < self.slot_count(),
        ensures
            self.count_prefix(i + 1) == self.count_prefix(i) + if self.live_at(i) {
                1nat
            } else {
                0nat
            },
    {
        assert(self.slots@.subrange(0, i + 1).drop_last() =~= self.slots@.subrange(0, i));
    }

    /// No slot is live before the table starts.
    pub proof fn lemma_count_prefix_zero(&self)
        ensures
            self.count_prefix(0) == 0,
    {
        assert(self.slots@.subrange(0, 0) =~= Seq::<Slot<T>>::empty());
    }

    /// The whole prefix counts every live entry.
    pub proof fn lemma_count_prefix_full(&self)
        ensures
            self.count_prefix(self.slot_count() as int) == self.count_spec(),
    {
        assert(self.slots@.subrange(0, self.slot_count() as int) =~= self.slots@);
    }

    /// A live slot still ahead of the walk keeps the prefix count
    /// strictly below the total.
    pub proof fn lemma_count_prefix_live(&self, i: int)
        requires
            0 <= i < self.slot_count(),
            self.live_at(i),
        ensures
            self.count_prefix(i) < self.count_spec(),
    {
        let s = self.slots@;
        let n = s.len() as int;
        assert(s =~= s.subrange(0, i) + s.subrange(i, n));
        lemma_live_count_concat(s.subrange(0, i), s.subrange(i, n));
        assert(s.subrange(i, n) =~= s.subrange(i, i + 1) + s.subrange(i + 1, n));
        lemma_live_count_concat(s.subrange(i, i + 1), s.subrange(i + 1, n));
        let single = s.subrange(i, i + 1);
        assert(single.len() == 1);
        assert(single.drop_last() =~= Seq::<Slot<T>>::empty());
        assert(single.last() == s[i]);
        assert(live_count(Seq::<Slot<T>>::empty()) == 0);
        assert(single.last().entry is Some);
        assert(live_count(single) == live_count(single.drop_last()) + 1nat);
    }

    /// Count the live entries.
    pub fn count(&self) -> (r: usize)
        ensures
            r == self.count_spec(),
    {
        let n = self.slots.len();
        let mut i: usize = 0;
        let mut k: usize = 0;
        while i < n
            invariant
                0 <= i <= n,
                n == self.slot_count(),
                k <= i,
                k as nat == live_count(self.slots@.subrange(0, i as int)),
            decreases n - i,
        {
            proof {
                assert(self.slots@.subrange(0, i as int + 1).drop_last() =~= self.slots@.subrange(
                    0,
                    i as int,
                ));
            }
            if self.slots[i].entry.is_some() {
                k = k + 1;
            }
            i = i + 1;
        }
        proof {
            assert(self.slots@.subrange(0, n as int) =~= self.slots@);
        }
        k
    }
}

/// Law: a retired handle can never be valid. Together with the contracts
/// of [`HandleTable::free`] (which retires the freed handle) and
/// [`HandleTable::allocate`] (which keeps every retired handle retired),
/// this says that once a handle is freed, it never validates again, even
/// if its slot is reused by a later allocation.
pub proof fn lemma_retired_never_valid<T>(t: HandleTable<T>, h: Handle)
    requires
        t.retired(h),
    ensures
        !t.valid(h),
{
}

} // verus!
