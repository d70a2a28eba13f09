//! The registry of pluggable library loaders: it binds each registered
//! loader to a library type tag, hands out generation-counted handles
//! for them, and keeps the tags unique among live registrations.

use vstd::prelude::*;

use crate::errors::LibraryError;
use crate::handle_table::{Handle, HandleTable};
use crate::loader::LibraryType;

verus! {

/// Handle to a registered loader, minted by
/// [`LoaderRegistry::register`] and retired by
/// [`LoaderRegistry::unregister`].
#[derive(Clone, Copy, PartialEq, Eq, Structural, Debug)]
pub struct LoaderHandle {
    pub handle: Handle,
}

struct LoaderEntry<L> {
    lib_type: LibraryType,
    loader: L,
}

/// Maps library type tags to registered loader implementations. A tag is
/// bound to at most one live loader at a time.
pub struct LoaderRegistry<L> {
    table: HandleTable<LoaderEntry<L>>,
}

impl<L> LoaderRegistry<L> {
    /// Is `h` a live loader handle?
    pub closed spec fn valid(self, h: LoaderHandle) -> bool {
        self.table.valid(h.handle)
    }

    /// Has `h` been retired by an unregistration?
    pub closed spec fn retired(self, h: LoaderHandle) -> bool {
        self.table.retired(h.handle)
    }

    /// The type tag a live loader is bound to.
    pub closed spec fn type_of(self, h: LoaderHandle) -> Seq<u8> {
        self.table.entry_at(h.handle).lib_type@
    }

    /// The loader implementation behind a live handle.
    pub closed spec fn loader_of(self, h: LoaderHandle) -> L {
        self.table.entry_at(h.handle).loader
    }

    spec fn slot_type(self, i: int) -> Seq<u8> {
        self.table.value_at(i).lib_type@
    }

    /// Is some live loader bound to the tag `t`?
    pub closed spec fn registered(self, t: Seq<u8>) -> bool {
        exists|i: int|
            0 <= i < self.table.slot_count() && self.table.live_at(i) && #[trigger] self.slot_type(
                i,
            ) == t
    }

    /// Number of live registrations.
    pub closed spec fn count_spec(self) -> nat {
        self.table.count_spec()
    }

    /// Structural invariant: the backing table is well formed and no two
    /// live registrations share a type tag.
    pub closed spec fn wf(self) -> bool {
        &&& self.table.wf()
        &&& forall|i: int, j: int|
            0 <= i < self.table.slot_count() && 0 <= j < self.table.slot_count() && i != j
                && self.table.live_at(i) && self.table.live_at(j) ==> #[trigger] self.slot_type(i)
                != #[trigger] self.slot_type(j)
    }

    /// Law: a retired loader handle can never be valid.
    pub proof fn lemma_retired_never_valid(self, h: LoaderHandle)
        requires
            self.retired(h),
        ensures
            !self.valid(h),
    {
        crate::handle_table::lemma_retired_never_valid(self.table, h.handle);
    }

    /// An empty registry.
    pub fn new() -> (r: LoaderRegistry<L>)
        ensures
            r.wf(),
            r.count_spec() == 0,
            forall|h: LoaderHandle| !r.valid(h) && !r.retired(h),
            forall|t: Seq<u8>| !r.registered(t),
    {
        LoaderRegistry { table: HandleTable::new() }
    }

    /// Bind `loader` to `lib_type` and mint a handle for the
    /// registration. Fails with `TypeAlreadyRegistered`, leaving the
    /// registry untouched, exactly when the tag is already bound; the
    /// pre-existing registration is never disturbed.
    pub fn register(&mut self, loader: L, lib_type: LibraryType) -> (r: Result<
        LoaderHandle,
        LibraryError,
    >)
        requires
            old(self).wf(),
        ensures
            final(self).wf(),
            old(self).registered(lib_type@) ==> (r matches Err(
                LibraryError::TypeAlreadyRegistered,
            )) && *final(self) == *old(self),
            !old(self).registered(lib_type@) ==> (r matches Ok(h) && {
                &&& final(self).valid(h)
                &&& final(self).type_of(h) == lib_type@
                &&& final(self).loader_of(h) == loader
                &&& !old(self).valid(h)
                &&& !old(self).retired(h)
                &&& final(self).count_spec() == old(self).count_spec() + 1
                &&& forall|h2: LoaderHandle|
                    old(self).valid(h2) ==> final(self).valid(h2) && final(self).type_of(h2)
                        == old(self).type_of(h2) && final(self).loader_of(h2)
                        == old(self).loader_of(h2)
                &&& forall|h2: LoaderHandle|
                    old(self).retired(h2) ==> final(self).retired(h2) && h2 != h
                &&& forall|h2: LoaderHandle| h2 != h && !old(self).valid(h2) ==> !final(self).valid(h2)
                &&& forall|t: Seq<u8>|
                    final(self).registered(t) <==> (old(self).registered(t) || t == lib_type@)
            }),
    {
        if self.type_exists(&lib_type) {
            return Err(LibraryError::TypeAlreadyRegistered);
        }
        let ghost pre = *self;
        let ghost t = lib_type@;
        let h = self.table.allocate(LoaderEntry { lib_type, loader });
        proof {
            assert forall|t2: Seq<u8>| self.registered(t2) implies (pre.registered(t2) || t2
                == t) by {
                let i = choose|i: int|
                    0 <= i < self.table.slot_count() && self.table.live_at(i)
                        && #[trigger] self.slot_type(i) == t2;
                if i != h.index {
                    assert(pre.table.live_at(i) && pre.slot_type(i) == t2);
                }
            }
            assert forall|t2: Seq<u8>| (pre.registered(t2) || t2 == t) implies self.registered(
                t2,
            ) by {
                if pre.registered(t2) {
                    let i = choose|i: int|
                        0 <= i < pre.table.slot_count() && pre.table.live_at(i)
                            && #[trigger] pre.slot_type(i) == t2;
                    assert(self.table.live_at(i) && self.slot_type(i) == t2);
                } else {
                    assert(self.table.live_at(h.index as int) && self.slot_type(
                        h.index as int,
                    ) == t2);
                }
            }
            assert forall|i: int, j: int|
                0 <= i < self.table.slot_count() && 0 <= j < self.table.slot_count() && i != j
                    && self.table.live_at(i) && self.table.live_at(j) implies #[trigger] self
                .slot_type(i) != #[trigger] self.slot_type(j) by {
                if i != h.index && j != h.index {
                    assert(pre.slot_type(i) != pre.slot_type(j));
                } else if i == h.index {
                    assert(pre.table.live_at(j) && pre.slot_type(j) == self.slot_type(j));
                    assert(!pre.registered(t) ==> pre.slot_type(j) != t);
                } else {
                    assert(pre.table.live_at(i) && pre.slot_type(i) == self.slot_type(i));
                }
            }
        }
        Ok(LoaderHandle { handle: h })
    }

    /// Retire a registration, freeing its handle and dropping the stored
    /// loader. Fails with `InvalidHandle`, leaving the registry
    /// untouched, exactly when `h` is not live. Libraries already loaded
    /// through the loader are not unloaded: that is the caller's
    /// responsibility.
    pub fn unregister(&mut self, h: LoaderHandle) -> (r: Option<LibraryError>)
        requires
            old(self).wf(),
        ensures
            final(self).wf(),
            !old(self).valid(h) ==> (r matches Some(LibraryError::InvalidHandle)) && *final(self)
                == *old(self),
            old(self).valid(h) ==> {
                &&& r is None
                &&& final(self).retired(h)
                &&& !final(self).valid(h)
                &&& final(self).count_spec() + 1 == old(self).count_spec()
                &&& forall|h2: LoaderHandle|
                    h2 != h && old(self).valid(h2) ==> final(self).valid(h2)
                        && final(self).type_of(h2) == old(self).type_of(h2)
                        && final(self).loader_of(h2) == old(self).loader_of(h2)
                &&& forall|h2: LoaderHandle| !old(self).valid(h2) ==> !final(self).valid(h2)
                &&& forall|h2: LoaderHandle| old(self).retired(h2) ==> final(self).retired(h2)
                &&& forall|t: Seq<u8>|
                    final(self).registered(t) ==> old(self).registered(t)
                        && t != old(self).type_of(h)
                &&& forall|t: Seq<u8>|
                    old(self).registered(t) && t != old(self).type_of(h) ==> final(self).registered(
                        t,
                    )
            },
    {
        let ghost pre = *self;
        match self.table.free(h.handle) {
            Err(e) => Some(e),
            Ok(()) => {
                proof {
                    let hi = h.handle.index as int;
                    assert forall|i: int, j: int|
                        0 <= i < self.table.slot_count() && 0 <= j < self.table.slot_count() && i
                            != j && self.table.live_at(i) && self.table.live_at(j) implies
                        #[trigger] self.slot_type(i) != #[trigger] self.slot_type(j) by {
                        assert(i != hi && j != hi);
                        assert(pre.table.live_at(i) && pre.slot_type(i) == self.slot_type(i));
                        assert(pre.table.live_at(j) && pre.slot_type(j) == self.slot_type(j));
                    }
                    assert forall|t2: Seq<u8>| self.registered(t2) implies (pre.registered(
                        t2,
                    ) && t2 != pre.type_of(h)) by {
                        let i = choose|i: int|
                            0 <= i < self.table.slot_count() && self.table.live_at(i)
                                && #[trigger] self.slot_type(i) == t2;
                        assert(i != hi);
                        assert(pre.table.live_at(i) && pre.slot_type(i) == t2);
                        assert(pre.slot_type(i) != pre.slot_type(hi));
                    }
                    assert forall|t2: Seq<u8>| pre.registered(t2) && t2 != pre.type_of(h) implies
                        self.registered(t2) by {
                        let i = choose|i: int|
                            0 <= i < pre.table.slot_count() && pre.table.live_at(i)
                                && #[trigger] pre.slot_type(i) == t2;
                        assert(i != hi);
                        assert(self.table.live_at(i) && self.slot_type(i) == t2);
                    }
                }
                None
            },
        }
    }

    /// Number of live registrations.
    pub fn count(&self) -> (r: usize)
        ensures
            r == self.count_spec(),
    {
        self.table.count()
    }

    /// Is some live loader bound to this tag?
    pub fn type_exists(&self, lib_type: &LibraryType) -> (r: bool)
        ensures
            r == self.registered(lib_type@),
    {
        let n = self.table.slot_len();
        let mut i: usize = 0;
        while i < n
            invariant
                0 <= i <= n,
                n == self.table.slot_count(),
                forall|j: int|
                    0 <= j < i ==> !(self.table.live_at(j) && #[trigger] self.slot_type(j)
                        == lib_type@),
            decreases n - i,
        {
            match self.table.peek(i) {
                Some(entry) => {
                    if entry.lib_type.matches(lib_type) {
                        assert(self.slot_type(i as int) == lib_type@);
                        return true;
                    }
                },
                None => {},
            }
            i = i + 1;
        }
        false
    }

    /// The first `n` entries of `s` list each registered type tag
    /// exactly once and nothing else.
    pub open spec fn lists_types(self, s: Seq<LibraryType>, n: int) -> bool {
        &&& forall|m1: int, m2: int| 0 <= m1 < m2 < n ==> (#[trigger] s[m1])@ != (#[trigger] s[m2])@
        &&& forall|m: int| 0 <= m < n ==> self.registered((#[trigger] s[m])@)
        &&& forall|t: Seq<u8>|
            self.registered(t) ==> exists|m: int| 0 <= m < n && (#[trigger] s[m])@ == t
    }

    /// Copy the tag of every live registration into `buf`, in an
    /// unspecified but stable order, and report how many were written.
    /// Fails with `BufferTooSmall`, writing nothing, exactly when the
    /// buffer holds fewer slots than [`LoaderRegistry::count`]; entries
    /// past the written count are left untouched.
    #[verifier::rlimit(100)]
    pub fn get_library_types(&self, buf: &mut Vec<LibraryType>) -> (r: Result<usize, LibraryError>)
        requires
            self.wf(),
        ensures
            old(buf)@.len() < self.count_spec() ==> (r matches Err(LibraryError::BufferTooSmall))
                && final(buf)@ == old(buf)@,
            old(buf)@.len() >= self.count_spec() ==> (r matches Ok(c) && {
                &&& c == self.count_spec()
                &&& final(buf)@.len() == old(buf)@.len()
                &&& forall|m: int| c <= m < old(buf)@.len() ==> final(buf)@[m] == old(buf)@[m]
                &&& self.lists_types(final(buf)@, c as int)
            }),
    {
        let n = self.count();
        if buf.len() < n {
            return Err(LibraryError::BufferTooSmall);
        }
        let ghost buf0 = buf@;
        let slots = self.table.slot_len();
        let mut i: usize = 0;
        let mut k: usize = 0;
        let ghost mut srcs: Seq<int> = Seq::empty();
        let ghost mut pos: Map<int, int> = Map::empty();
        proof {
            self.table.lemma_count_prefix_zero();
        }
        while i < slots
            invariant
                0 <= i <= slots,
                slots == self.table.slot_count(),
                self.wf(),
                n == self.count_spec(),
                n <= buf0.len(),
                k as nat == self.table.count_prefix(i as int),
                buf@.len() == buf0.len(),
                srcs.len() == k as nat,
                forall|m: int| k <= m < buf0.len() ==> buf@[m] == buf0[m],
                forall|m: int|
                    0 <= m < k ==> 0 <= #[trigger] srcs[m] < i && self.table.live_at(srcs[m])
                        && (buf@[m])@ == self.slot_type(srcs[m]),
                forall|m1: int, m2: int|
                    0 <= m1 < m2 < k ==> #[trigger] srcs[m1] != #[trigger] srcs[m2],
                forall|j: int|
                    0 <= j < i && #[trigger] self.table.live_at(j) ==> pos.contains_key(j)
                        && 0 <= pos[j] < k && (buf@[pos[j]])@ == self.slot_type(j),
            decreases slots - i,
        {
            proof {
                self.table.lemma_count_prefix_step(i as int);
            }
            match self.table.peek(i) {
                Some(entry) => {
                    proof {
                        self.table.lemma_count_prefix_live(i as int);
                    }
                    let ghost pre_buf = buf@;
                    let ghost pre_k = k as int;
                    let ghost pre_pos = pos;
                    let t = entry.lib_type.duplicate();
                    buf[k] = t;
                    proof {
                        srcs = srcs.push(i as int);
                        pos = pos.insert(i as int, pre_k);
                        assert(buf@ == pre_buf.update(pre_k, t));
                        assert forall|j: int|
                            0 <= j < i + 1 && #[trigger] self.table.live_at(j) implies pos.contains_key(
                            j,
                        ) && 0 <= pos[j] < pre_k + 1 && (buf@[pos[j]])@ == self.slot_type(j) by {
                            if j == i as int {
                                assert(pos[j] == pre_k);
                                assert((buf@[pre_k])@ == self.slot_type(j));
                            } else {
                                assert(pre_pos.contains_key(j));
                                assert(0 <= pre_pos[j]);
                                assert(pre_pos[j] < pre_k);
                                assert(pos[j] == pre_pos[j]);
                                assert(buf@[pos[j]] == pre_buf[pos[j]]);
                            }
                        }
                    }
                    k = k + 1;
                },
                None => {
                    proof {
                        assert forall|j: int|
                            0 <= j < i + 1 && #[trigger] self.table.live_at(j) implies pos.contains_key(
                            j,
                        ) && 0 <= pos[j] < k && (buf@[pos[j]])@ == self.slot_type(j) by {
                            assert(j < i);
                        }
                    }
                },
            }
            i = i + 1;
        }
        proof {
            self.table.lemma_count_prefix_full();
            assert forall|m1: int, m2: int| 0 <= m1 < m2 < k implies (#[trigger] buf@[m1])@ != (
            #[trigger] buf@[m2])@ by {
                assert(self.table.live_at(srcs[m1]) && self.table.live_at(srcs[m2]));
                assert(self.slot_type(srcs[m1]) != self.slot_type(srcs[m2]));
            }
            assert forall|m: int| 0 <= m < k implies self.registered((#[trigger] buf@[m])@) by {
                assert(0 <= srcs[m] < self.table.slot_count() && self.table.live_at(srcs[m])
                    && self.slot_type(srcs[m]) == (buf@[m])@);
            }
            assert forall|t: Seq<u8>| self.registered(t) implies exists|m: int|
                0 <= m < k && (#[trigger] buf@[m])@ == t by {
                let j = choose|j: int|
                    0 <= j < self.table.slot_count() && self.table.live_at(j)
                        && #[trigger] self.slot_type(j) == t;
                assert(pos.contains_key(j));
                assert(0 <= pos[j]);
                assert(pos[j] < k);
                assert((buf@[pos[j]])@ == t);
            }
        }
        Ok(k)
    }

    /// Is `h` a live loader handle?
    pub fn handle_exists(&self, h: LoaderHandle) -> (r: bool)
        ensures
            r == self.valid(h),
    {
        self.table.validate(h.handle)
    }

    /// The handle of the live loader bound to `lib_type`; fails with
    /// `UnknownType` when the tag is not registered.
    pub fn lookup_by_type(&self, lib_type: &LibraryType) -> (r: Result<LoaderHandle, LibraryError>)
        requires
            self.wf(),
        ensures
            self.registered(lib_type@) ==> (r matches Ok(h) && self.valid(h) && self.type_of(h)
                == lib_type@),
            !self.registered(lib_type@) ==> (r matches Err(LibraryError::UnknownType)),
    {
        let n = self.table.slot_len();
        let mut i: usize = 0;
        while i < n
            invariant
                0 <= i <= n,
                n == self.table.slot_count(),
                forall|j: int|
                    0 <= j < i ==> !(self.table.live_at(j) && #[trigger] self.slot_type(j)
                        == lib_type@),
            decreases n - i,
        {
            match self.table.peek(i) {
                Some(entry) => {
                    if entry.lib_type.matches(lib_type) {
                        assert(self.slot_type(i as int) == lib_type@);
                        let h = self.table.handle_at(i);
                        return Ok(LoaderHandle { handle: h });
                    }
                },
                None => {},
            }
            i = i + 1;
        }
        Err(LibraryError::UnknownType)
    }

    /// Borrow the loader implementation behind a live handle.
    pub fn loader_ref(&self, h: LoaderHandle) -> (r: &L)
        requires
            self.valid(h),
        ensures
            *r == self.loader_of(h),
    {
        &self.table.get(h.handle).loader
    }
}

} // verus!
