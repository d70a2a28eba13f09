//! The registry of loaded libraries. Each live library handle is either
//! unbound (created for later linking) or linked to exactly one loader
//! handle and one loader-internal handle; removal retires the handle for
//! good.

use vstd::prelude::*;

use crate::errors::LibraryError;
use crate::handle_table::{Handle, HandleTable};
use crate::loader::InternalLibraryHandle;
use crate::loader_registry::LoaderHandle;

verus! {

/// Handle to a loaded (or not-yet-linked) library.
#[derive(Clone, Copy, PartialEq, Eq, Structural, Debug)]
pub struct LibraryHandle {
    pub handle: Handle,
}

/// What a live library handle is bound to: nothing yet, or one loader
/// together with that loader's internal handle for the library.
#[derive(Clone, Copy, PartialEq, Eq, Structural, Debug)]
pub enum LibraryLink {
    /// Created for later linking; no loader owns it yet.
    Unbound,
    /// Bound to the loader that loaded it and to the loader's own
    /// handle for the library.
    Linked { loader: LoaderHandle, internal: InternalLibraryHandle },
}

/// Tracks every live library handle and its link state.
pub struct LibraryRegistry {
    table: HandleTable<LibraryLink>,
}

impl LibraryRegistry {
    /// Is `h` a live library handle?
    pub closed spec fn valid(self, h: LibraryHandle) -> bool {
        self.table.valid(h.handle)
    }

    /// Has `h` been retired by removal or unload?
    pub closed spec fn retired(self, h: LibraryHandle) -> bool {
        self.table.retired(h.handle)
    }

    /// The link state of a live handle.
    pub closed spec fn link_of(self, h: LibraryHandle) -> LibraryLink {
        self.table.entry_at(h.handle)
    }

    /// Number of live library handles.
    pub closed spec fn count_spec(self) -> nat {
        self.table.count_spec()
    }

    /// Structural invariant of the backing table.
    pub closed spec fn wf(self) -> bool {
        self.table.wf()
    }

    /// Law: a retired library handle can never be valid.
    pub proof fn lemma_retired_never_valid(self, h: LibraryHandle)
        requires
            self.retired(h),
        ensures
            !self.valid(h),
    {
        crate::handle_table::lemma_retired_never_valid(self.table, h.handle);
    }

    /// An empty registry.
    pub fn new() -> (r: LibraryRegistry)
        ensures
            r.wf(),
            r.count_spec() == 0,
            forall|h: LibraryHandle| !r.valid(h) && !r.retired(h),
    {
        LibraryRegistry { table: HandleTable::new() }
    }

    /// Mint a live handle in the given link state. Used by the loading
    /// path with a full link, and by the bare-creation path with
    /// [`LibraryLink::Unbound`].
    pub fn create_handle(&mut self, link: LibraryLink) -> (h: LibraryHandle)
        requires
            old(self).wf(),
        ensures
            final(self).wf(),
            final(self).valid(h),
            final(self).link_of(h) == link,
            !old(self).valid(h),
            !old(self).retired(h),
            final(self).count_spec() == old(self).count_spec() + 1,
            forall|h2: LibraryHandle|
                old(self).valid(h2) ==> final(self).valid(h2) && final(self).link_of(h2)
                    == old(self).link_of(h2),
            forall|h2: LibraryHandle| old(self).retired(h2) ==> final(self).retired(h2) && h2 != h,
            forall|h2: LibraryHandle| h2 != h && !old(self).valid(h2) ==> !final(self).valid(h2),
    {
        let h = self.table.allocate(link);
        LibraryHandle { handle: h }
    }

    /// Retire a library handle without touching any loader: pure handle
    /// teardown, intentionally decoupled from resource release. Fails
    /// with `InvalidHandle`, leaving the registry untouched, exactly
    /// when `h` is not live.
    pub fn remove_handle(&mut self, h: LibraryHandle) -> (r: Option<LibraryError>)
        requires
            old(self).wf(),
        ensures
            final(self).wf(),
            !old(self).valid(h) ==> (r matches Some(LibraryError::InvalidHandle)) && *final(self)
                == *old(self),
            old(self).valid(h) ==> {
                &&& r is None
                &&& final(self).retired(h)
                &&& !final(self).valid(h)
                &&& final(self).count_spec() + 1 == old(self).count_spec()
                &&& forall|h2: LibraryHandle|
                    h2 != h && old(self).valid(h2) ==> final(self).valid(h2)
                        && final(self).link_of(h2) == old(self).link_of(h2)
                &&& forall|h2: LibraryHandle| !old(self).valid(h2) ==> !final(self).valid(h2)
                &&& forall|h2: LibraryHandle| old(self).retired(h2) ==> final(self).retired(h2)
            },
    {
        match self.table.free(h.handle) {
            Err(e) => Some(e),
            Ok(()) => None,
        }
    }

    /// Overwrite the link of a live handle with a new loader and
    /// internal handle pair. The previous link is not released here:
    /// whatever resource it named stays with the caller. Fails with
    /// `InvalidHandle`, leaving the registry untouched, exactly when
    /// `h` is not live.
    pub fn link(
        &mut self,
        h: LibraryHandle,
        loader: LoaderHandle,
        internal: InternalLibraryHandle,
    ) -> (r: Option<LibraryError>)
        requires
            old(self).wf(),
        ensures
            final(self).wf(),
            !old(self).valid(h) ==> (r matches Some(LibraryError::InvalidHandle)) && *final(self)
                == *old(self),
            old(self).valid(h) ==> {
                &&& r is None
                &&& final(self).valid(h)
                &&& final(self).link_of(h) == (LibraryLink::Linked { loader, internal })
                &&& final(self).count_spec() == old(self).count_spec()
                &&& forall|h2: LibraryHandle|
                    h2 != h && old(self).valid(h2) ==> final(self).valid(h2)
                        && final(self).link_of(h2) == old(self).link_of(h2)
                &&& forall|h2: LibraryHandle| !old(self).valid(h2) ==> !final(self).valid(h2)
                &&& forall|h2: LibraryHandle| old(self).retired(h2) ==> final(self).retired(h2)
            },
    {
        if !self.table.validate(h.handle) {
            return Some(LibraryError::InvalidHandle);
        }
        self.table.store(h.handle, LibraryLink::Linked { loader, internal });
        None
    }

    /// Is `h` a live library handle?
    pub fn handle_exists(&self, h: LibraryHandle) -> (r: bool)
        ensures
            r == self.valid(h),
    {
        self.table.validate(h.handle)
    }

    /// The link state of a live handle, as a plain value.
    pub fn link_state(&self, h: LibraryHandle) -> (r: LibraryLink)
        requires
            self.valid(h),
        ensures
            r == self.link_of(h),
    {
        *self.table.get(h.handle)
    }

    /// The loader and internal handle a live handle is linked to. Fails
    /// with `InvalidHandle` when `h` is not live, and with `NotLinked`
    /// when it is live but unbound.
    pub fn resolve_internal(&self, h: LibraryHandle) -> (r: Result<
        (LoaderHandle, InternalLibraryHandle),
        LibraryError,
    >)
        ensures
            !self.valid(h) ==> (r matches Err(LibraryError::InvalidHandle)),
            self.valid(h) && self.link_of(h) is Unbound ==> (r matches Err(
                LibraryError::NotLinked,
            )),
            self.valid(h) ==> (self.link_of(h) matches LibraryLink::Linked { loader, internal }
                ==> r == Ok::<_, LibraryError>((loader, internal))),
    {
        if !self.table.validate(h.handle) {
            return Err(LibraryError::InvalidHandle);
        }
        match self.table.get(h.handle) {
            LibraryLink::Unbound => Err(LibraryError::NotLinked),
            LibraryLink::Linked { loader, internal } => Ok((*loader, *internal)),
        }
    }
}

} // verus!
