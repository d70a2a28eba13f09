//! The public protocol of the library management core: register and
//! unregister loaders, load and unload libraries, resolve symbols, and
//! the advanced bare-handle operations (create, remove, link) whose
//! hazards are documented on each method.
//!
//! Per-handle state machine: a library handle starts `Unbound` (bare
//! creation) or directly `Linked` (the normal loading path), and moves
//! to its terminal removed state through unloading or removal; a removed
//! handle is permanently invalid. The surrounding runtime's global lock
//! must be held around every mutating operation; the core performs no
//! locking of its own.

use vstd::prelude::*;

use crate::errors::LibraryError;
use crate::library_registry::{LibraryHandle, LibraryLink, LibraryRegistry};
use crate::loader::{InternalLibraryHandle, LibraryLoader, LibraryType, Symbol, SymbolKind};
use crate::loader_registry::{LoaderHandle, LoaderRegistry};

verus! {

/// The library management facade: one loader registry and one library
/// registry, mutated together under the caller's lock.
pub struct LibraryApi<L> {
    loaders: LoaderRegistry<L>,
    libraries: LibraryRegistry,
}

impl<L> LibraryApi<L> {
    /// Is `h` a live loader handle?
    pub closed spec fn loader_valid(self, h: LoaderHandle) -> bool {
        self.loaders.valid(h)
    }

    /// Has `h` been retired by unregistration?
    pub closed spec fn loader_retired(self, h: LoaderHandle) -> bool {
        self.loaders.retired(h)
    }

    /// The type tag a live loader is bound to.
    pub closed spec fn loader_type(self, h: LoaderHandle) -> Seq<u8> {
        self.loaders.type_of(h)
    }

    /// The loader implementation behind a live handle.
    pub closed spec fn loader_impl(self, h: LoaderHandle) -> L {
        self.loaders.loader_of(h)
    }

    /// Is some live loader bound to the tag `t`?
    pub closed spec fn type_registered(self, t: Seq<u8>) -> bool {
        self.loaders.registered(t)
    }

    /// Number of live loader registrations.
    pub closed spec fn loader_count(self) -> nat {
        self.loaders.count_spec()
    }

    /// The first `n` entries of `s` list each registered type exactly
    /// once and nothing else.
    pub closed spec fn lists_types(self, s: Seq<LibraryType>, n: int) -> bool {
        self.loaders.lists_types(s, n)
    }

    /// Is `h` a live library handle?
    pub closed spec fn library_valid(self, h: LibraryHandle) -> bool {
        self.libraries.valid(h)
    }

    /// Has `h` been retired by unloading or removal?
    pub closed spec fn library_retired(self, h: LibraryHandle) -> bool {
        self.libraries.retired(h)
    }

    /// The link state of a live library handle.
    pub closed spec fn library_link(self, h: LibraryHandle) -> LibraryLink {
        self.libraries.link_of(h)
    }

    /// Number of live library handles.
    pub closed spec fn library_count(self) -> nat {
        self.libraries.count_spec()
    }

    /// Structural invariant of both registries.
    pub closed spec fn wf(self) -> bool {
        self.loaders.wf() && self.libraries.wf()
    }

    /// Do `self` and `other` hold the very same loader registrations?
    pub closed spec fn same_loaders(self, other: LibraryApi<L>) -> bool {
        self.loaders == other.loaders
    }

    /// Do `self` and `other` hold the very same library handles?
    pub closed spec fn same_libraries(self, other: LibraryApi<L>) -> bool {
        self.libraries == other.libraries
    }
}

/// Law: identical loader registries agree on every loader fact. This is
/// what lets a caller carry loader knowledge across operations that
/// only touch library handles.
pub proof fn lemma_same_loaders_facts<L>(a: LibraryApi<L>, b: LibraryApi<L>)
    requires
        a.same_loaders(b),
    ensures
        forall|h: LoaderHandle| a.loader_valid(h) == b.loader_valid(h),
        forall|h: LoaderHandle| a.loader_retired(h) == b.loader_retired(h),
        forall|h: LoaderHandle| a.loader_valid(h) ==> a.loader_type(h) == b.loader_type(h),
        forall|h: LoaderHandle| a.loader_valid(h) ==> a.loader_impl(h) == b.loader_impl(h),
        forall|t: Seq<u8>| a.type_registered(t) == b.type_registered(t),
        a.loader_count() == b.loader_count(),
{
}

/// Law: identical library registries agree on every library fact.
pub proof fn lemma_same_libraries_facts<L>(a: LibraryApi<L>, b: LibraryApi<L>)
    requires
        a.same_libraries(b),
    ensures
        forall|h: LibraryHandle| a.library_valid(h) == b.library_valid(h),
        forall|h: LibraryHandle| a.library_retired(h) == b.library_retired(h),
        forall|h: LibraryHandle| a.library_valid(h) ==> a.library_link(h) == b.library_link(h),
        a.library_count() == b.library_count(),
{
}

/// Law: a retired library handle never validates again, whatever was
/// loaded, linked or removed since; a handle that once reached the
/// removed state is permanently invalid.
pub proof fn lemma_library_retired_never_valid<L>(api: LibraryApi<L>, h: LibraryHandle)
    requires
        api.library_retired(h),
    ensures
        !api.library_valid(h),
{
    api.libraries.lemma_retired_never_valid(h);
}

/// Law: a retired loader handle never validates again.
pub proof fn lemma_loader_retired_never_valid<L>(api: LibraryApi<L>, h: LoaderHandle)
    requires
        api.loader_retired(h),
    ensures
        !api.loader_valid(h),
{
    api.loaders.lemma_retired_never_valid(h);
}

impl<L: LibraryLoader> LibraryApi<L> {
    /// An empty facade: nothing registered, nothing loaded.
    pub fn new() -> (r: LibraryApi<L>)
        ensures
            r.wf(),
            r.loader_count() == 0,
            r.library_count() == 0,
            forall|h: LoaderHandle| !r.loader_valid(h) && !r.loader_retired(h),
            forall|h: LibraryHandle| !r.library_valid(h) && !r.library_retired(h),
            forall|t: Seq<u8>| !r.type_registered(t),
    {
        LibraryApi { loaders: LoaderRegistry::new(), libraries: LibraryRegistry::new() }
    }

    /// Register a loader for a library type. Fails with
    /// `TypeAlreadyRegistered`, leaving everything untouched, exactly
    /// when the type is already bound; the pre-existing registration is
    /// never disturbed.
    pub fn register_loader(&mut self, loader: L, lib_type: LibraryType) -> (r: Result<
        LoaderHandle,
        LibraryError,
    >)
        requires
            old(self).wf(),
        ensures
            final(self).wf(),
            final(self).same_libraries(*old(self)),
            old(self).type_registered(lib_type@) ==> (r matches Err(
                LibraryError::TypeAlreadyRegistered,
            )) && *final(self) == *old(self),
            !old(self).type_registered(lib_type@) ==> (r matches Ok(h) && {
                &&& final(self).loader_valid(h)
                &&& final(self).loader_type(h) == lib_type@
                &&& final(self).loader_impl(h) == loader
                &&& !old(self).loader_valid(h)
                &&& !old(self).loader_retired(h)
                &&& final(self).loader_count() == old(self).loader_count() + 1
                &&& forall|h2: LoaderHandle|
                    old(self).loader_valid(h2) ==> final(self).loader_valid(h2)
                        && final(self).loader_type(h2) == old(self).loader_type(h2)
                        && final(self).loader_impl(h2) == old(self).loader_impl(h2)
                &&& forall|h2: LoaderHandle|
                    old(self).loader_retired(h2) ==> final(self).loader_retired(h2) && h2 != h
                &&& forall|h2: LoaderHandle|
                    h2 != h && !old(self).loader_valid(h2) ==> !final(self).loader_valid(h2)
                &&& forall|t: Seq<u8>|
                    final(self).type_registered(t) <==> (old(self).type_registered(t) || t
                        == lib_type@)
            }),
    {
        self.loaders.register(loader, lib_type)
    }

    /// Unregister a loader, retiring its handle and dropping the stored
    /// implementation. Fails with `InvalidHandle`, leaving everything
    /// untouched, exactly when the handle is not live. Libraries loaded
    /// through the loader are not unloaded: that is the caller's
    /// responsibility.
    pub fn unregister_loader(&mut self, loader: LoaderHandle) -> (r: Option<LibraryError>)
        requires
            old(self).wf(),
        ensures
            final(self).wf(),
            final(self).same_libraries(*old(self)),
            !old(self).loader_valid(loader) ==> (r matches Some(LibraryError::InvalidHandle))
                && *final(self) == *old(self),
            old(self).loader_valid(loader) ==> {
                &&& r is None
                &&& final(self).loader_retired(loader)
                &&& !final(self).loader_valid(loader)
                &&& final(self).loader_count() + 1 == old(self).loader_count()
                &&& forall|h2: LoaderHandle|
                    h2 != loader && old(self).loader_valid(h2) ==> final(self).loader_valid(h2)
                        && final(self).loader_type(h2) == old(self).loader_type(h2)
                        && final(self).loader_impl(h2) == old(self).loader_impl(h2)
                &&& forall|h2: LoaderHandle|
                    !old(self).loader_valid(h2) ==> !final(self).loader_valid(h2)
                &&& forall|h2: LoaderHandle|
                    old(self).loader_retired(h2) ==> final(self).loader_retired(h2)
                &&& forall|t: Seq<u8>|
                    final(self).type_registered(t) ==> old(self).type_registered(t)
                        && t != old(self).loader_type(loader)
                &&& forall|t: Seq<u8>|
                    old(self).type_registered(t) && t != old(self).loader_type(loader)
                        ==> final(self).type_registered(t)
            },
    {
        self.loaders.unregister(loader)
    }

    /// Number of live loader registrations.
    pub fn get_num_loaders(&self) -> (r: usize)
        ensures
            r == self.loader_count(),
    {
        self.loaders.count()
    }

    /// Copy every registered library type tag into `buf`. Fails with
    /// `BufferTooSmall`, writing nothing, exactly when the buffer holds
    /// fewer slots than [`LibraryApi::get_num_loaders`]; on success the
    /// written prefix lists every registered type exactly once and
    /// entries past it are untouched.
    pub fn get_library_types(&self, buf: &mut Vec<LibraryType>) -> (r: Result<usize, LibraryError>)
        requires
            self.wf(),
        ensures
            old(buf)@.len() < self.loader_count() ==> (r matches Err(LibraryError::BufferTooSmall))
                && final(buf)@ == old(buf)@,
            old(buf)@.len() >= self.loader_count() ==> (r matches Ok(c) && {
                &&& c == self.loader_count()
                &&& final(buf)@.len() == old(buf)@.len()
                &&& forall|m: int| c <= m < old(buf)@.len() ==> final(buf)@[m] == old(buf)@[m]
                &&& self.lists_types(final(buf)@, c as int)
            }),
    {
        self.loaders.get_library_types(buf)
    }

    /// The handle of the loader registered for `lib_type`; fails with
    /// `UnknownType` exactly when the tag is not registered.
    pub fn get_loader_handle(&self, lib_type: &LibraryType) -> (r: Result<
        LoaderHandle,
        LibraryError,
    >)
        requires
            self.wf(),
        ensures
            self.type_registered(lib_type@) ==> (r matches Ok(h) && self.loader_valid(h)
                && self.loader_type(h) == lib_type@),
            !self.type_registered(lib_type@) ==> (r matches Err(LibraryError::UnknownType)),
    {
        self.loaders.lookup_by_type(lib_type)
    }

    /// Is some loader registered for this tag?
    pub fn library_type_exists(&self, lib_type: &LibraryType) -> (r: bool)
        ensures
            r == self.type_registered(lib_type@),
    {
        self.loaders.type_exists(lib_type)
    }

    /// Is `library` a live library handle?
    pub fn library_exists(&self, library: LibraryHandle) -> (r: bool)
        ensures
            r == self.library_valid(library),
    {
        self.libraries.handle_exists(library)
    }

    /// Is `loader` a live loader handle?
    pub fn loader_exists(&self, loader: LoaderHandle) -> (r: bool)
        ensures
            r == self.loader_valid(loader),
    {
        self.loaders.handle_exists(loader)
    }

    /// Borrow the loader implementation behind a live loader handle.
    /// Hazard: driving a loader directly bypasses the bookkeeping of
    /// this facade. Fails with `InvalidHandle` exactly when the handle
    /// is stale.
    pub fn get_loader_interface(&self, loader: LoaderHandle) -> (r: Result<&L, LibraryError>)
        ensures
            self.loader_valid(loader) ==> (r matches Ok(l) && *l == self.loader_impl(loader)),
            !self.loader_valid(loader) ==> (r matches Err(LibraryError::InvalidHandle)),
    {
        if self.loaders.handle_exists(loader) {
            Ok(self.loaders.loader_ref(loader))
        } else {
            Err(LibraryError::InvalidHandle)
        }
    }

    /// Mint a bare, unbound library handle for an advanced linking
    /// scenario. Hazard: the handle must be linked before any symbol or
    /// unload operation can succeed; until then those operations fail
    /// with `NotLinked`.
    pub fn create_library_handle(&mut self) -> (h: LibraryHandle)
        requires
            old(self).wf(),
        ensures
            final(self).wf(),
            final(self).same_loaders(*old(self)),
            final(self).library_valid(h),
            final(self).library_link(h) is Unbound,
            !old(self).library_valid(h),
            !old(self).library_retired(h),
            final(self).library_count() == old(self).library_count() + 1,
            forall|h2: LibraryHandle|
                old(self).library_valid(h2) ==> final(self).library_valid(h2)
                    && final(self).library_link(h2) == old(self).library_link(h2),
            forall|h2: LibraryHandle|
                old(self).library_retired(h2) ==> final(self).library_retired(h2) && h2 != h,
            forall|h2: LibraryHandle|
                h2 != h && !old(self).library_valid(h2) ==> !final(self).library_valid(h2),
    {
        self.libraries.create_handle(LibraryLink::Unbound)
    }

    /// Retire a library handle without instructing any loader to
    /// unload: pure handle teardown. Hazard: whatever resource the old
    /// link named stays allocated unless released out of band. Fails
    /// with `InvalidHandle`, leaving everything untouched, exactly when
    /// the handle is not live.
    pub fn remove_library_handle(&mut self, library: LibraryHandle) -> (r: Option<LibraryError>)
        requires
            old(self).wf(),
        ensures
            final(self).wf(),
            final(self).same_loaders(*old(self)),
            !old(self).library_valid(library) ==> (r matches Some(LibraryError::InvalidHandle))
                && *final(self) == *old(self),
            old(self).library_valid(library) ==> {
                &&& r is None
                &&& final(self).library_retired(library)
                &&& !final(self).library_valid(library)
                &&& final(self).library_count() + 1 == old(self).library_count()
                &&& forall|h2: LibraryHandle|
                    h2 != library && old(self).library_valid(h2) ==> final(self).library_valid(h2)
                        && final(self).library_link(h2) == old(self).library_link(h2)
                &&& forall|h2: LibraryHandle|
                    !old(self).library_valid(h2) ==> !final(self).library_valid(h2)
                &&& forall|h2: LibraryHandle|
                    old(self).library_retired(h2) ==> final(self).library_retired(h2)
            },
    {
        self.libraries.remove_handle(library)
    }

    /// Link a library handle to a loader and that loader's internal
    /// handle, overwriting any previous link. Hazard: the previous
    /// link's resource is leaked unless the caller releases it
    /// separately. Fails with `InvalidHandle`, leaving everything
    /// untouched, exactly when either handle is not live.
    pub fn link_library(
        &mut self,
        library: LibraryHandle,
        loader: LoaderHandle,
        internal: InternalLibraryHandle,
    ) -> (r: Option<LibraryError>)
        requires
            old(self).wf(),
        ensures
            final(self).wf(),
            final(self).same_loaders(*old(self)),
            !old(self).library_valid(library) || !old(self).loader_valid(loader) ==> (r matches Some(
                LibraryError::InvalidHandle,
            )) && *final(self) == *old(self),
            old(self).library_valid(library) && old(self).loader_valid(loader) ==> {
                &&& r is None
                &&& final(self).library_valid(library)
                &&& final(self).library_link(library) == (LibraryLink::Linked { loader, internal })
                &&& final(self).library_count() == old(self).library_count()
                &&& forall|h2: LibraryHandle|
                    h2 != library && old(self).library_valid(h2) ==> final(self).library_valid(h2)
                        && final(self).library_link(h2) == old(self).library_link(h2)
                &&& forall|h2: LibraryHandle|
                    !old(self).library_valid(h2) ==> !final(self).library_valid(h2)
                &&& forall|h2: LibraryHandle|
                    old(self).library_retired(h2) ==> final(self).library_retired(h2)
            },
    {
        if !self.loaders.handle_exists(loader) {
            return Some(LibraryError::InvalidHandle);
        }
        self.libraries.link(library, loader, internal)
    }

    /// The loader-internal handle a live library handle is linked to.
    /// Fails with `InvalidHandle` when the handle is not live, and with
    /// `NotLinked` when it is live but unbound.
    pub fn get_loader_library_handle(&self, library: LibraryHandle) -> (r: Result<
        InternalLibraryHandle,
        LibraryError,
    >)
        ensures
            !self.library_valid(library) ==> (r matches Err(LibraryError::InvalidHandle)),
            self.library_valid(library) && self.library_link(library) is Unbound ==> (r matches Err(
                LibraryError::NotLinked,
            )),
            self.library_valid(library) ==> (self.library_link(library) matches LibraryLink::Linked {
                loader,
                internal,
            } ==> r == Ok::<_, LibraryError>(internal)),
    {
        match self.libraries.resolve_internal(library) {
            Ok((_, internal)) => Ok(internal),
            Err(e) => Err(e),
        }
    }

    /// The loader handle a live library handle is linked to. Fails with
    /// `InvalidHandle` when the handle is not live, and with
    /// `NotLinked` when it is live but unbound.
    pub fn get_loader_handle_from_lib(&self, library: LibraryHandle) -> (r: Result<
        LoaderHandle,
        LibraryError,
    >)
        ensures
            !self.library_valid(library) ==> (r matches Err(LibraryError::InvalidHandle)),
            self.library_valid(library) && self.library_link(library) is Unbound ==> (r matches Err(
                LibraryError::NotLinked,
            )),
            self.library_valid(library) ==> (self.library_link(library) matches LibraryLink::Linked {
                loader,
                internal,
            } ==> r == Ok::<_, LibraryError>(loader)),
    {
        match self.libraries.resolve_internal(library) {
            Ok((loader, _)) => Ok(loader),
            Err(e) => Err(e),
        }
    }

    /// Load a library from `path` through the loader behind `loader`.
    /// Fails with `InvalidHandle`, touching nothing, exactly when the
    /// loader handle is stale; fails with `LoadFailed`, wrapping the
    /// loader's own report and touching nothing, when the loader rejects
    /// the path. On success the returned handle is live, linked to this
    /// loader, and distinct from every other handle past or present:
    /// two successful loads of the same path yield two distinct handles.
    pub fn load(&mut self, loader: LoaderHandle, path: &Vec<u8>) -> (r: Result<
        LibraryHandle,
        LibraryError,
    >)
        requires
            old(self).wf(),
        ensures
            final(self).wf(),
            final(self).same_loaders(*old(self)),
            !old(self).loader_valid(loader) ==> (r matches Err(LibraryError::InvalidHandle))
                && *final(self) == *old(self),
            old(self).loader_valid(loader) ==> {
                &&& r is Ok || (r matches Err(LibraryError::LoadFailed(_)))
                &&& (r matches Err(e) ==> *final(self) == *old(self))
                &&& (r matches Ok(h) ==> {
                    &&& final(self).library_valid(h)
                    &&& final(self).library_link(h) matches LibraryLink::Linked {
                        loader: lo,
                        internal,
                    } && lo == loader
                    &&& !old(self).library_valid(h)
                    &&& !old(self).library_retired(h)
                    &&& final(self).library_count() == old(self).library_count() + 1
                    &&& forall|h2: LibraryHandle|
                        old(self).library_valid(h2) ==> final(self).library_valid(h2)
                            && final(self).library_link(h2) == old(self).library_link(h2)
                    &&& forall|h2: LibraryHandle|
                        old(self).library_retired(h2) ==> final(self).library_retired(h2) && h2
                            != h
                    &&& forall|h2: LibraryHandle|
                        h2 != h && !old(self).library_valid(h2) ==> !final(self).library_valid(h2)
                })
            },
    {
        if !self.loaders.handle_exists(loader) {
            return Err(LibraryError::InvalidHandle);
        }
        let outcome = self.loaders.loader_ref(loader).load(path);
        match outcome {
            Ok(internal) => Ok(
                self.libraries.create_handle(LibraryLink::Linked { loader, internal }),
            ),
            Err(e) => Err(LibraryError::LoadFailed(e)),
        }
    }

    /// Unload a library: ask the linked loader to release it, then
    /// retire the handle for good. An unbound handle is simply retired.
    /// Fails with `InvalidHandle`, touching nothing, exactly when the
    /// library handle is stale (a handle already removed always fails
    /// this way) or when the linked loader is no longer registered;
    /// fails with `UnloadFailed`, wrapping the loader's own report and
    /// touching nothing, when the loader refuses. After success every
    /// symbol previously obtained from the library is invalid: a
    /// documented contract the caller must respect, since already
    /// handed-out raw addresses cannot be revoked here.
    pub fn unload(&mut self, library: LibraryHandle) -> (r: Option<LibraryError>)
        requires
            old(self).wf(),
        ensures
            final(self).wf(),
            final(self).same_loaders(*old(self)),
            !old(self).library_valid(library) ==> (r matches Some(LibraryError::InvalidHandle))
                && *final(self) == *old(self),
            old(self).library_valid(library) && old(self).library_link(library) is Unbound ==> r
                is None,
            old(self).library_valid(library) ==> (old(self).library_link(
                library,
            ) matches LibraryLink::Linked { loader, internal } ==> {
                &&& !old(self).loader_valid(loader) ==> (r matches Some(
                    LibraryError::InvalidHandle,
                )) && *final(self) == *old(self)
                &&& old(self).loader_valid(loader) ==> (r is None || (r matches Some(
                    LibraryError::UnloadFailed(_),
                )))
                &&& (r matches Some(LibraryError::UnloadFailed(_)) ==> *final(self) == *old(self))
            }),
            old(self).library_valid(library) && r is None ==> {
                &&& final(self).library_retired(library)
                &&& !final(self).library_valid(library)
                &&& final(self).library_count() + 1 == old(self).library_count()
                &&& forall|h2: LibraryHandle|
                    h2 != library && old(self).library_valid(h2) ==> final(self).library_valid(h2)
                        && final(self).library_link(h2) == old(self).library_link(h2)
                &&& forall|h2: LibraryHandle|
                    !old(self).library_valid(h2) ==> !final(self).library_valid(h2)
                &&& forall|h2: LibraryHandle|
                    old(self).library_retired(h2) ==> final(self).library_retired(h2)
            },
    {
        if !self.libraries.handle_exists(library) {
            return Some(LibraryError::InvalidHandle);
        }
        let link = self.libraries.link_state(library);
        match link {
            LibraryLink::Unbound => {
                match self.libraries.remove_handle(library) {
                    None => None,
                    Some(_) => vstd::pervasive::unreached(),
                }
            },
            LibraryLink::Linked { loader, internal } => {
                if !self.loaders.handle_exists(loader) {
                    return Some(LibraryError::InvalidHandle);
                }
                let outcome = self.loaders.loader_ref(loader).unload(internal);
                match outcome {
                    Some(e) => Some(LibraryError::UnloadFailed(e)),
                    None => {
                        match self.libraries.remove_handle(library) {
                            None => None,
                            Some(_) => vstd::pervasive::unreached(),
                        }
                    },
                }
            },
        }
    }

    /// Resolve a data symbol from a loaded library, routed through the
    /// loader that produced it. Fails with `InvalidHandle` when the
    /// library handle is stale or its loader is gone, with `NotLinked`
    /// when the handle is live but unbound, and with `SymbolNotFound`,
    /// wrapping the loader's report, when the loader finds no such
    /// name. A returned symbol is valid only until the library is
    /// unloaded.
    pub fn get_data_symbol(&self, library: LibraryHandle, name: &Vec<u8>) -> (r: Result<
        Symbol,
        LibraryError,
    >)
        requires
            self.wf(),
        ensures
            !self.library_valid(library) ==> (r matches Err(LibraryError::InvalidHandle)),
            self.library_valid(library) && self.library_link(library) is Unbound ==> (r matches Err(
                LibraryError::NotLinked,
            )),
            self.library_valid(library) ==> (self.library_link(library) matches LibraryLink::Linked {
                loader,
                internal,
            } ==> {
                &&& !self.loader_valid(loader) ==> (r matches Err(LibraryError::InvalidHandle))
                &&& self.loader_valid(loader) ==> {
                    &&& (r matches Ok(s) ==> s.kind == SymbolKind::Data)
                    &&& r is Ok || (r matches Err(LibraryError::SymbolNotFound(_)))
                }
            }),
    {
        match self.libraries.resolve_internal(library) {
            Err(e) => Err(e),
            Ok((loader, internal)) => {
                if !self.loaders.handle_exists(loader) {
                    return Err(LibraryError::InvalidHandle);
                }
                match self.loaders.loader_ref(loader).get_data_symbol(internal, name) {
                    Ok(address) => Ok(Symbol { address, kind: SymbolKind::Data }),
                    Err(e) => Err(LibraryError::SymbolNotFound(e)),
                }
            },
        }
    }

    /// Resolve a function symbol from a loaded library, routed through
    /// the loader that produced it. Same failure behavior as
    /// [`LibraryApi::get_data_symbol`]; the two entry points exist
    /// because some platforms address code and data differently.
    pub fn get_function_symbol(&self, library: LibraryHandle, name: &Vec<u8>) -> (r: Result<
        Symbol,
        LibraryError,
    >)
        requires
            self.wf(),
        ensures
            !self.library_valid(library) ==> (r matches Err(LibraryError::InvalidHandle)),
            self.library_valid(library) && self.library_link(library) is Unbound ==> (r matches Err(
                LibraryError::NotLinked,
            )),
            self.library_valid(library) ==> (self.library_link(library) matches LibraryLink::Linked {
                loader,
                internal,
            } ==> {
                &&& !self.loader_valid(loader) ==> (r matches Err(LibraryError::InvalidHandle))
                &&& self.loader_valid(loader) ==> {
                    &&& (r matches Ok(s) ==> s.kind == SymbolKind::Function)
                    &&& r is Ok || (r matches Err(LibraryError::SymbolNotFound(_)))
                }
            }),
    {
        match self.libraries.resolve_internal(library) {
            Err(e) => Err(e),
            Ok((loader, internal)) => {
                if !self.loaders.handle_exists(loader) {
                    return Err(LibraryError::InvalidHandle);
                }
                match self.loaders.loader_ref(loader).get_function_symbol(internal, name) {
                    Ok(address) => Ok(Symbol { address, kind: SymbolKind::Function }),
                    Err(e) => Err(LibraryError::SymbolNotFound(e)),
                }
            },
        }
    }
}

} // verus!
