//! The protocol a pluggable library loader must satisfy, and the plain
//! values that cross it: library type tags, loader-internal handles and
//! resolved symbols.

use vstd::prelude::*;

use crate::errors::ErrorInfo;

verus! {

/// Longest allowed library type tag, in bytes.
pub const LIBRARY_TYPE_MAX_LENGTH: usize = 64;

/// A short textual identifier naming a family of loadable libraries
/// (for example `"native"` or `"bytecode"`). At most
/// [`LIBRARY_TYPE_MAX_LENGTH`] bytes of UTF-8; unique among currently
/// registered loaders.
pub struct LibraryType {
    name: Vec<u8>,
}

impl View for LibraryType {
    type V = Seq<u8>;

    closed spec fn view(&self) -> Seq<u8> {
        self.name@
    }
}

impl LibraryType {
    /// Build a type tag from its bytes; `None` when the tag is longer
    /// than [`LIBRARY_TYPE_MAX_LENGTH`].
    pub fn new(name: Vec<u8>) -> (r: Option<LibraryType>)
        ensures
            r is Some <==> name@.len() <= LIBRARY_TYPE_MAX_LENGTH,
            r is Some ==> r.unwrap()@ == name@,
    {
        if name.len() <= LIBRARY_TYPE_MAX_LENGTH {
            Some(LibraryType { name })
        } else {
            None
        }
    }

    /// Borrow the tag's bytes.
    pub fn as_bytes(&self) -> (r: &Vec<u8>)
        ensures
            r@ == self@,
    {
        &self.name
    }

    /// An independent copy with the same bytes.
    pub fn duplicate(&self) -> (r: LibraryType)
        ensures
            r@ == self@,
    {
        let mut name: Vec<u8> = Vec::new();
        let n = self.name.len();
        let mut i: usize = 0;
        while i < n
            invariant
                0 <= i <= n,
                n == self.name@.len(),
                name@ == self.name@.subrange(0, i as int),
            decreases n - i,
        {
            name.push(self.name[i]);
            proof {
                assert(name@ =~= self.name@.subrange(0, i as int + 1));
            }
            i = i + 1;
        }
        proof {
            assert(name@ =~= self.name@);
        }
        LibraryType { name }
    }

    /// Do the two tags hold the same bytes?
    pub fn matches(&self, other: &LibraryType) -> (r: bool)
        ensures
            r == (self@ == other@),
    {
        bytes_eq(&self.name, &other.name)
    }
}

/// Byte-for-byte equality of two byte vectors.
pub fn bytes_eq(a: &Vec<u8>, b: &Vec<u8>) -> (r: bool)
    ensures
        r == (a@ == b@),
{
    if a.len() != b.len() {
        return false;
    }
    let n = a.len();
    let mut i: usize = 0;
    while i < n
        invariant
            0 <= i <= n,
            n == a@.len(),
            a@.len() == b@.len(),
            forall|j: int| 0 <= j < i ==> a@[j] == b@[j],
        decreases n - i,
    {
        if a[i] != b[i] {
            return false;
        }
        i = i + 1;
    }
    proof {
        assert(a@ =~= b@);
    }
    true
}

/// A loader-defined opaque token identifying one loaded library instance
/// inside that loader's own bookkeeping. The core never inspects it,
/// only stores and forwards it.
#[derive(Clone, Copy, PartialEq, Eq, Structural, Debug)]
pub struct InternalLibraryHandle {
    pub id: u64,
}

/// Whether a resolved symbol is data or code; some platforms require
/// different retrieval paths for the two.
#[derive(Clone, Copy, PartialEq, Eq, Structural, Debug)]
pub enum SymbolKind {
    Data,
    Function,
}

/// A symbol resolved from a loaded library: a raw address together with
/// its kind. Valid only while the library it came from stays loaded;
/// once that library is unloaded the address must not be used.
#[derive(Clone, Copy, PartialEq, Eq, Structural, Debug)]
pub struct Symbol {
    pub address: u64,
    pub kind: SymbolKind,
}

/// The contract a loader implementation must satisfy for its library
/// type. The core treats all four operations as opaque calls and
/// propagates their reported [`ErrorInfo`] values verbatim; any
/// bookkeeping a loader needs is its own.
pub trait LibraryLoader: Sized {
    /// Load the library at `path`, yielding the loader's internal handle
    /// for it, or the loader's report of why it refused.
    fn load(&self, path: &Vec<u8>) -> Result<InternalLibraryHandle, ErrorInfo>;

    /// Unload the library behind `internal`.
    fn unload(&self, internal: InternalLibraryHandle) -> Option<ErrorInfo>;

    /// Resolve the address of the data symbol `name`.
    fn get_data_symbol(&self, internal: InternalLibraryHandle, name: &Vec<u8>) -> Result<
        u64,
        ErrorInfo,
    >;

    /// Resolve the address of the function symbol `name`.
    fn get_function_symbol(&self, internal: InternalLibraryHandle, name: &Vec<u8>) -> Result<
        u64,
        ErrorInfo,
    >;
}

} // verus!
