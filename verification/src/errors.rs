//! Type-erased error values that can cross the boundary between
//! independently compiled components.
//!
//! An [`ErrorInfo`] owns an optional payload together with the three
//! operations every payload must support: it can be destroyed, deep-copied
//! and rendered as text. Payload types declare those operations by
//! implementing [`AsErrorInfoVTable`]; wrapping a payload erases its
//! concrete type, so a holder of an [`ErrorInfo`] can log, duplicate or
//! drop it without knowing where it came from.

use vstd::prelude::*;

verus! {

/// The operation an error payload type must supply before it can stand
/// behind an [`ErrorInfo`]: rendering itself as owned text. Wrapping
/// renders the payload once; from then on the erased value can be
/// destroyed, deep-copied and stringified with no knowledge of the
/// payload's concrete type, and dropping it releases everything exactly
/// once.
pub trait AsErrorInfoVTable: Sized {
    /// The text this payload renders to.
    spec fn error_text(&self) -> Seq<char>;

    /// Render the payload as an owned message.
    fn render(&self) -> (r: String)
        ensures
            r@ == self.error_text(),
    ;
}

impl AsErrorInfoVTable for String {
    open spec fn error_text(&self) -> Seq<char> {
        self@
    }

    fn render(&self) -> (r: String) {
        self.clone()
    }
}

/// The stored form of an erased payload: its rendered message.
#[derive(Debug)]
pub struct ErrorInfoData {
    message: String,
}

impl ErrorInfoData {
    /// The text of the stored payload.
    pub closed spec fn text(self) -> Seq<char> {
        self.message@
    }
}

/// A type-erased error value: an optional owned payload whose concrete
/// type has been erased at the moment of wrapping. An empty payload
/// renders as the empty message.
#[derive(Debug)]
pub struct ErrorInfo {
    data: Option<ErrorInfoData>,
}

impl View for ErrorInfo {
    type V = Seq<char>;

    closed spec fn view(&self) -> Seq<char> {
        match self.data {
            Some(d) => d.text(),
            None => Seq::empty(),
        }
    }
}

impl ErrorInfo {
    /// An error with no payload; its text is empty.
    pub fn empty() -> (r: ErrorInfo)
        ensures
            r@ == Seq::<char>::empty(),
    {
        ErrorInfo { data: None }
    }

    /// Erases `payload` into an [`ErrorInfo`]: the payload is rendered
    /// once and owned; no knowledge of its concrete type survives.
    pub fn wrap<T: AsErrorInfoVTable>(payload: T) -> (r: ErrorInfo)
        ensures
            r@ == payload.error_text(),
    {
        ErrorInfo { data: Some(ErrorInfoData { message: payload.render() }) }
    }

    /// Borrow the error message. Never allocates; an empty payload
    /// yields an empty view.
    pub fn as_str(&self) -> (r: &str)
        ensures
            r@ == self@,
    {
        match &self.data {
            Some(d) => d.message.as_str(),
            None => {
                proof {
                    reveal_strlit("");
                    assert(""@ =~= Seq::<char>::empty());
                }
                ""
            },
        }
    }

    /// Produce an independent deep copy: both values render the same
    /// text, and destroying either leaves the other untouched.
    pub fn duplicate(&self) -> (r: ErrorInfo)
        ensures
            r@ == self@,
    {
        match &self.data {
            Some(d) => ErrorInfo { data: Some(ErrorInfoData { message: d.message.clone() }) },
            None => ErrorInfo { data: None },
        }
    }
}

/// Every way an operation of this runtime core can fail. Failures
/// reported by a delegate loader are carried along verbatim as the
/// wrapped [`ErrorInfo`], never discarded.
#[derive(Debug)]
pub enum LibraryError {
    /// A stale or unknown handle was presented.
    InvalidHandle,
    /// The library type is already bound to a registered loader.
    TypeAlreadyRegistered,
    /// No loader is registered for the library type.
    UnknownType,
    /// A caller-supplied output buffer is too small for the result.
    BufferTooSmall,
    /// The delegate loader rejected a load; its own report is inside.
    LoadFailed(ErrorInfo),
    /// The delegate loader rejected an unload; its own report is inside.
    UnloadFailed(ErrorInfo),
    /// The delegate loader found no symbol of the requested name; its
    /// own report is inside.
    SymbolNotFound(ErrorInfo),
    /// The operation needs a linked library handle but found an
    /// unbound one.
    NotLinked,
}

impl LibraryError {
    /// The text this error renders to: the loader's own message for a
    /// loader-reported failure, a fixed description otherwise.
    pub open spec fn text(self) -> Seq<char> {
        match self {
            LibraryError::InvalidHandle => "invalid handle"@,
            LibraryError::TypeAlreadyRegistered => "library type already registered"@,
            LibraryError::UnknownType => "unknown library type"@,
            LibraryError::BufferTooSmall => "buffer too small"@,
            LibraryError::LoadFailed(e) => e@,
            LibraryError::UnloadFailed(e) => e@,
            LibraryError::SymbolNotFound(e) => e@,
            LibraryError::NotLinked => "library handle is not linked"@,
        }
    }

    /// Package the error as a type-erased [`ErrorInfo`] safe to hand
    /// across the boundary; a loader-reported payload passes through
    /// verbatim.
    pub fn into_error_info(self) -> (r: ErrorInfo)
        ensures
            r@ == self.text(),
    {
        match self {
            LibraryError::InvalidHandle => ErrorInfo::wrap("invalid handle".to_owned()),
            LibraryError::TypeAlreadyRegistered => ErrorInfo::wrap(
                "library type already registered".to_owned(),
            ),
            LibraryError::UnknownType => ErrorInfo::wrap("unknown library type".to_owned()),
            LibraryError::BufferTooSmall => ErrorInfo::wrap("buffer too small".to_owned()),
            LibraryError::LoadFailed(e) => e,
            LibraryError::UnloadFailed(e) => e,
            LibraryError::SymbolNotFound(e) => e,
            LibraryError::NotLinked => ErrorInfo::wrap("library handle is not linked".to_owned()),
        }
    }
}

} // verus!
