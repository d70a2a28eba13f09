use emf_core_base::errors::{ErrorInfo, LibraryError};

#[test]
fn box_error() {
    let error_str = Box::new(String::from("my error message"));
    let error_info = ErrorInfo::wrap((*error_str).clone());

    assert_eq!(error_info.as_str(), error_str.as_str());
    assert_eq!(error_info.duplicate().as_str(), error_str.as_str());
}

#[test]
fn empty_error_has_empty_text() {
    let e = ErrorInfo::empty();
    assert_eq!(e.as_str(), "");
    assert_eq!(e.duplicate().as_str(), "");
}

#[test]
fn duplicate_is_independent() {
    let original = ErrorInfo::wrap(String::from("first report"));
    let copy = original.duplicate();
    drop(original);
    assert_eq!(copy.as_str(), "first report");

    let original2 = ErrorInfo::wrap(String::from("second report"));
    let copy2 = original2.duplicate();
    drop(copy2);
    assert_eq!(original2.as_str(), "second report");
}

#[test]
fn library_error_texts() {
    assert_eq!(
        LibraryError::InvalidHandle.into_error_info().as_str(),
        "invalid handle"
    );
    assert_eq!(
        LibraryError::TypeAlreadyRegistered.into_error_info().as_str(),
        "library type already registered"
    );
    assert_eq!(
        LibraryError::UnknownType.into_error_info().as_str(),
        "unknown library type"
    );
    assert_eq!(
        LibraryError::BufferTooSmall.into_error_info().as_str(),
        "buffer too small"
    );
    assert_eq!(
        LibraryError::NotLinked.into_error_info().as_str(),
        "library handle is not linked"
    );
}

#[test]
fn loader_report_passes_through_verbatim() {
    let report = ErrorInfo::wrap(String::from("loader says no"));
    let wrapped = LibraryError::LoadFailed(report);
    assert_eq!(wrapped.into_error_info().as_str(), "loader says no");

    let report = ErrorInfo::wrap(String::from("still loaded"));
    let wrapped = LibraryError::UnloadFailed(report);
    assert_eq!(wrapped.into_error_info().as_str(), "still loaded");

    let report = ErrorInfo::wrap(String::from("no such symbol"));
    let wrapped = LibraryError::SymbolNotFound(report);
    assert_eq!(wrapped.into_error_info().as_str(), "no such symbol");
}
