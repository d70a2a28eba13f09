use emf_core_base::errors::LibraryError;
use emf_core_base::loader::LibraryType;
use emf_core_base::loader_registry::LoaderRegistry;

fn tag(name: &[u8]) -> LibraryType {
    LibraryType::new(name.to_vec()).unwrap()
}

#[test]
fn register_and_lookup() {
    let mut reg: LoaderRegistry<u32> = LoaderRegistry::new();
    let h = reg.register(11, tag(b"native")).unwrap();
    assert!(reg.handle_exists(h));
    assert!(reg.type_exists(&tag(b"native")));
    assert!(!reg.type_exists(&tag(b"bytecode")));
    assert_eq!(reg.count(), 1);
    let found = reg.lookup_by_type(&tag(b"native")).unwrap();
    assert_eq!(found, h);
    assert_eq!(*reg.loader_ref(h), 11);
}

#[test]
fn duplicate_type_is_rejected_and_original_kept() {
    let mut reg: LoaderRegistry<u32> = LoaderRegistry::new();
    let first = reg.register(1, tag(b"native")).unwrap();
    let second = reg.register(2, tag(b"native"));
    assert!(matches!(second, Err(LibraryError::TypeAlreadyRegistered)));
    // The pre-existing registration is untouched.
    assert_eq!(reg.count(), 1);
    assert_eq!(reg.lookup_by_type(&tag(b"native")).unwrap(), first);
    assert_eq!(*reg.loader_ref(first), 1);
}

#[test]
fn unregister_frees_type_and_handle() {
    let mut reg: LoaderRegistry<u32> = LoaderRegistry::new();
    let h = reg.register(1, tag(b"native")).unwrap();
    assert!(reg.unregister(h).is_none());
    assert!(!reg.handle_exists(h));
    assert!(!reg.type_exists(&tag(b"native")));
    assert!(matches!(
        reg.lookup_by_type(&tag(b"native")),
        Err(LibraryError::UnknownType)
    ));
    // Stale handle now fails every operation.
    assert!(matches!(
        reg.unregister(h),
        Some(LibraryError::InvalidHandle)
    ));
    // The type can be registered again afterwards.
    let h2 = reg.register(2, tag(b"native")).unwrap();
    assert_ne!(h, h2);
    assert!(!reg.handle_exists(h));
}

#[test]
fn list_types_buffer_too_small_writes_nothing() {
    let mut reg: LoaderRegistry<u32> = LoaderRegistry::new();
    reg.register(1, tag(b"native")).unwrap();
    reg.register(2, tag(b"bytecode")).unwrap();

    let mut buf: Vec<LibraryType> = vec![tag(b"sentinel")];
    let r = reg.get_library_types(&mut buf);
    assert!(matches!(r, Err(LibraryError::BufferTooSmall)));
    assert_eq!(buf.len(), 1);
    assert_eq!(buf[0].as_bytes().as_slice(), b"sentinel");
}

#[test]
fn list_types_exact_and_unique() {
    let mut reg: LoaderRegistry<u32> = LoaderRegistry::new();
    reg.register(1, tag(b"native")).unwrap();
    reg.register(2, tag(b"bytecode")).unwrap();
    reg.register(3, tag(b"script")).unwrap();

    let mut buf: Vec<LibraryType> = vec![tag(b""), tag(b""), tag(b""), tag(b"sentinel")];
    let written = reg.get_library_types(&mut buf).unwrap();
    assert_eq!(written, 3);
    // Entries past the written count are untouched.
    assert_eq!(buf[3].as_bytes().as_slice(), b"sentinel");
    // Every registered type appears exactly once.
    let mut names: Vec<&[u8]> = buf[..3].iter().map(|t| t.as_bytes().as_slice()).collect();
    names.sort();
    assert_eq!(names, vec![&b"bytecode"[..], &b"native"[..], &b"script"[..]]);
}

#[test]
fn library_type_length_bound() {
    assert!(LibraryType::new(vec![b'a'; 64]).is_some());
    assert!(LibraryType::new(vec![b'a'; 65]).is_none());
    let t = tag(b"native");
    assert!(t.matches(&tag(b"native")));
    assert!(!t.matches(&tag(b"bytecode")));
    assert_eq!(t.duplicate().as_bytes().as_slice(), b"native");
}
