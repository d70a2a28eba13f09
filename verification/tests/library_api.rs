use emf_core_base::errors::{ErrorInfo, LibraryError};
use emf_core_base::library_api::LibraryApi;
use emf_core_base::loader::{InternalLibraryHandle, LibraryLoader, LibraryType, SymbolKind};

/// A loader for the tests: knows one symbol, `do_work`, and can be set
/// up to refuse loads or unloads.
struct TestLoader {
    fail_load: bool,
    fail_unload: bool,
}

impl TestLoader {
    fn good() -> TestLoader {
        TestLoader { fail_load: false, fail_unload: false }
    }
}

impl LibraryLoader for TestLoader {
    fn load(&self, _path: &Vec<u8>) -> Result<InternalLibraryHandle, ErrorInfo> {
        if self.fail_load {
            Err(ErrorInfo::wrap(String::from("bad format")))
        } else {
            Ok(InternalLibraryHandle { id: 7 })
        }
    }

    fn unload(&self, _internal: InternalLibraryHandle) -> Option<ErrorInfo> {
        if self.fail_unload {
            Some(ErrorInfo::wrap(String::from("still in use")))
        } else {
            None
        }
    }

    fn get_data_symbol(&self, _internal: InternalLibraryHandle, name: &Vec<u8>) -> Result<u64, ErrorInfo> {
        if name.as_slice() == b"do_work" {
            Ok(0x2000)
        } else {
            Err(ErrorInfo::wrap(String::from("no such data symbol")))
        }
    }

    fn get_function_symbol(&self, _internal: InternalLibraryHandle, name: &Vec<u8>) -> Result<u64, ErrorInfo> {
        if name.as_slice() == b"do_work" {
            Ok(0x1000)
        } else {
            Err(ErrorInfo::wrap(String::from("no such function symbol")))
        }
    }
}

fn tag(name: &[u8]) -> LibraryType {
    LibraryType::new(name.to_vec()).unwrap()
}

#[test]
fn end_to_end_load_resolve_unload() {
    let mut api: LibraryApi<TestLoader> = LibraryApi::new();
    let l = api.register_loader(TestLoader::good(), tag(b"native")).unwrap();

    let h = api.load(l, &b"libfoo".to_vec()).unwrap();
    assert!(api.library_exists(h));

    let s = api.get_function_symbol(h, &b"do_work".to_vec()).unwrap();
    assert_eq!(s.kind, SymbolKind::Function);
    assert_eq!(s.address, 0x1000);

    assert!(api.unload(h).is_none());
    assert!(!api.library_exists(h));
    assert!(matches!(
        api.get_function_symbol(h, &b"do_work".to_vec()),
        Err(LibraryError::InvalidHandle)
    ));
}

#[test]
fn two_loads_of_same_path_are_distinct() {
    let mut api: LibraryApi<TestLoader> = LibraryApi::new();
    let l = api.register_loader(TestLoader::good(), tag(b"native")).unwrap();

    let path = b"libfoo".to_vec();
    let h1 = api.load(l, &path).unwrap();
    let h2 = api.load(l, &path).unwrap();
    assert_ne!(h1, h2);

    // Each is independently unloadable.
    assert!(api.unload(h1).is_none());
    assert!(api.library_exists(h2));
    assert!(api.unload(h2).is_none());
    assert!(!api.library_exists(h2));
}

#[test]
fn unload_of_removed_handle_fails_invalid_handle() {
    let mut api: LibraryApi<TestLoader> = LibraryApi::new();
    let l = api.register_loader(TestLoader::good(), tag(b"native")).unwrap();
    let h = api.load(l, &b"libfoo".to_vec()).unwrap();
    assert!(api.unload(h).is_none());
    assert!(matches!(api.unload(h), Some(LibraryError::InvalidHandle)));
}

#[test]
fn symbols_on_unbound_handle_fail_not_linked() {
    let mut api: LibraryApi<TestLoader> = LibraryApi::new();
    let u = api.create_library_handle();
    assert!(matches!(
        api.get_data_symbol(u, &b"do_work".to_vec()),
        Err(LibraryError::NotLinked)
    ));
    assert!(matches!(
        api.get_function_symbol(u, &b"do_work".to_vec()),
        Err(LibraryError::NotLinked)
    ));
    assert!(matches!(
        api.get_loader_library_handle(u),
        Err(LibraryError::NotLinked)
    ));
    assert!(matches!(
        api.get_loader_handle_from_lib(u),
        Err(LibraryError::NotLinked)
    ));
}

#[test]
fn link_then_resolve_internal() {
    let mut api: LibraryApi<TestLoader> = LibraryApi::new();
    let l = api.register_loader(TestLoader::good(), tag(b"native")).unwrap();
    let u = api.create_library_handle();
    let internal = InternalLibraryHandle { id: 42 };
    assert!(api.link_library(u, l, internal).is_none());
    assert_eq!(api.get_loader_library_handle(u).unwrap(), internal);
    assert_eq!(api.get_loader_handle_from_lib(u).unwrap(), l);

    let s = api.get_data_symbol(u, &b"do_work".to_vec()).unwrap();
    assert_eq!(s.kind, SymbolKind::Data);
    assert_eq!(s.address, 0x2000);
}

#[test]
fn remove_handle_is_pure_teardown() {
    let mut api: LibraryApi<TestLoader> = LibraryApi::new();
    let u = api.create_library_handle();
    assert!(api.remove_library_handle(u).is_none());
    assert!(!api.library_exists(u));
    assert!(matches!(
        api.remove_library_handle(u),
        Some(LibraryError::InvalidHandle)
    ));
}

#[test]
fn load_failure_is_wrapped_and_changes_nothing() {
    let mut api: LibraryApi<TestLoader> = LibraryApi::new();
    let l = api
        .register_loader(
            TestLoader { fail_load: true, fail_unload: false },
            tag(b"native"),
        )
        .unwrap();
    match api.load(l, &b"libfoo".to_vec()) {
        Err(LibraryError::LoadFailed(e)) => assert_eq!(e.as_str(), "bad format"),
        _ => panic!("expected LoadFailed"),
    }
}

#[test]
fn unload_failure_is_wrapped_and_handle_survives() {
    let mut api: LibraryApi<TestLoader> = LibraryApi::new();
    let l = api
        .register_loader(
            TestLoader { fail_load: false, fail_unload: true },
            tag(b"native"),
        )
        .unwrap();
    let h = api.load(l, &b"libfoo".to_vec()).unwrap();
    match api.unload(h) {
        Some(LibraryError::UnloadFailed(e)) => assert_eq!(e.as_str(), "still in use"),
        _ => panic!("expected UnloadFailed"),
    }
    assert!(api.library_exists(h));
}

#[test]
fn missing_symbol_is_wrapped() {
    let mut api: LibraryApi<TestLoader> = LibraryApi::new();
    let l = api.register_loader(TestLoader::good(), tag(b"native")).unwrap();
    let h = api.load(l, &b"libfoo".to_vec()).unwrap();
    match api.get_function_symbol(h, &b"absent".to_vec()) {
        Err(LibraryError::SymbolNotFound(e)) => {
            assert_eq!(e.as_str(), "no such function symbol")
        }
        _ => panic!("expected SymbolNotFound"),
    }
}

#[test]
fn load_through_stale_loader_fails() {
    let mut api: LibraryApi<TestLoader> = LibraryApi::new();
    let l = api.register_loader(TestLoader::good(), tag(b"native")).unwrap();
    assert!(api.unregister_loader(l).is_none());
    assert!(matches!(
        api.load(l, &b"libfoo".to_vec()),
        Err(LibraryError::InvalidHandle)
    ));
    assert!(matches!(
        api.get_loader_interface(l),
        Err(LibraryError::InvalidHandle)
    ));
}

#[test]
fn loader_interface_is_reachable_while_registered() {
    let mut api: LibraryApi<TestLoader> = LibraryApi::new();
    let l = api.register_loader(TestLoader::good(), tag(b"native")).unwrap();
    let iface = api.get_loader_interface(l).unwrap();
    assert!(iface.load(&b"libfoo".to_vec()).is_ok());
}

#[test]
fn unregister_does_not_unload_libraries() {
    let mut api: LibraryApi<TestLoader> = LibraryApi::new();
    let l = api.register_loader(TestLoader::good(), tag(b"native")).unwrap();
    let h = api.load(l, &b"libfoo".to_vec()).unwrap();
    assert!(api.unregister_loader(l).is_none());
    // The library handle survives, but operations that need its loader
    // now fail with InvalidHandle.
    assert!(api.library_exists(h));
    assert!(matches!(
        api.get_function_symbol(h, &b"do_work".to_vec()),
        Err(LibraryError::InvalidHandle)
    ));
    assert!(matches!(api.unload(h), Some(LibraryError::InvalidHandle)));
}

#[test]
fn facade_loader_queries() {
    let mut api: LibraryApi<TestLoader> = LibraryApi::new();
    assert_eq!(api.get_num_loaders(), 0);
    let l = api.register_loader(TestLoader::good(), tag(b"native")).unwrap();
    assert_eq!(api.get_num_loaders(), 1);
    assert!(api.library_type_exists(&tag(b"native")));
    assert!(!api.library_type_exists(&tag(b"bytecode")));
    assert!(api.loader_exists(l));
    assert_eq!(api.get_loader_handle(&tag(b"native")).unwrap(), l);
    assert!(matches!(
        api.get_loader_handle(&tag(b"bytecode")),
        Err(LibraryError::UnknownType)
    ));

    let mut buf: Vec<LibraryType> = vec![tag(b"")];
    assert_eq!(api.get_library_types(&mut buf).unwrap(), 1);
    assert_eq!(buf[0].as_bytes().as_slice(), b"native");
}
