use emf_core_base::fn_id::FnId;

#[test]
fn ids_match_the_stable_table() {
    assert_eq!(FnId::SysLock.id(), 1);
    assert_eq!(FnId::SysSetSyncHandler.id(), 9);
    assert_eq!(FnId::VersionConstructShort.id(), 101);
    assert_eq!(FnId::VersionCompare.id(), 112);
    assert_eq!(FnId::VersionIsCompatible.id(), 115);
    assert_eq!(FnId::LibraryRegisterLoader.id(), 201);
    assert_eq!(FnId::LibraryLoad.id(), 214);
    assert_eq!(FnId::LibraryUnload.id(), 215);
    assert_eq!(FnId::LibraryGetFunctionSymbol.id(), 217);
}

#[test]
fn from_id_round_trips() {
    let samples = [
        FnId::SysLock,
        FnId::SysTryLock,
        FnId::SysShutdown,
        FnId::VersionConstructFromString,
        FnId::VersionGetFullRepresentationLength,
        FnId::LibraryGetLibraryTypes,
        FnId::LibraryUnsafeLinkLibrary,
        FnId::LibraryGetDataSymbol,
    ];
    for f in samples {
        assert_eq!(FnId::from_id(f.id()), Some(f));
    }
}

#[test]
fn unassigned_ids_resolve_to_none() {
    assert_eq!(FnId::from_id(0), None);
    assert_eq!(FnId::from_id(10), None);
    assert_eq!(FnId::from_id(100), None);
    assert_eq!(FnId::from_id(116), None);
    assert_eq!(FnId::from_id(200), None);
    assert_eq!(FnId::from_id(218), None);
    assert_eq!(FnId::from_id(-1), None);
    assert_eq!(FnId::from_id(1000), None);
}
