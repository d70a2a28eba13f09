use emf_core_base::errors::LibraryError;
use emf_core_base::handle_table::HandleTable;

#[test]
fn allocate_then_validate() {
    let mut t: HandleTable<u64> = HandleTable::new();
    let h = t.allocate(10);
    assert!(t.validate(h));
    assert_eq!(*t.get(h), 10);
    assert_eq!(t.count(), 1);
}

#[test]
fn freed_handle_never_validates_again() {
    let mut t: HandleTable<u64> = HandleTable::new();
    let h = t.allocate(1);
    assert!(t.validate(h));
    assert!(t.free(h).is_ok());
    assert!(!t.validate(h));

    // The freed slot is reused, yet the stale handle stays invalid.
    let h2 = t.allocate(2);
    assert_eq!(h2.index, h.index);
    assert_ne!(h2, h);
    assert!(!t.validate(h));
    assert!(t.validate(h2));
    assert_eq!(*t.get(h2), 2);
}

#[test]
fn double_free_fails() {
    let mut t: HandleTable<u64> = HandleTable::new();
    let h = t.allocate(5);
    assert!(t.free(h).is_ok());
    assert!(matches!(t.free(h), Err(LibraryError::InvalidHandle)));
}

#[test]
fn store_replaces_entry_in_place() {
    let mut t: HandleTable<u64> = HandleTable::new();
    let h = t.allocate(3);
    t.store(h, 30);
    assert!(t.validate(h));
    assert_eq!(*t.get(h), 30);
    assert_eq!(t.count(), 1);
}

#[test]
fn count_tracks_live_entries() {
    let mut t: HandleTable<u64> = HandleTable::new();
    assert_eq!(t.count(), 0);
    let a = t.allocate(1);
    let b = t.allocate(2);
    let c = t.allocate(3);
    assert_eq!(t.count(), 3);
    assert!(t.free(b).is_ok());
    assert_eq!(t.count(), 2);
    assert!(t.validate(a) && t.validate(c));
}
