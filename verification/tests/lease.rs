use capture_transfer::native::lease::{NativeLeaseBook, NativeLeaseError, NativeLeaseIdentity, NativeLeaseRelease};

fn identity(slot_id: u32) -> NativeLeaseIdentity {
    NativeLeaseIdentity { cursor: slot_id as u64 + 1, sequence: slot_id as u64 + 10, pool_id: 7, slot_id }
}

#[test]
fn release_now_resolves_one_lease_and_rejects_double_release() {
    let mut book = NativeLeaseBook::new();
    let lease_id = book.acquire(identity(2));
    assert!(book.slot_has_unresolved_leases(7, 2));

    let released = book.release(lease_id, NativeLeaseRelease::Now).unwrap();
    assert_eq!(released.identity, identity(2));
    assert!(!book.slot_has_unresolved_leases(7, 2));

    assert_eq!(book.release(lease_id, NativeLeaseRelease::Now), Err(NativeLeaseError::UnknownLease(lease_id)));
}

#[test]
fn multiple_leases_on_one_slot_must_all_resolve() {
    let mut book = NativeLeaseBook::new();
    let first = book.acquire(identity(1));
    let second = book.acquire(identity(1));

    book.release(first, NativeLeaseRelease::Now).unwrap();
    assert!(book.slot_has_unresolved_leases(7, 1));

    book.release(second, NativeLeaseRelease::Now).unwrap();
    assert!(!book.slot_has_unresolved_leases(7, 1));
}

#[test]
fn timeline_release_keeps_slot_unresolved_until_sync_completes() {
    let mut book = NativeLeaseBook::new();
    let release_sync_id = book.register_release_sync();
    let lease_id = book.acquire(identity(3));

    book.release(lease_id, NativeLeaseRelease::TimelineValue { release_sync_id, value: 5 }).unwrap();
    assert!(book.slot_has_unresolved_leases(7, 3));
    assert_eq!(book.release(lease_id, NativeLeaseRelease::Now), Err(NativeLeaseError::AlreadyReleased(lease_id)));

    book.complete_release_sync(release_sync_id, 4).unwrap();
    assert!(book.slot_has_unresolved_leases(7, 3));

    book.complete_release_sync(release_sync_id, 5).unwrap();
    assert!(!book.slot_has_unresolved_leases(7, 3));
}

#[test]
fn externally_assigned_release_sync_id_can_be_registered() {
    let mut book = NativeLeaseBook::new();
    book.register_release_sync_id(42);
    let lease_id = book.acquire(identity(1));

    book.release(lease_id, NativeLeaseRelease::TimelineValue { release_sync_id: 42, value: 9 }).unwrap();
    assert!(book.slot_has_unresolved_leases(7, 1));

    book.complete_release_sync(42, 9).unwrap();
    assert!(!book.slot_has_unresolved_leases(7, 1));
    assert_eq!(book.register_release_sync(), 43);
}

#[test]
fn unknown_release_timeline_is_refused() {
    let mut book = NativeLeaseBook::new();
    let lease_id = book.acquire(identity(4));
    assert_eq!(
        book.release(lease_id, NativeLeaseRelease::TimelineValue { release_sync_id: 9, value: 1 }),
        Err(NativeLeaseError::UnknownReleaseSync(9))
    );
    assert!(book.slot_has_unresolved_leases(7, 4));
    assert_eq!(book.complete_release_sync(9, 1), Err(NativeLeaseError::UnknownReleaseSync(9)));
    assert_eq!(book.outstanding_count(), 1);
    assert_eq!(NativeLeaseError::UnknownLease(12).to_message(), "native lease id 12 is unknown");
    assert_eq!(NativeLeaseError::AlreadyReleased(3).to_message(), "native lease id 3 was already released");
    assert_eq!(NativeLeaseError::UnknownReleaseSync(40).to_message(), "native release sync id 40 is unknown");
}
