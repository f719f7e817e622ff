use capture_transfer::native::lease::{NativeLeaseBook, NativeLeaseIdentity, NativeLeaseRelease};
use capture_transfer::model::{ClockDomain, ColorSpace, PixelFormat};
use capture_transfer::native::linux::synthetic::{surface_layout, SyntheticLinuxPool};
use capture_transfer::native::{NativeStreamParams, SlotClaim, SlotReuseCandidate};

fn params() -> NativeStreamParams {
    NativeStreamParams {
        width: 64,
        height: 32,
        pixel_format: PixelFormat::Bgra8Unorm,
        color_space: ColorSpace::Srgb,
        clock_domain: ClockDomain::HostTime,
        modifier: 0,
    }
}

#[test]
fn computes_bgra_surface_layout() {
    assert_eq!(surface_layout(&params()).unwrap(), (256, 8192));
}

#[test]
fn rejects_unknown_or_empty_surface_layout() {
    let mut unknown = params();
    unknown.pixel_format = PixelFormat::Unknown;
    assert!(surface_layout(&unknown).is_err());

    let mut empty = params();
    empty.width = 0;
    assert!(surface_layout(&empty).is_err());
}

#[test]
fn reuse_claim_respects_blocked_slots() {
    let mut single = params();
    single.width = 1;
    single.height = 1;
    let mut pool = SyntheticLinuxPool::new(1, &single, 4, 2);
    pool.set_reuse_blocked(0, true).unwrap();
    let candidates = [
        SlotReuseCandidate { slot_id: 0, last_cursor: 1 },
        SlotReuseCandidate { slot_id: 1, last_cursor: 2 },
    ];
    assert_eq!(pool.claim_reusable_slot(&candidates), SlotClaim::Ready { slot_id: 1 });
    pool.set_reuse_blocked(1, true).unwrap();
    assert_eq!(pool.claim_reusable_slot(&candidates), SlotClaim::WouldBlock);
}

#[test]
fn synthetic_layout_errors_name_the_cause() {
    let mut wide = params();
    wide.width = u32::MAX;
    assert_eq!(
        surface_layout(&wide).unwrap_err().to_message(),
        format!("native frame backend linux-synthetic-surface-layout failed: width {} overflows stride", u32::MAX)
    );
    let mut pool = SyntheticLinuxPool::new(7, &params(), 256, 2);
    assert_eq!(pool.pool_id(), 7);
    assert_eq!(pool.slot_count(), 2);
    assert_eq!(
        pool.set_reuse_blocked(2, true).unwrap_err().to_message(),
        "native frame backend linux-synthetic-set-reuse-blocked failed: slot 2 outside pool with 2 slots"
    );
}

#[test]
fn claim_reads_blocks_from_the_lease_book() {
    let mut pool = SyntheticLinuxPool::new(3, &params(), 256, 2);
    let mut leases = NativeLeaseBook::new();
    let lease = leases.acquire(NativeLeaseIdentity { cursor: 1, sequence: 1, pool_id: 3, slot_id: 0 });
    let candidates = [
        SlotReuseCandidate { slot_id: 0, last_cursor: 1 },
        SlotReuseCandidate { slot_id: 1, last_cursor: 0 },
    ];
    assert_eq!(pool.claim_with_leases(&leases, &candidates).unwrap(), SlotClaim::Ready { slot_id: 1 });
    assert_eq!(pool.claim_with_leases(&leases, &candidates[..1]).unwrap(), SlotClaim::WouldBlock);
    leases.release(lease, NativeLeaseRelease::Now).unwrap();
    assert_eq!(pool.claim_with_leases(&leases, &candidates).unwrap(), SlotClaim::Ready { slot_id: 0 });
    let outside = [SlotReuseCandidate { slot_id: 5, last_cursor: 0 }];
    assert!(pool.claim_with_leases(&leases, &outside).is_err());
}

#[test]
fn synthetic_surfaces_are_single_plane_dmabufs_of_the_pool_shape() {
    let pool = SyntheticLinuxPool::new(1, &params(), 256, 2);
    let descriptor = pool.surface_descriptor(4);
    assert_eq!(descriptor.handle_kind, capture_transfer::ffi_native::FT_NATIVE_HANDLE_DMABUF);
    assert_eq!((descriptor.width, descriptor.height, descriptor.pixel_format, descriptor.modifier), (64, 32, 1, 0));
    assert_eq!(descriptor.planes.len(), 1);
    assert_eq!((descriptor.planes[0].fd_index, descriptor.planes[0].offset, descriptor.planes[0].stride), (4, 0, 256));
}
