use capture_transfer::error::CaptureTransferError;
use capture_transfer::ffi::{
    FT_STATUS_ERROR, FT_STATUS_INVALID_ARGUMENT, FT_STATUS_INVALID_STATE, FT_STATUS_OK, FT_STATUS_UNSUPPORTED,
};
use capture_transfer::ffi_native::{
    authorize_reply_status, granted_reply, lease_reply, linux_pool_surfaces, pool_reply, release_reply_status,
    release_sync_reply, FtNativePlane, FT_NATIVE_HANDLE_DMABUF, FT_NATIVE_SURFACE_SIZE,
};
use capture_transfer::native::lease::{NativeLeaseIdentity, NativeLeaseRelease};
use capture_transfer::native::linux::{
    fd_table_entry, LinuxAttachGrant, LinuxAttachResponse, LinuxLeaseIdentity, LinuxPlaneDescriptor, LinuxPoolDescriptor,
    LinuxReleaseDescriptor, LinuxSurfaceDescriptor, LinuxSyncDescriptor, LINUX_ATTACH_MAX_FDS,
};

fn grant() -> LinuxAttachGrant {
    LinuxAttachGrant {
        consumer_id: 7,
        consumer_slot: 2,
        ring_fd_index: 0,
        ring_map_len: 4096,
        pools: vec![LinuxPoolDescriptor {
            pool_id: 9,
            surfaces: vec![LinuxSurfaceDescriptor {
                handle_kind: 2,
                width: 640,
                height: 480,
                pixel_format: 1,
                modifier: 0,
                planes: vec![
                    LinuxPlaneDescriptor { fd_index: 1, offset: 0, stride: 2560 },
                    LinuxPlaneDescriptor { fd_index: 1, offset: 640 * 480, stride: 1280 },
                ],
            }],
        }],
        producer_sync: LinuxSyncDescriptor { sync_kind: 2, sync_id: 11, fd_index: 2 },
    }
}

#[test]
fn validates_fd_indices_for_grant_descriptor() {
    grant().validate_fd_indices(3).unwrap();

    let mut invalid = grant();
    invalid.pools[0].surfaces[0].planes[0].fd_index = 3;
    let error = invalid.validate_fd_indices(3).unwrap_err();
    assert!(matches!(error, CaptureTransferError::FdPassing { operation: "validate-linux-attach", .. }));
    assert!(error.to_message().contains("outside fd table"));
}

#[test]
fn fd_table_limit_matches_linux_scm_rights_limit() {
    assert_eq!(LINUX_ATTACH_MAX_FDS, 253);
}

#[test]
fn rejects_empty_or_too_many_planes() {
    let mut empty = grant();
    empty.pools[0].surfaces[0].planes.clear();
    assert!(empty.validate_fd_indices(3).is_err());

    let mut too_many = grant();
    too_many.pools[0].surfaces[0].planes = vec![LinuxPlaneDescriptor { fd_index: 1, offset: 0, stride: 1 }; 5];
    assert!(too_many.validate_fd_indices(3).is_err());
}

fn validation(message: &str) -> CaptureTransferError {
    CaptureTransferError::FdPassing { operation: "validate-linux-attach", message: message.to_string() }
}

#[test]
fn grant_validation_reports_ring_then_sync_then_surfaces() {
    let mut ring = grant();
    ring.ring_fd_index = 5;
    ring.producer_sync.fd_index = 6;
    assert_eq!(ring.validate_fd_indices(3), Err(validation("ring-fd fd_index 5 outside fd table length 3")));
    let mut sync = grant();
    sync.producer_sync.fd_index = 6;
    assert_eq!(sync.validate_fd_indices(3), Err(validation("sync fd_index 6 outside fd table length 3")));
    let mut plane = grant();
    plane.pools[0].surfaces[0].planes[1].fd_index = 4;
    assert_eq!(plane.validate_fd_indices(3), Err(validation("dmabuf-plane fd_index 4 outside fd table length 3")));
    let mut count = grant();
    count.pools[0].surfaces[0].planes.clear();
    assert_eq!(count.validate_fd_indices(3), Err(validation("surface has 0 planes; expected 1..=4")));
}

#[test]
fn pool_surfaces_resolve_plane_descriptors_from_the_table() {
    let pool = grant().pools.remove(0);
    let records = linux_pool_surfaces(&pool, &[30, 31, 32]).unwrap();
    assert_eq!(records.len(), 1);
    let record = &records[0];
    assert_eq!(record.struct_size, FT_NATIVE_SURFACE_SIZE);
    assert_eq!(record.handle_kind, FT_NATIVE_HANDLE_DMABUF);
    assert_eq!(record.plane_count, 2);
    assert_eq!((record.width, record.height), (640, 480));
    assert_eq!(
        record.planes,
        vec![
            FtNativePlane { fd: 31, offset: 0, stride: 2560 },
            FtNativePlane { fd: 31, offset: 640 * 480, stride: 1280 },
        ]
    );

    let mut not_dmabuf = grant().pools.remove(0);
    not_dmabuf.surfaces[0].handle_kind = 1;
    assert_eq!(linux_pool_surfaces(&not_dmabuf, &[30, 31, 32]), Err(FT_STATUS_UNSUPPORTED));
    let mut empty = grant().pools.remove(0);
    empty.surfaces[0].width = 0;
    assert_eq!(linux_pool_surfaces(&empty, &[30, 31, 32]), Err(FT_STATUS_INVALID_ARGUMENT));
    let mut strideless = grant().pools.remove(0);
    strideless.surfaces[0].planes[1].stride = 0;
    assert_eq!(linux_pool_surfaces(&strideless, &[30, 31, 32]), Err(FT_STATUS_INVALID_ARGUMENT));
    assert_eq!(linux_pool_surfaces(&pool, &[30]), Err(FT_STATUS_INVALID_ARGUMENT));
}

#[test]
fn fd_table_entries_are_looked_up_by_index() {
    assert_eq!(fd_table_entry(&[30, 31], 1), Ok(31));
    assert_eq!(
        fd_table_entry(&[30, 31], 2),
        Err(CaptureTransferError::FdPassing {
            operation: "linux-fd-table",
            message: "fd_index 2 outside fd table length 2".to_string(),
        })
    );
}

#[test]
fn lease_records_cross_the_stream_unchanged() {
    let identity = NativeLeaseIdentity { cursor: 4, sequence: 9, pool_id: 2, slot_id: 1 };
    assert_eq!(LinuxLeaseIdentity::from_native(identity).to_native(), identity);
    let release = LinuxReleaseDescriptor::new(8, NativeLeaseRelease::TimelineValue { release_sync_id: 3, value: 12 });
    assert_eq!(release, LinuxReleaseDescriptor::TimelineValue { lease_id: 8, release_sync_id: 3, value: 12 });
    assert_eq!(release.lease_id(), 8);
    assert_eq!(release.release(), NativeLeaseRelease::TimelineValue { release_sync_id: 3, value: 12 });
    assert_eq!(LinuxReleaseDescriptor::new(5, NativeLeaseRelease::Now).release(), NativeLeaseRelease::Now);
}

fn refused() -> LinuxAttachResponse {
    LinuxAttachResponse::Error { code: "not_authorized".to_string(), message: "attach requires authorization first".to_string() }
}

#[test]
fn attach_stream_replies_map_to_statuses() {
    assert_eq!(authorize_reply_status(&LinuxAttachResponse::Authorized), None);
    assert_eq!(authorize_reply_status(&refused()), Some(FT_STATUS_ERROR));
    assert_eq!(authorize_reply_status(&LinuxAttachResponse::FrameReleased), Some(FT_STATUS_INVALID_STATE));

    assert_eq!(granted_reply(LinuxAttachResponse::Granted { grant: grant() }), Ok(grant()));
    assert_eq!(granted_reply(refused()), Err(FT_STATUS_ERROR));
    assert_eq!(granted_reply(LinuxAttachResponse::Authorized), Err(FT_STATUS_INVALID_STATE));

    let pool = grant().pools.remove(0);
    assert_eq!(pool_reply(LinuxAttachResponse::Pool { pool: pool.clone() }, 9), Ok(pool.clone()));
    assert_eq!(pool_reply(LinuxAttachResponse::Pool { pool }, 10), Err(FT_STATUS_INVALID_STATE));
    assert_eq!(pool_reply(refused(), 9), Err(FT_STATUS_INVALID_STATE));

    assert_eq!(lease_reply(&LinuxAttachResponse::LeaseAcquired { lease_id: 4 }), Ok(4));
    assert_eq!(lease_reply(&refused()), Err(FT_STATUS_INVALID_STATE));
    assert_eq!(release_sync_reply(&LinuxAttachResponse::ReleaseSyncRegistered { release_sync_id: 6 }), Ok(6));
    assert_eq!(release_sync_reply(&refused()), Err(FT_STATUS_ERROR));
    assert_eq!(release_sync_reply(&LinuxAttachResponse::Authorized), Err(FT_STATUS_INVALID_STATE));
    assert_eq!(release_reply_status(&LinuxAttachResponse::FrameReleased), FT_STATUS_OK);
    assert_eq!(release_reply_status(&refused()), FT_STATUS_INVALID_STATE);
}
