use capture_transfer::error::CaptureTransferError;
use capture_transfer::model::PixelFormat;
use capture_transfer::native::attach::AttachError;
use capture_transfer::native::macos::{
    error_from_status, format_desc, status_from_error, unique_id, XPC_STATUS_ALREADY_ATTACHED,
    XPC_STATUS_GRANT_FAILED, XPC_STATUS_INVALID_CONSUMER_ID, XPC_STATUS_INVALID_TOKEN, XPC_STATUS_NOT_AUTHORIZED,
};

#[test]
fn pixel_formats_map_to_iosurface_and_metal_formats() {
    assert_eq!(format_desc(PixelFormat::Bgra8Unorm).unwrap(), (0x4247_5241, 4, 80));
    assert_eq!(format_desc(PixelFormat::Rgba8Unorm).unwrap(), (0x5247_4241, 4, 70));
    assert_eq!(
        format_desc(PixelFormat::Unknown).unwrap_err(),
        CaptureTransferError::NativeBackend {
            operation: "format-desc",
            message: "unknown pixel format has no IOSurface mapping".to_string(),
        }
    );
}

#[test]
fn unique_ids_put_the_process_above_the_count() {
    assert_eq!(unique_id(0x1234, 7), 0x0000_1234_0000_0007);
    assert_eq!(unique_id(0, 1), 1);
    assert_eq!(unique_id(u32::MAX, 0xffff_ffff), u64::MAX);
}

#[test]
fn attach_errors_cross_xpc_as_status_numbers() {
    for error in [AttachError::NotAuthorized, AttachError::InvalidToken, AttachError::AlreadyAttached] {
        let status = status_from_error(&error);
        assert_eq!(error_from_status(status, "xpc-attach"), error);
    }
    assert_eq!(status_from_error(&AttachError::NotAuthorized), XPC_STATUS_NOT_AUTHORIZED);
    assert_eq!(status_from_error(&AttachError::InvalidToken), XPC_STATUS_INVALID_TOKEN);
    assert_eq!(status_from_error(&AttachError::AlreadyAttached), XPC_STATUS_ALREADY_ATTACHED);
    let grant = AttachError::Grant(CaptureTransferError::SurfacePoolExhausted { slot_count: 3 });
    assert_eq!(status_from_error(&grant), XPC_STATUS_GRANT_FAILED);
    assert_eq!(
        error_from_status(XPC_STATUS_GRANT_FAILED, "xpc-attach"),
        AttachError::Grant(CaptureTransferError::NativeBackend {
            operation: "xpc-attach",
            message: "producer-side grant assembly failed".to_string(),
        })
    );
    assert_eq!(
        error_from_status(XPC_STATUS_INVALID_CONSUMER_ID, "xpc-attach"),
        AttachError::Grant(CaptureTransferError::NativeBackend {
            operation: "xpc-attach",
            message: "unexpected XPC status 4".to_string(),
        })
    );
    assert_eq!(
        error_from_status(-17, "xpc-authorize"),
        AttachError::Grant(CaptureTransferError::NativeBackend {
            operation: "xpc-authorize",
            message: "unexpected XPC status -17".to_string(),
        })
    );
}
