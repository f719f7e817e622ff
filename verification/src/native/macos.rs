//! What the macOS backend decides without touching the OS: how a pixel
//! format maps onto an IOSurface and a Metal texture, how pool and fence
//! ids are composed, and the status numbers the XPC attach transport uses
//! for attach errors. IOSurface, Metal and XPC themselves live behind the
//! platform shim.

use vstd::prelude::*;
use vstd::string::*;

use crate::error::{CaptureTransferError, Result};
use crate::model::PixelFormat;
use crate::native::attach::AttachError;
use crate::text::{decimal_string, spec_decimal};

verus! {

/// The IOSurface fourcc ('BGRA'), bytes per element and `MTLPixelFormat`
/// raw value of BGRA8.
pub const BGRA8_SURFACE_DESC: (u32, u32, u64) = (0x4247_5241, 4, 80);

/// The same for RGBA8 ('RGBA').
pub const RGBA8_SURFACE_DESC: (u32, u32, u64) = (0x5247_4241, 4, 70);

/// (IOSurface fourcc, bytes per element, `MTLPixelFormat` raw value) of a
/// pixel format; "unknown" has none.
pub fn format_desc(format: PixelFormat) -> (desc: Result<(u32, u32, u64)>)
    ensures
        match format {
            PixelFormat::Bgra8Unorm => desc == Ok::<(u32, u32, u64), CaptureTransferError>(BGRA8_SURFACE_DESC),
            PixelFormat::Rgba8Unorm => desc == Ok::<(u32, u32, u64), CaptureTransferError>(RGBA8_SURFACE_DESC),
            PixelFormat::Unknown => desc matches Err(CaptureTransferError::NativeBackend { operation, message })
                && operation@ == "format-desc"@ && message@ == "unknown pixel format has no IOSurface mapping"@,
        },
{
    match format {
        PixelFormat::Bgra8Unorm => Ok(BGRA8_SURFACE_DESC),
        PixelFormat::Rgba8Unorm => Ok(RGBA8_SURFACE_DESC),
        PixelFormat::Unknown => Err(
            CaptureTransferError::NativeBackend {
                operation: "format-desc",
                message: String::from_str("unknown pixel format has no IOSurface mapping"),
            },
        ),
    }
}

/// An id unique across daemon restarts: the process id in the high 32 bits,
/// a process-local count in the low bits. Pool and fence ids share it.
pub fn unique_id(process_id: u32, count: u64) -> (id: u64)
    ensures
        id == ((process_id as u64) << 32u64) | count,
        count < 0x1_0000_0000 ==> id == process_id as u64 * 0x1_0000_0000 + count,
{
    let high: u64 = (process_id as u64) << 32u64;
    let id = high | count;
    proof {
        let pid = process_id as u64;
        assert(count < 0x1_0000_0000 ==> (pid << 32u64) | count == pid * 0x1_0000_0000 + count) by (bit_vector)
            requires
                pid < 0x1_0000_0000,
        ;
    }
    id
}

pub const XPC_STATUS_OK: i32 = 0;
pub const XPC_STATUS_NOT_AUTHORIZED: i32 = 1;
pub const XPC_STATUS_INVALID_TOKEN: i32 = 2;
pub const XPC_STATUS_ALREADY_ATTACHED: i32 = 3;
/// Reserved for a rejected consumer id; no attach error carries it yet.
pub const XPC_STATUS_INVALID_CONSUMER_ID: i32 = 4;
pub const XPC_STATUS_GRANT_FAILED: i32 = 5;

/// The status number the XPC transport sends for an attach error.
pub open spec fn spec_status_from_error(error: AttachError) -> i32 {
    match error {
        AttachError::NotAuthorized => XPC_STATUS_NOT_AUTHORIZED,
        AttachError::InvalidToken => XPC_STATUS_INVALID_TOKEN,
        AttachError::AlreadyAttached => XPC_STATUS_ALREADY_ATTACHED,
        AttachError::Grant(_) => XPC_STATUS_GRANT_FAILED,
    }
}

pub fn status_from_error(error: &AttachError) -> (status: i32)
    ensures
        status == spec_status_from_error(*error),
{
    match error {
        AttachError::NotAuthorized => XPC_STATUS_NOT_AUTHORIZED,
        AttachError::InvalidToken => XPC_STATUS_INVALID_TOKEN,
        AttachError::AlreadyAttached => XPC_STATUS_ALREADY_ATTACHED,
        AttachError::Grant(_) => XPC_STATUS_GRANT_FAILED,
    }
}

/// `error` is a grant failure of the native backend's `operation` with
/// `message`.
pub open spec fn spec_is_grant_failure(error: AttachError, operation: Seq<char>, message: Seq<char>) -> bool {
    error matches AttachError::Grant(CaptureTransferError::NativeBackend { operation: op, message: text })
        && op@ == operation && text@ == message
}

/// The attach error a failed XPC status stands for, on the client side of
/// `operation`. Grant failures lose their producer-side detail on the wire.
pub fn error_from_status(status: i32, operation: &'static str) -> (error: AttachError)
    requires
        status != XPC_STATUS_OK,
    ensures
        forall|sent: AttachError|
            spec_status_from_error(sent) == status ==> if sent is Grant {
                error is Grant
            } else {
                error == sent
            },
        status == XPC_STATUS_NOT_AUTHORIZED ==> error == AttachError::NotAuthorized,
        status == XPC_STATUS_INVALID_TOKEN ==> error == AttachError::InvalidToken,
        status == XPC_STATUS_ALREADY_ATTACHED ==> error == AttachError::AlreadyAttached,
        status == XPC_STATUS_GRANT_FAILED ==> spec_is_grant_failure(
            error,
            operation@,
            "producer-side grant assembly failed"@,
        ),
        !(status == XPC_STATUS_NOT_AUTHORIZED || status == XPC_STATUS_INVALID_TOKEN || status
            == XPC_STATUS_ALREADY_ATTACHED || status == XPC_STATUS_GRANT_FAILED) ==> spec_is_grant_failure(
            error,
            operation@,
            "unexpected XPC status "@ + spec_signed_decimal(status as int),
        ),
{
    match status {
        XPC_STATUS_NOT_AUTHORIZED => AttachError::NotAuthorized,
        XPC_STATUS_INVALID_TOKEN => AttachError::InvalidToken,
        XPC_STATUS_ALREADY_ATTACHED => AttachError::AlreadyAttached,
        XPC_STATUS_GRANT_FAILED => AttachError::Grant(
            CaptureTransferError::NativeBackend {
                operation,
                message: String::from_str("producer-side grant assembly failed"),
            },
        ),
        other => {
            let mut message = String::from_str("unexpected XPC status ");
            if other < 0 {
                message.append("-");
                let magnitude = decimal_string((-(other as i64)) as u64);
                message.append(magnitude.as_str());
                proof {
                    assert(message@ =~= "unexpected XPC status "@ + spec_signed_decimal(other as int));
                }
            } else {
                let magnitude = decimal_string(other as u64);
                message.append(magnitude.as_str());
                proof {
                    assert(message@ =~= "unexpected XPC status "@ + spec_signed_decimal(other as int));
                }
            }
            AttachError::Grant(CaptureTransferError::NativeBackend { operation, message })
        },
    }
}

/// Decimal notation of a signed number, with a leading '-' below zero.
pub open spec fn spec_signed_decimal(n: int) -> Seq<char> {
    if n < 0 {
        "-"@ + spec_decimal((-n) as nat)
    } else {
        spec_decimal(n as nat)
    }
}

} // verus!
