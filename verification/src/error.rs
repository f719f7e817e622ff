//! The crate's error type and its human-readable messages.

use vstd::prelude::*;
use vstd::string::*;

use crate::control_page::{spec_read_error_message, VideoRingReadError};
use crate::model::{SourceId, TrackId};
use crate::text::{decimal_string, spec_decimal};

verus! {

#[derive(Debug, Clone, PartialEq, Eq)]
pub enum CaptureTransferError {
    FdPassing { operation: &'static str, message: String },
    MissingPassedFd,
    DaemonTransport { operation: &'static str, message: String },
    InvalidSharedMemoryLength,
    SharedMemory { operation: &'static str, message: String },
    UnknownSource { source_id: SourceId },
    UnknownTrack { track_id: TrackId },
    VideoControlRingRead { track_id: TrackId, source: VideoRingReadError },
    NativeBackend { operation: &'static str, message: String },
    SurfacePoolExhausted { slot_count: u32 },
}

pub type Result<T> = core::result::Result<T, CaptureTransferError>;

/// The human-readable description of an error.
pub open spec fn spec_error_message(error: CaptureTransferError) -> Seq<char> {
    match error {
        CaptureTransferError::FdPassing { operation, message } => "fd passing "@ + operation@
            + " failed: "@ + message@,
        CaptureTransferError::MissingPassedFd => "fd passing response did not include a file descriptor"@,
        CaptureTransferError::DaemonTransport { operation, message } => "daemon transport "@
            + operation@ + " failed: "@ + message@,
        CaptureTransferError::InvalidSharedMemoryLength => "shared memory segment length must be greater than zero"@,
        CaptureTransferError::SharedMemory { operation, message } => "shared memory "@ + operation@
            + " failed: "@ + message@,
        CaptureTransferError::UnknownSource { source_id } => "unknown source id SourceId("@
            + spec_decimal(source_id@ as nat) + ")"@,
        CaptureTransferError::UnknownTrack { track_id } => "unknown track id TrackId("@
            + spec_decimal(track_id@ as nat) + ")"@,
        CaptureTransferError::VideoControlRingRead { track_id, source } =>
            "video control ring read failed for track id TrackId("@ + spec_decimal(track_id@ as nat)
                + "): "@ + spec_read_error_message(source),
        CaptureTransferError::NativeBackend { operation, message } => "native frame backend "@
            + operation@ + " failed: "@ + message@,
        CaptureTransferError::SurfacePoolExhausted { slot_count } => "surface pool exhausted: all "@
            + spec_decimal(slot_count as nat)
            + " surfaces are held by consumers or live in the ring"@,
    }
}

impl CaptureTransferError {
    /// The error's message, as its `Display` form would print it.
    pub fn to_message(&self) -> (text: String)
        ensures
            text@ == spec_error_message(*self),
    {
        match self {
            CaptureTransferError::FdPassing { operation, message } => {
                let mut text = String::from_str("fd passing ");
                text.append(operation);
                text.append(" failed: ");
                text.append(message.as_str());
                text
            },
            CaptureTransferError::MissingPassedFd => String::from_str(
                "fd passing response did not include a file descriptor",
            ),
            CaptureTransferError::DaemonTransport { operation, message } => {
                let mut text = String::from_str("daemon transport ");
                text.append(operation);
                text.append(" failed: ");
                text.append(message.as_str());
                text
            },
            CaptureTransferError::InvalidSharedMemoryLength => String::from_str(
                "shared memory segment length must be greater than zero",
            ),
            CaptureTransferError::SharedMemory { operation, message } => {
                let mut text = String::from_str("shared memory ");
                text.append(operation);
                text.append(" failed: ");
                text.append(message.as_str());
                text
            },
            CaptureTransferError::UnknownSource { source_id } => {
                let mut text = String::from_str("unknown source id SourceId(");
                let number = decimal_string(source_id.get());
                text.append(number.as_str());
                text.append(")");
                text
            },
            CaptureTransferError::UnknownTrack { track_id } => {
                let mut text = String::from_str("unknown track id TrackId(");
                let number = decimal_string(track_id.get());
                text.append(number.as_str());
                text.append(")");
                text
            },
            CaptureTransferError::VideoControlRingRead { track_id, source } => {
                let mut text = String::from_str("video control ring read failed for track id TrackId(");
                let number = decimal_string(track_id.get());
                text.append(number.as_str());
                text.append("): ");
                let detail = source.to_message();
                text.append(detail.as_str());
                text
            },
            CaptureTransferError::NativeBackend { operation, message } => {
                let mut text = String::from_str("native frame backend ");
                text.append(operation);
                text.append(" failed: ");
                text.append(message.as_str());
                text
            },
            CaptureTransferError::SurfacePoolExhausted { slot_count } => {
                let mut text = String::from_str("surface pool exhausted: all ");
                let number = decimal_string(*slot_count as u64);
                text.append(number.as_str());
                text.append(" surfaces are held by consumers or live in the ring");
                text
            },
        }
    }
}

} // verus!
