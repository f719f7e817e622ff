//! The capture transfer channel's messages: what a consumer asks the daemon
//! for, and what the daemon sends back. The host encodes them as one JSON
//! object per line, tagged by an `op` field in snake case.

use vstd::prelude::*;

verus! {

/// What a consumer asks the daemon on the capture transfer channel.
#[derive(Debug, Clone, PartialEq, Eq)]
pub enum CaptureTransferRequest {
    LatestVideoFrame { session_id: String, track_id: u64 },
    AcquireVideoFrameByCursor { session_id: String, track_id: u64, producer_cursor: u64 },
    ReleaseVideoFrame { lease_id: u64 },
}

/// What the daemon sends on the capture transfer channel. The two
/// registrations are each followed by one passed descriptor; a frame from
/// pool 0 is followed by the descriptor of its own immutable payload.
#[derive(Debug, Clone, PartialEq, Eq)]
pub enum CaptureTransferMessage {
    RegisterVideoControlPage {
        session_id: String,
        track_id: u64,
        map_len: u64,
        consumer_id: u64,
        consumer_slot: u64,
    },
    RegisterCpuPool {
        session_id: String,
        track_id: u64,
        pool_id: u64,
        pool_generation: u64,
        payload_map_len: u64,
        slot_stride: u64,
        slot_count: u64,
    },
    VideoFrame {
        session_id: String,
        track_id: u64,
        lease_id: u64,
        producer_cursor: u64,
        sequence: u64,
        timestamp_ns: u64,
        width: u32,
        height: u32,
        stride: u32,
        pixel_format: String,
        pool_id: u64,
        slot_id: u64,
        slot_generation: u64,
        payload_offset: u64,
        payload_len: u64,
        payload_map_len: u64,
        clock_domain: String,
        color_space: String,
        sync_kind: String,
        damage_kind: String,
        damage_base_sequence: u64,
        dropped_before_publish: u64,
        producer_drop_count: u64,
        evicted_count: u64,
        consumer_skipped_count: u64,
        len: u64,
    },
}

} // verus!
