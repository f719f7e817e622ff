//! What a daemon consumer decides about the capture transfer channel: which
//! registration a message asks for, whether a frame's metadata describes a
//! payload inside its mapping, which registered pool a frame lives in, and
//! whether the control page's shadow agrees with the socket's metadata.
//! Receiving descriptors and mapping them is the host's transport.

use vstd::prelude::*;
use vstd::string::*;

use crate::control_page::{spec_read_error_message, spec_validate_header, VideoRingEntry, VideoTrackControlPage};
use crate::daemon::{
    daemon_error, parse_clock_domain, parse_color_space, parse_damage_kind, parse_pixel_format, parse_sync_kind,
    spec_clock_domain_name, spec_color_space_name, spec_damage_kind_name, spec_is_transport_error,
    spec_pixel_format_name, spec_sync_kind_name,
};
use crate::error::{CaptureTransferError, Result};
use crate::model::{ClockDomain, ColorSpace, DamageKind, FrameSyncKind, PixelFormat};
use crate::text::{decimal_string, spec_decimal};
use crate::transfer_channel::CaptureTransferMessage;

verus! {

/// A frame as the daemon announces it, stream values still by name.
#[derive(Debug, Clone, PartialEq, Eq)]
pub struct LatestFrameWire {
    pub track_id: u64,
    pub sequence: u64,
    pub lease_id: u64,
    pub producer_cursor: u64,
    pub timestamp_ns: u64,
    pub width: u32,
    pub height: u32,
    pub stride: u32,
    pub pixel_format: String,
    pub pool_id: u64,
    pub slot_id: u64,
    pub slot_generation: u64,
    pub payload_offset: u64,
    pub payload_len: u64,
    pub payload_map_len: u64,
    pub clock_domain: String,
    pub color_space: String,
    pub sync_kind: String,
    pub damage_kind: String,
    pub damage_base_sequence: u64,
    pub dropped_before_publish: u64,
    pub producer_drop_count: u64,
    pub evicted_count: u64,
    pub consumer_skipped_count: u64,
    pub len: u64,
}

/// A frame's description once its stream values are read.
#[derive(Debug, Clone, Copy, PartialEq, Eq, Structural)]
pub struct VideoFrameDesc {
    pub sequence: u64,
    pub timestamp_ns: u64,
    pub width: u32,
    pub height: u32,
    pub stride: u32,
    pub pixel_format: PixelFormat,
    pub pool_id: u64,
    pub slot_id: u64,
    pub slot_generation: u64,
    pub payload_offset: u64,
    pub payload_len: u64,
    pub payload_map_len: u64,
    pub clock_domain: ClockDomain,
    pub color_space: ColorSpace,
    pub sync_kind: FrameSyncKind,
    pub damage_kind: DamageKind,
    pub damage_base_sequence: u64,
    pub dropped_before_publish: u64,
    pub producer_drop_count: u64,
    pub evicted_count: u64,
    pub consumer_skipped_count: u64,
}

/// A validated frame: its description, its lease, and where its payload
/// lies inside the mapping that carries it.
#[derive(Debug, Clone, Copy, PartialEq, Eq, Structural)]
pub struct FrameMapping {
    pub desc: VideoFrameDesc,
    pub lease_id: u64,
    pub producer_cursor: u64,
    pub payload_offset: usize,
    pub payload_len: usize,
    pub payload_map_len: usize,
}

/// A registered CPU pool: the track it serves, its id and its generation.
#[derive(Debug, Clone, Copy, PartialEq, Eq, Structural, PartialOrd, Ord, Hash)]
pub struct PoolKey {
    pub track_id: u64,
    pub pool_id: u64,
    pub pool_generation: u64,
}

/// `value` is the daemon's name of a pixel format other than "unknown".
pub open spec fn spec_names_pixel_format(value: Seq<char>) -> bool {
    exists|format: PixelFormat| format != PixelFormat::Unknown && #[trigger] spec_pixel_format_name(format) == value
}

pub open spec fn spec_names_clock_domain(value: Seq<char>) -> bool {
    exists|domain: ClockDomain| #[trigger] spec_clock_domain_name(domain) == value
}

pub open spec fn spec_names_color_space(value: Seq<char>) -> bool {
    exists|color_space: ColorSpace| #[trigger] spec_color_space_name(color_space) == value
}

pub open spec fn spec_names_sync_kind(value: Seq<char>) -> bool {
    exists|kind: FrameSyncKind| #[trigger] spec_sync_kind_name(kind) == value
}

pub open spec fn spec_names_damage_kind(value: Seq<char>) -> bool {
    exists|kind: DamageKind| #[trigger] spec_damage_kind_name(kind) == value
}

/// The first check a frame's metadata fails, as the failing operation and
/// its message, or `None` when the frame is sound.
pub open spec fn spec_frame_metadata_failure(frame: LatestFrameWire) -> Option<(Seq<char>, Seq<char>)> {
    if !spec_names_pixel_format(frame.pixel_format@) {
        Some(("parse-pixel-format"@, frame.pixel_format@))
    } else if !spec_names_clock_domain(frame.clock_domain@) {
        Some(("parse-clock-domain"@, frame.clock_domain@))
    } else if !spec_names_color_space(frame.color_space@) {
        Some(("parse-color-space"@, frame.color_space@))
    } else if !spec_names_sync_kind(frame.sync_kind@) {
        Some(("parse-sync-kind"@, frame.sync_kind@))
    } else if !spec_names_damage_kind(frame.damage_kind@) {
        Some(("parse-damage-kind"@, frame.damage_kind@))
    } else if frame.payload_offset > usize::MAX {
        Some(("mmap-frame"@, "payload offset does not fit usize"@))
    } else if frame.payload_len > usize::MAX {
        Some(("mmap-frame"@, "payload length does not fit usize"@))
    } else if frame.payload_map_len > usize::MAX {
        Some(("mmap-frame"@, "payload map length does not fit usize"@))
    } else if frame.payload_len == 0 || frame.len != frame.payload_len {
        Some(("mmap-frame"@, "frame length is zero"@))
    } else if frame.payload_offset > frame.payload_map_len || frame.payload_len > frame.payload_map_len
        - frame.payload_offset {
        Some(("mmap-frame"@, "payload range exceeds mapped length"@))
    } else {
        None
    }
}

/// The description of `frame` under the stream values its names read as.
pub open spec fn spec_frame_desc(
    frame: LatestFrameWire,
    pixel_format: PixelFormat,
    clock_domain: ClockDomain,
    color_space: ColorSpace,
    sync_kind: FrameSyncKind,
    damage_kind: DamageKind,
) -> VideoFrameDesc {
    VideoFrameDesc {
        sequence: frame.sequence,
        timestamp_ns: frame.timestamp_ns,
        width: frame.width,
        height: frame.height,
        stride: frame.stride,
        pixel_format,
        pool_id: frame.pool_id,
        slot_id: frame.slot_id,
        slot_generation: frame.slot_generation,
        payload_offset: frame.payload_offset,
        payload_len: frame.payload_len,
        payload_map_len: frame.payload_map_len,
        clock_domain,
        color_space,
        sync_kind,
        damage_kind,
        damage_base_sequence: frame.damage_base_sequence,
        dropped_before_publish: frame.dropped_before_publish,
        producer_drop_count: frame.producer_drop_count,
        evicted_count: frame.evicted_count,
        consumer_skipped_count: frame.consumer_skipped_count,
    }
}

/// `mapping` is what a sound `frame` describes.
pub open spec fn spec_mapping_of(frame: LatestFrameWire, mapping: FrameMapping) -> bool {
    let desc = mapping.desc;
    &&& frame.pixel_format@ == spec_pixel_format_name(desc.pixel_format)
    &&& desc.pixel_format != PixelFormat::Unknown
    &&& frame.clock_domain@ == spec_clock_domain_name(desc.clock_domain)
    &&& frame.color_space@ == spec_color_space_name(desc.color_space)
    &&& frame.sync_kind@ == spec_sync_kind_name(desc.sync_kind)
    &&& frame.damage_kind@ == spec_damage_kind_name(desc.damage_kind)
    &&& desc == spec_frame_desc(
        frame,
        desc.pixel_format,
        desc.clock_domain,
        desc.color_space,
        desc.sync_kind,
        desc.damage_kind,
    )
    &&& mapping.lease_id == frame.lease_id
    &&& mapping.producer_cursor == frame.producer_cursor
    &&& mapping.payload_offset == frame.payload_offset
    &&& mapping.payload_len == frame.payload_len
    &&& mapping.payload_map_len == frame.payload_map_len
}

/// Read a frame's stream values and check that its payload is non-empty and
/// lies inside its mapping.
pub fn parse_frame_metadata(frame: &LatestFrameWire) -> (mapping: Result<FrameMapping>)
    ensures
        match mapping {
            Ok(mapping) => spec_frame_metadata_failure(*frame) is None && spec_mapping_of(*frame, mapping),
            Err(error) => spec_frame_metadata_failure(*frame) matches Some((operation, message))
                && spec_is_transport_error(error, operation, message),
        },
{
    let pixel_format = match parse_pixel_format(frame.pixel_format.as_str()) {
        Ok(format) => format,
        Err(error) => return Err(error),
    };
    let clock_domain = match parse_clock_domain(frame.clock_domain.as_str()) {
        Ok(domain) => domain,
        Err(error) => return Err(error),
    };
    let color_space = match parse_color_space(frame.color_space.as_str()) {
        Ok(color_space) => color_space,
        Err(error) => return Err(error),
    };
    let sync_kind = match parse_sync_kind(frame.sync_kind.as_str()) {
        Ok(kind) => kind,
        Err(error) => return Err(error),
    };
    let damage_kind = match parse_damage_kind(frame.damage_kind.as_str()) {
        Ok(kind) => kind,
        Err(error) => return Err(error),
    };
    proof {
        assert(spec_names_pixel_format(frame.pixel_format@) && spec_pixel_format_name(pixel_format)
            == frame.pixel_format@);
        assert(spec_clock_domain_name(clock_domain) == frame.clock_domain@);
        assert(spec_color_space_name(color_space) == frame.color_space@);
        assert(spec_sync_kind_name(sync_kind) == frame.sync_kind@);
        assert(spec_damage_kind_name(damage_kind) == frame.damage_kind@);
    }
    if frame.payload_offset > usize::MAX as u64 {
        return Err(daemon_error("mmap-frame", "payload offset does not fit usize"));
    }
    if frame.payload_len > usize::MAX as u64 {
        return Err(daemon_error("mmap-frame", "payload length does not fit usize"));
    }
    if frame.payload_map_len > usize::MAX as u64 {
        return Err(daemon_error("mmap-frame", "payload map length does not fit usize"));
    }
    let payload_offset = frame.payload_offset as usize;
    let payload_len = frame.payload_len as usize;
    let payload_map_len = frame.payload_map_len as usize;
    if payload_len == 0 || frame.len != frame.payload_len {
        return Err(daemon_error("mmap-frame", "frame length is zero"));
    }
    if payload_offset > payload_map_len || payload_len > payload_map_len - payload_offset {
        return Err(daemon_error("mmap-frame", "payload range exceeds mapped length"));
    }
    Ok(
        FrameMapping {
            desc: VideoFrameDesc {
                sequence: frame.sequence,
                timestamp_ns: frame.timestamp_ns,
                width: frame.width,
                height: frame.height,
                stride: frame.stride,
                pixel_format,
                pool_id: frame.pool_id,
                slot_id: frame.slot_id,
                slot_generation: frame.slot_generation,
                payload_offset: frame.payload_offset,
                payload_len: frame.payload_len,
                payload_map_len: frame.payload_map_len,
                clock_domain,
                color_space,
                sync_kind,
                damage_kind,
                damage_base_sequence: frame.damage_base_sequence,
                dropped_before_publish: frame.dropped_before_publish,
                producer_drop_count: frame.producer_drop_count,
                evicted_count: frame.evicted_count,
                consumer_skipped_count: frame.consumer_skipped_count,
            },
            lease_id: frame.lease_id,
            producer_cursor: frame.producer_cursor,
            payload_offset,
            payload_len,
            payload_map_len,
        },
    )
}

/// Law: a frame the consumer accepts describes a non-empty payload that
/// lies inside the mapping carrying it, so its bytes can be read in place.
pub proof fn law_accepted_payload_inside_mapping(frame: LatestFrameWire, mapping: FrameMapping)
    requires
        spec_frame_metadata_failure(frame) is None,
        spec_mapping_of(frame, mapping),
    ensures
        0 < mapping.payload_len,
        mapping.payload_offset + mapping.payload_len <= mapping.payload_map_len,
        mapping.payload_len == frame.len,
{
}

/// What a consumer does next on a daemon message.
#[derive(Debug, Clone, PartialEq, Eq)]
pub enum DaemonStep {
    /// Receive the control page's descriptor and map `map_len` bytes of it
    /// read-only, then validate its header.
    MapControlPage { track_id: u64, map_len: usize },
    /// Receive the pool's descriptor, then check `payload_map_len` with
    /// `cpu_pool_map_len` before mapping it.
    RegisterCpuPool { key: PoolKey, payload_map_len: u64 },
    /// A frame: compare it with the control page's shadow, then resolve its
    /// payload (`frame_pool_key` says where).
    Frame(LatestFrameWire),
}

/// The frame a `VideoFrame` message announces.
pub open spec fn spec_frame_wire(message: CaptureTransferMessage) -> LatestFrameWire
    recommends
        message is VideoFrame,
{
    match message {
        CaptureTransferMessage::VideoFrame {
            session_id: _,
            track_id,
            lease_id,
            producer_cursor,
            sequence,
            timestamp_ns,
            width,
            height,
            stride,
            pixel_format,
            pool_id,
            slot_id,
            slot_generation,
            payload_offset,
            payload_len,
            payload_map_len,
            clock_domain,
            color_space,
            sync_kind,
            damage_kind,
            damage_base_sequence,
            dropped_before_publish,
            producer_drop_count,
            evicted_count,
            consumer_skipped_count,
            len,
        } => LatestFrameWire {
            track_id,
            sequence,
            lease_id,
            producer_cursor,
            timestamp_ns,
            width,
            height,
            stride,
            pixel_format,
            pool_id,
            slot_id,
            slot_generation,
            payload_offset,
            payload_len,
            payload_map_len,
            clock_domain,
            color_space,
            sync_kind,
            damage_kind,
            damage_base_sequence,
            dropped_before_publish,
            producer_drop_count,
            evicted_count,
            consumer_skipped_count,
            len,
        },
        _ => arbitrary(),
    }
}

/// Decide what a daemon message asks of the consumer. The connection is
/// scoped to one session, so the messages' session ids are not consulted.
pub fn classify_message(message: CaptureTransferMessage) -> (step: Result<DaemonStep>)
    ensures
        match message {
            CaptureTransferMessage::RegisterVideoControlPage { track_id, map_len, .. } => if map_len
                <= usize::MAX {
                step == Ok::<DaemonStep, CaptureTransferError>(
                    DaemonStep::MapControlPage { track_id, map_len: map_len as usize },
                )
            } else {
                step matches Err(error) && spec_is_transport_error(
                    error,
                    "mmap-control-page"@,
                    "control page map length does not fit usize"@,
                )
            },
            CaptureTransferMessage::RegisterCpuPool { track_id, pool_id, pool_generation, payload_map_len, .. } =>
                step == Ok::<DaemonStep, CaptureTransferError>(
                DaemonStep::RegisterCpuPool { key: PoolKey { track_id, pool_id, pool_generation }, payload_map_len },
            ),
            CaptureTransferMessage::VideoFrame { .. } => step == Ok::<DaemonStep, CaptureTransferError>(
                DaemonStep::Frame(spec_frame_wire(message)),
            ),
        },
{
    match message {
        CaptureTransferMessage::RegisterVideoControlPage { session_id: _, track_id, map_len, .. } => {
            if map_len > usize::MAX as u64 {
                return Err(daemon_error("mmap-control-page", "control page map length does not fit usize"));
            }
            Ok(DaemonStep::MapControlPage { track_id, map_len: map_len as usize })
        },
        CaptureTransferMessage::RegisterCpuPool {
            session_id: _,
            track_id,
            pool_id,
            pool_generation,
            payload_map_len,
            ..
        } => Ok(DaemonStep::RegisterCpuPool { key: PoolKey { track_id, pool_id, pool_generation }, payload_map_len }),
        CaptureTransferMessage::VideoFrame {
            session_id: _,
            track_id,
            lease_id,
            producer_cursor,
            sequence,
            timestamp_ns,
            width,
            height,
            stride,
            pixel_format,
            pool_id,
            slot_id,
            slot_generation,
            payload_offset,
            payload_len,
            payload_map_len,
            clock_domain,
            color_space,
            sync_kind,
            damage_kind,
            damage_base_sequence,
            dropped_before_publish,
            producer_drop_count,
            evicted_count,
            consumer_skipped_count,
            len,
        } => Ok(
            DaemonStep::Frame(
                LatestFrameWire {
                    track_id,
                    sequence,
                    lease_id,
                    producer_cursor,
                    timestamp_ns,
                    width,
                    height,
                    stride,
                    pixel_format,
                    pool_id,
                    slot_id,
                    slot_generation,
                    payload_offset,
                    payload_len,
                    payload_map_len,
                    clock_domain,
                    color_space,
                    sync_kind,
                    damage_kind,
                    damage_base_sequence,
                    dropped_before_publish,
                    producer_drop_count,
                    evicted_count,
                    consumer_skipped_count,
                    len,
                },
            ),
        ),
    }
}

/// The length a CPU pool is mapped with: it must fit `usize` and be non-zero.
pub fn cpu_pool_map_len(payload_map_len: u64) -> (map_len: Result<usize>)
    ensures
        match map_len {
            Ok(map_len) => map_len == payload_map_len && payload_map_len > 0,
            Err(error) => if payload_map_len > usize::MAX {
                spec_is_transport_error(error, "mmap-pool"@, "pool map length does not fit usize"@)
            } else {
                payload_map_len == 0 && spec_is_transport_error(error, "mmap-pool"@, "pool map length is zero"@)
            },
        },
{
    if payload_map_len > usize::MAX as u64 {
        return Err(daemon_error("mmap-pool", "pool map length does not fit usize"));
    }
    if payload_map_len == 0 {
        return Err(daemon_error("mmap-pool", "pool map length is zero"));
    }
    Ok(payload_map_len as usize)
}

/// The registered pool a frame's payload lives in; `None` for pool 0,
/// whose frames carry their own immutable payload descriptor. The wire
/// reuses the slot generation as the pool generation.
pub open spec fn spec_frame_pool_key(frame: LatestFrameWire) -> Option<PoolKey> {
    if frame.pool_id == 0 {
        None
    } else {
        Some(PoolKey { track_id: frame.track_id, pool_id: frame.pool_id, pool_generation: frame.slot_generation })
    }
}

pub fn frame_pool_key(frame: &LatestFrameWire) -> (key: Option<PoolKey>)
    ensures
        key == spec_frame_pool_key(*frame),
{
    if frame.pool_id == 0 {
        None
    } else {
        Some(PoolKey { track_id: frame.track_id, pool_id: frame.pool_id, pool_generation: frame.slot_generation })
    }
}

pub open spec fn spec_unregistered_pool_message(key: PoolKey) -> Seq<char> {
    "frame references unregistered pool track="@ + spec_decimal(key.track_id as nat) + " pool="@ + spec_decimal(
        key.pool_id as nat,
    ) + " generation="@ + spec_decimal(key.pool_generation as nat)
}

/// Resolve a frame whose payload lives in registered pool `key`, given the
/// map length the consumer registered under that key, if any.
pub fn resolve_pool_frame(frame: &LatestFrameWire, key: PoolKey, registered_map_len: Option<usize>) -> (mapping:
    Result<FrameMapping>)
    ensures
        match registered_map_len {
            None => mapping matches Err(error) && spec_is_transport_error(
                error,
                "resolve-frame-pool"@,
                spec_unregistered_pool_message(key),
            ),
            Some(pool_map_len) => match spec_frame_metadata_failure(*frame) {
                Some((operation, message)) => mapping matches Err(error) && spec_is_transport_error(
                    error,
                    operation,
                    message,
                ),
                None => if frame.payload_map_len == pool_map_len {
                    mapping matches Ok(found) && spec_mapping_of(*frame, found)
                } else {
                    mapping matches Err(error) && spec_is_transport_error(
                        error,
                        "resolve-frame-pool"@,
                        "frame map length does not match registered pool"@,
                    )
                },
            },
        },
{
    let pool_map_len = match registered_map_len {
        Some(pool_map_len) => pool_map_len,
        None => {
            let mut message = String::from_str("frame references unregistered pool track=");
            let track = decimal_string(key.track_id);
            message.append(track.as_str());
            message.append(" pool=");
            let pool = decimal_string(key.pool_id);
            message.append(pool.as_str());
            message.append(" generation=");
            let generation = decimal_string(key.pool_generation);
            message.append(generation.as_str());
            return Err(daemon_error("resolve-frame-pool", message.as_str()));
        },
    };
    let mapping = match parse_frame_metadata(frame) {
        Ok(mapping) => mapping,
        Err(error) => return Err(error),
    };
    if mapping.payload_map_len != pool_map_len {
        return Err(daemon_error("resolve-frame-pool", "frame map length does not match registered pool"));
    }
    Ok(mapping)
}

/// The control page's entry agrees with the socket's metadata for a frame,
/// on every value the ring records. The frame's `slot_generation` is not
/// compared: a ring entry records no slot generation, so the page has
/// nothing to compare it with, and the socket's value stands.
pub open spec fn spec_shadow_agrees(entry: VideoRingEntry, frame: LatestFrameWire) -> bool {
    &&& entry.cursor == frame.producer_cursor
    &&& entry.sequence == frame.sequence
    &&& entry.pool_id == frame.pool_id
    &&& entry.slot_id as u64 == frame.slot_id
    &&& entry.payload_offset == frame.payload_offset
    &&& entry.payload_len == frame.payload_len
}

pub open spec fn spec_shadow_mismatch_message(frame: LatestFrameWire) -> Seq<char> {
    "control page entry does not match frame metadata for track="@ + spec_decimal(frame.track_id as nat)
        + " cursor="@ + spec_decimal(frame.producer_cursor as nat)
}

/// Check a frame against the control page's shadow of the same cursor. The
/// socket's metadata stays authoritative; the shadow only fails closed.
pub fn compare_control_page_shadow(page: &VideoTrackControlPage, frame: &LatestFrameWire) -> (checked: Result<()>)
    requires
        page.wf(),
    ensures
        spec_validate_header(page.header_view(), page.mapped_len_view()) is Err ==> checked is Err,
        spec_validate_header(page.header_view(), page.mapped_len_view()) is Ok ==> match page.spec_read_entry(
            frame.producer_cursor,
        ) {
            Ok(entry) => if spec_shadow_agrees(entry, *frame) {
                checked is Ok
            } else {
                checked matches Err(error) && spec_is_transport_error(
                    error,
                    "control-page-shadow"@,
                    spec_shadow_mismatch_message(*frame),
                )
            },
            Err(source) => checked matches Err(error) && (error matches CaptureTransferError::SharedMemory {
                operation,
                message,
            } && operation@ == "read-control-page"@ && message@ == spec_read_error_message(source)),
        },
{
    let entry = match page.shadow_read_entry_for_cursor(frame.producer_cursor) {
        Ok(entry) => entry,
        Err(error) => return Err(error),
    };
    if entry.cursor != frame.producer_cursor || entry.sequence != frame.sequence || entry.pool_id != frame.pool_id
        || entry.slot_id as u64 != frame.slot_id || entry.payload_offset != frame.payload_offset
        || entry.payload_len != frame.payload_len {
        let mut message = String::from_str("control page entry does not match frame metadata for track=");
        let track = decimal_string(frame.track_id);
        message.append(track.as_str());
        message.append(" cursor=");
        let cursor = decimal_string(frame.producer_cursor);
        message.append(cursor.as_str());
        return Err(daemon_error("control-page-shadow", message.as_str()));
    }
    Ok(())
}

/// Law: a frame's description carries the frame's own numbers, each from
/// the field of the same name, and the stream values its names read as.
pub proof fn law_frame_desc_copies_wire(
    frame: LatestFrameWire,
    pixel_format: PixelFormat,
    clock_domain: ClockDomain,
    color_space: ColorSpace,
    sync_kind: FrameSyncKind,
    damage_kind: DamageKind,
)
    ensures
        ({
            let desc = spec_frame_desc(frame, pixel_format, clock_domain, color_space, sync_kind, damage_kind);
            &&& desc.sequence == frame.sequence
            &&& desc.timestamp_ns == frame.timestamp_ns
            &&& desc.width == frame.width
            &&& desc.height == frame.height
            &&& desc.stride == frame.stride
            &&& desc.pool_id == frame.pool_id
            &&& desc.slot_id == frame.slot_id
            &&& desc.slot_generation == frame.slot_generation
            &&& desc.payload_offset == frame.payload_offset
            &&& desc.payload_len == frame.payload_len
            &&& desc.payload_map_len == frame.payload_map_len
            &&& desc.damage_base_sequence == frame.damage_base_sequence
            &&& desc.dropped_before_publish == frame.dropped_before_publish
            &&& desc.producer_drop_count == frame.producer_drop_count
            &&& desc.evicted_count == frame.evicted_count
            &&& desc.consumer_skipped_count == frame.consumer_skipped_count
            &&& desc.pixel_format == pixel_format
            &&& desc.clock_domain == clock_domain
            &&& desc.color_space == color_space
            &&& desc.sync_kind == sync_kind
            &&& desc.damage_kind == damage_kind
        }),
{
}

} // verus!
