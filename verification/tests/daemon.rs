use capture_transfer::control_page::{PendingVideoRingEntry, VideoTrackControlPage};
use capture_transfer::daemon::frames::{
    classify_message, compare_control_page_shadow, cpu_pool_map_len, frame_pool_key, parse_frame_metadata,
    resolve_pool_frame, DaemonStep, LatestFrameWire, PoolKey,
};
use capture_transfer::daemon::{
    parse_clock_domain, parse_color_space, parse_damage_kind, parse_http_response, parse_pixel_format,
    parse_sync_kind, session_info_from_wire, unsupported, SessionInfoWire,
};
use capture_transfer::error::CaptureTransferError;
use capture_transfer::model::{ClockDomain, ColorSpace, DamageKind, FrameSyncKind, PixelFormat};
use capture_transfer::transfer_channel::CaptureTransferMessage;

#[test]
fn parses_http_body() {
    let body = parse_http_response("HTTP/1.1 200 OK\r\ncontent-length: 2\r\n\r\n{}").unwrap();
    assert_eq!(body, "{}");
}

#[test]
fn rejects_non_200_status_without_substring_match() {
    let error = parse_http_response("HTTP/1.1 1200 Weird\r\ncontent-length: 2\r\n\r\n{}").unwrap_err();
    assert!(error.to_message().contains("1200 Weird"));
}

#[test]
fn http_response_failures_name_what_is_missing() {
    assert_eq!(
        parse_http_response("HTTP/1.1 200 OK\r\n"),
        Err(CaptureTransferError::DaemonTransport {
            operation: "parse-http",
            message: "missing header/body separator".to_string()
        })
    );
    assert_eq!(
        parse_http_response("\r\n\r\nbody"),
        Err(CaptureTransferError::DaemonTransport { operation: "parse-http", message: "missing status line".to_string() })
    );
    assert_eq!(
        parse_http_response("HTTP/1.1 404 Not Found\r\n\r\n"),
        Err(CaptureTransferError::DaemonTransport {
            operation: "http-status",
            message: "HTTP/1.1 404 Not Found".to_string()
        })
    );
    assert_eq!(parse_http_response("  HTTP/1.1\t200\r\n\r\n{\"a\":1}\r\n\r\nmore").unwrap(), "{\"a\":1}\r\n\r\nmore");
    assert!(parse_http_response("HTTP/1.1\r\n\r\n").is_err());
}

#[test]
fn daemon_value_names_parse_to_model_values() {
    assert_eq!(parse_pixel_format("bgra8_unorm").unwrap(), PixelFormat::Bgra8Unorm);
    assert_eq!(parse_pixel_format("rgba8_unorm").unwrap(), PixelFormat::Rgba8Unorm);
    assert_eq!(
        parse_pixel_format("unknown").unwrap_err(),
        CaptureTransferError::DaemonTransport { operation: "parse-pixel-format", message: "unknown".to_string() }
    );
    assert_eq!(parse_clock_domain("host_time").unwrap(), ClockDomain::HostTime);
    assert!(parse_clock_domain("HostTime").is_err());
    assert_eq!(parse_color_space("srgb").unwrap(), ColorSpace::Srgb);
    assert_eq!(parse_sync_kind("native_timeline").unwrap(), FrameSyncKind::NativeTimeline);
    assert_eq!(parse_damage_kind("none").unwrap(), DamageKind::Unchanged);
    assert_eq!(parse_damage_kind("sidecar_rects").unwrap(), DamageKind::SidecarRects);
    assert!(parse_damage_kind("").is_err());
}

fn transport(operation: &'static str, message: &str) -> CaptureTransferError {
    CaptureTransferError::DaemonTransport { operation, message: message.to_string() }
}

#[test]
fn hosts_without_a_daemon_transport_answer_unsupported() {
    assert_eq!(unsupported(), transport("windows-capture", "capture not supported on Windows yet"));
}

fn session_wire(pixel_format: &str) -> SessionInfoWire {
    SessionInfoWire {
        session_id: "session-1".to_string(),
        source_id: 3,
        track_id: 4,
        width: 640,
        height: 480,
        stride: 2560,
        pixel_format: pixel_format.to_string(),
        fd_socket_path: "/tmp/porthole-fd.sock".to_string(),
    }
}

#[test]
fn session_descriptions_read_their_pixel_format() {
    let info = session_info_from_wire(session_wire("rgba8_unorm")).unwrap();
    assert_eq!(info.session_id, "session-1");
    assert_eq!((info.source_id, info.track_id), (3, 4));
    assert_eq!((info.width, info.height, info.stride), (640, 480, 2560));
    assert_eq!(info.pixel_format, PixelFormat::Rgba8Unorm);
    assert_eq!(info.fd_socket_path, "/tmp/porthole-fd.sock");
    assert!(info.bearer_token.is_none());
    assert_eq!(
        session_info_from_wire(session_wire("unknown")).err(),
        Some(transport("parse-pixel-format", "unknown"))
    );
}

fn frame_wire(pool_id: u64, payload_offset: u64, payload_len: u64, payload_map_len: u64) -> LatestFrameWire {
    LatestFrameWire {
        track_id: 2,
        sequence: 11,
        lease_id: 99,
        producer_cursor: 1,
        timestamp_ns: 1_000,
        width: 2,
        height: 2,
        stride: 8,
        pixel_format: "bgra8_unorm".to_string(),
        pool_id,
        slot_id: 0,
        slot_generation: 5,
        payload_offset,
        payload_len,
        payload_map_len,
        clock_domain: "host_time".to_string(),
        color_space: "srgb".to_string(),
        sync_kind: "cpu_copy_complete".to_string(),
        damage_kind: "full_frame".to_string(),
        damage_base_sequence: 10,
        dropped_before_publish: 1,
        producer_drop_count: 2,
        evicted_count: 3,
        consumer_skipped_count: 4,
        len: payload_len,
    }
}

#[test]
fn frame_metadata_reads_names_and_bounds_the_payload() {
    let mapping = parse_frame_metadata(&frame_wire(0, 16, 16, 64)).unwrap();
    assert_eq!(mapping.lease_id, 99);
    assert_eq!(mapping.producer_cursor, 1);
    assert_eq!((mapping.payload_offset, mapping.payload_len, mapping.payload_map_len), (16, 16, 64));
    assert_eq!(mapping.desc.pixel_format, PixelFormat::Bgra8Unorm);
    assert_eq!(mapping.desc.clock_domain, ClockDomain::HostTime);
    assert_eq!(mapping.desc.color_space, ColorSpace::Srgb);
    assert_eq!(mapping.desc.sync_kind, FrameSyncKind::CpuCopyComplete);
    assert_eq!(mapping.desc.damage_kind, DamageKind::FullFrame);
    assert_eq!(mapping.desc.sequence, 11);
    assert_eq!(mapping.desc.slot_generation, 5);
    assert_eq!(mapping.desc.consumer_skipped_count, 4);

    assert_eq!(parse_frame_metadata(&frame_wire(0, 48, 16, 64)).unwrap().payload_offset, 48);
    assert_eq!(
        parse_frame_metadata(&frame_wire(0, 49, 16, 64)).unwrap_err(),
        transport("mmap-frame", "payload range exceeds mapped length")
    );
    assert_eq!(
        parse_frame_metadata(&frame_wire(0, 65, 1, 64)).unwrap_err(),
        transport("mmap-frame", "payload range exceeds mapped length")
    );
    assert_eq!(
        parse_frame_metadata(&frame_wire(0, 0, 0, 64)).unwrap_err(),
        transport("mmap-frame", "frame length is zero")
    );
    let mut mismatched_len = frame_wire(0, 0, 16, 64);
    mismatched_len.len = 15;
    assert_eq!(parse_frame_metadata(&mismatched_len).unwrap_err(), transport("mmap-frame", "frame length is zero"));
    let mut bad_name = frame_wire(0, 0, 16, 64);
    bad_name.damage_kind = "partial".to_string();
    bad_name.payload_len = 0;
    assert_eq!(parse_frame_metadata(&bad_name).unwrap_err(), transport("parse-damage-kind", "partial"));
}

#[test]
fn daemon_messages_map_to_consumer_steps() {
    let page = CaptureTransferMessage::RegisterVideoControlPage {
        session_id: "session-1".to_string(),
        track_id: 2,
        map_len: 4096,
        consumer_id: 1,
        consumer_slot: 0,
    };
    assert_eq!(classify_message(page).unwrap(), DaemonStep::MapControlPage { track_id: 2, map_len: 4096 });
    let pool = CaptureTransferMessage::RegisterCpuPool {
        session_id: "session-1".to_string(),
        track_id: 2,
        pool_id: 7,
        pool_generation: 5,
        payload_map_len: 256,
        slot_stride: 64,
        slot_count: 4,
    };
    assert_eq!(
        classify_message(pool).unwrap(),
        DaemonStep::RegisterCpuPool {
            key: PoolKey { track_id: 2, pool_id: 7, pool_generation: 5 },
            payload_map_len: 256
        }
    );
    let wire = frame_wire(7, 0, 16, 64);
    let frame = CaptureTransferMessage::VideoFrame {
        session_id: "session-1".to_string(),
        track_id: wire.track_id,
        lease_id: wire.lease_id,
        producer_cursor: wire.producer_cursor,
        sequence: wire.sequence,
        timestamp_ns: wire.timestamp_ns,
        width: wire.width,
        height: wire.height,
        stride: wire.stride,
        pixel_format: wire.pixel_format.clone(),
        pool_id: wire.pool_id,
        slot_id: wire.slot_id,
        slot_generation: wire.slot_generation,
        payload_offset: wire.payload_offset,
        payload_len: wire.payload_len,
        payload_map_len: wire.payload_map_len,
        clock_domain: wire.clock_domain.clone(),
        color_space: wire.color_space.clone(),
        sync_kind: wire.sync_kind.clone(),
        damage_kind: wire.damage_kind.clone(),
        damage_base_sequence: wire.damage_base_sequence,
        dropped_before_publish: wire.dropped_before_publish,
        producer_drop_count: wire.producer_drop_count,
        evicted_count: wire.evicted_count,
        consumer_skipped_count: wire.consumer_skipped_count,
        len: wire.len,
    };
    assert_eq!(classify_message(frame).unwrap(), DaemonStep::Frame(wire));
}

#[test]
fn cpu_pools_need_a_nonzero_map_length() {
    assert_eq!(cpu_pool_map_len(256).unwrap(), 256);
    assert_eq!(cpu_pool_map_len(0).unwrap_err(), transport("mmap-pool", "pool map length is zero"));
}

#[test]
fn pooled_frames_resolve_only_against_a_matching_registration() {
    assert_eq!(frame_pool_key(&frame_wire(0, 0, 16, 64)), None);
    let wire = frame_wire(7, 0, 16, 64);
    let key = frame_pool_key(&wire).unwrap();
    assert_eq!(key, PoolKey { track_id: 2, pool_id: 7, pool_generation: 5 });
    assert_eq!(resolve_pool_frame(&wire, key, Some(64)).unwrap().payload_len, 16);
    assert_eq!(
        resolve_pool_frame(&wire, key, None).unwrap_err(),
        transport("resolve-frame-pool", "frame references unregistered pool track=2 pool=7 generation=5")
    );
    assert_eq!(
        resolve_pool_frame(&wire, key, Some(128)).unwrap_err(),
        transport("resolve-frame-pool", "frame map length does not match registered pool")
    );
}

fn pending(sequence: u64) -> PendingVideoRingEntry {
    PendingVideoRingEntry {
        sequence,
        timestamp_ns: 0,
        width: 2,
        height: 2,
        stride: 8,
        pixel_format: 1,
        pool_id: 7,
        slot_id: 0,
        payload_offset: 0,
        payload_len: 16,
        clock_domain: 3,
        color_space: 1,
        sync_kind: 1,
        damage_kind: 1,
        damage_base_sequence: 0,
        dropped_before_publish: 0,
        producer_drop_count: 0,
        payload_kind: 1,
        modifier: 0,
        fence_id: 0,
        fence_value: 0,
        flags: 0,
    }
}

#[test]
fn control_page_shadow_must_agree_with_socket_metadata() {
    let mut page = VideoTrackControlPage::new(4);
    assert_eq!(page.push(pending(11)), 1);
    let wire = frame_wire(7, 0, 16, 64);
    assert_eq!(compare_control_page_shadow(&page, &wire), Ok(()));

    let mut other_sequence = frame_wire(7, 0, 16, 64);
    other_sequence.sequence = 12;
    assert_eq!(
        compare_control_page_shadow(&page, &other_sequence),
        Err(transport("control-page-shadow", "control page entry does not match frame metadata for track=2 cursor=1"))
    );

    let mut future = frame_wire(7, 0, 16, 64);
    future.producer_cursor = 2;
    assert!(matches!(
        compare_control_page_shadow(&page, &future),
        Err(CaptureTransferError::SharedMemory { operation: "read-control-page", .. })
    ));
}
