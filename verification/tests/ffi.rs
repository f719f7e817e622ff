use capture_transfer::control_page::{VideoRingEntry, VideoRingReadError};
use capture_transfer::daemon::SessionInfo;
use capture_transfer::ffi::{
    clock_domain_from_ffi, clock_domain_to_ffi, color_space_from_ffi, damage_kind_from_ffi, damage_kind_to_ffi,
    event_kind_to_ffi, event_to_ffi, ft_abi_version, pixel_format_from_ffi, pixel_format_to_ffi,
    session_events, source_kind_from_ffi, sync_kind_from_ffi, sync_kind_to_ffi, track_desc_from_ffi, FtEvent,
    FtProducer, FtTrackDesc, FtVideoTrackDesc, FT_SOURCE_KIND_WINDOW, FT_STATUS_ERROR, FT_STATUS_INVALID_ARGUMENT, FT_ABI_VERSION, FT_ABI_VERSION_MAJOR, FT_ABI_VERSION_MINOR, FT_DAMAGE_NONE,
    FT_EVENT_SOURCE_REGISTERED, FT_EVENT_TRACK_REGISTERED, FT_PIXEL_FORMAT_RGBA8_UNORM, FT_STATUS_CLOSED,
    FT_STATUS_EMPTY, FT_STATUS_INVALID_STATE, FT_STATUS_OK, FT_STATUS_TIMEOUT, FT_STATUS_UNSUPPORTED,
    FT_TRACK_TYPE_VIDEO,
};
use capture_transfer::ffi_native::{
    attach_descriptor_status, choose_latest, initial_event_pool, latest_config_generation,
    latest_entry_pool_and_generation, lease_locally, local_release_status, nothing_newer_status, release_from_ffi,
    release_sync_status, valid_struct_size, wait_look, wait_next, wait_status, AcquireChoice, FtNativeEvent,
    WaitLook, WaitNext, FT_NATIVE_ATTACH_DESCRIPTOR_SIZE, FT_NATIVE_SYNC_DRM_SYNCOBJ_TIMELINE,
    FT_NATIVE_SYNC_MTL_SHARED_EVENT, FT_NATIVE_SYNC_NONE, FT_NATIVE_SYNC_SIZE,
    FtNativeRelease, NativeEventQueue, PollStep, FT_NATIVE_EVENT_POOL_ADDED, FT_NATIVE_EVENT_POOL_REMOVED,
    FT_NATIVE_EVENT_PRODUCER_STOPPED, FT_NATIVE_EVENT_SIZE, FT_NATIVE_EVENT_STREAM_CONFIG_CHANGED,
    FT_NATIVE_FRAME_SIZE, FT_NATIVE_RELEASE_NOW, FT_NATIVE_RELEASE_SIZE, FT_NATIVE_RELEASE_TIMELINE_VALUE,
};
use capture_transfer::model::{
    ClockDomain, ColorSpace, DamageKind, FrameSyncKind, PixelFormat, SourceDesc, SourceId, SourceKind, TrackDesc,
    TrackId, VideoTrackDesc,
};
use capture_transfer::control_page::{PendingVideoRingEntry, VideoTrackControlPage};
use capture_transfer::native::lease::{NativeLeaseBook, NativeLeaseError, NativeLeaseIdentity, NativeLeaseRelease};
use capture_transfer::state::{Event, EventKind};

#[test]
fn header_and_library_agree_on_the_abi_version() {
    assert_eq!(FT_ABI_VERSION_MAJOR, 1);
    assert_eq!(FT_ABI_VERSION_MINOR, 0);
    assert_eq!(ft_abi_version(), FT_ABI_VERSION);
    assert_eq!(FT_ABI_VERSION, 0x0001_0000);
}

#[test]
fn ffi_codes_round_trip_and_reject_unknown_numbers() {
    for format in [PixelFormat::Unknown, PixelFormat::Bgra8Unorm, PixelFormat::Rgba8Unorm] {
        assert_eq!(pixel_format_from_ffi(pixel_format_to_ffi(format)), Some(format));
    }
    for domain in [ClockDomain::Unknown, ClockDomain::UnixTime, ClockDomain::MediaTime, ClockDomain::HostTime] {
        assert_eq!(clock_domain_from_ffi(clock_domain_to_ffi(domain)), Some(domain));
    }
    for kind in [
        FrameSyncKind::Unknown,
        FrameSyncKind::CpuCopyComplete,
        FrameSyncKind::SckSampleReady,
        FrameSyncKind::NativeTimeline,
    ] {
        assert_eq!(sync_kind_from_ffi(sync_kind_to_ffi(kind)), Some(kind));
    }
    assert_eq!(damage_kind_to_ffi(DamageKind::Unchanged), FT_DAMAGE_NONE);
    assert_eq!(damage_kind_from_ffi(FT_DAMAGE_NONE), Some(DamageKind::Unchanged));
    assert_eq!(pixel_format_to_ffi(PixelFormat::Rgba8Unorm), FT_PIXEL_FORMAT_RGBA8_UNORM);
    assert_eq!(color_space_from_ffi(1), Some(ColorSpace::Srgb));
    assert_eq!(pixel_format_from_ffi(3), None);
    assert_eq!(clock_domain_from_ffi(4), None);
    assert_eq!(color_space_from_ffi(2), None);
    assert_eq!(sync_kind_from_ffi(4), None);
    assert_eq!(damage_kind_from_ffi(5), None);
    assert_eq!(source_kind_from_ffi(2), Some(SourceKind::Display));
    assert_eq!(source_kind_from_ffi(0), None);
}

#[test]
fn track_descriptors_need_a_video_type_and_a_known_format() {
    let video = FtVideoTrackDesc { width: 1280, height: 720, pixel_format: 1 };
    assert_eq!(
        track_desc_from_ffi(&FtTrackDesc { track_type: FT_TRACK_TYPE_VIDEO, video }),
        Some(TrackDesc::Video(VideoTrackDesc { width: 1280, height: 720, pixel_format: PixelFormat::Bgra8Unorm }))
    );
    assert_eq!(track_desc_from_ffi(&FtTrackDesc { track_type: 2, video }), None);
    let bad_format = FtVideoTrackDesc { width: 1, height: 1, pixel_format: 9 };
    assert_eq!(track_desc_from_ffi(&FtTrackDesc { track_type: FT_TRACK_TYPE_VIDEO, video: bad_format }), None);
}

#[test]
fn events_carry_their_ids_and_video_geometry() {
    let source = Event::source_registered(
        SourceId::new(3),
        SourceDesc { kind: SourceKind::Window, label: "Terminal".to_string() },
    );
    assert_eq!(event_kind_to_ffi(EventKind::SourceRegistered), FT_EVENT_SOURCE_REGISTERED);
    assert_eq!(
        event_to_ffi(&source),
        FtEvent { kind: FT_EVENT_SOURCE_REGISTERED, source_id: 3, ..FtEvent::default() }
    );
    let track = Event::track_registered(
        TrackId::new(7),
        SourceId::new(3),
        TrackDesc::Video(VideoTrackDesc { width: 640, height: 480, pixel_format: PixelFormat::Rgba8Unorm }),
    );
    assert_eq!(
        event_to_ffi(&track),
        FtEvent {
            kind: FT_EVENT_TRACK_REGISTERED,
            source_id: 3,
            track_id: 7,
            track_type: FT_TRACK_TYPE_VIDEO,
            width: 640,
            height: 480,
            pixel_format: FT_PIXEL_FORMAT_RGBA8_UNORM,
        }
    );
}

#[test]
fn struct_sizes_must_cover_the_record() {
    assert!(valid_struct_size(FT_NATIVE_FRAME_SIZE, FT_NATIVE_FRAME_SIZE));
    assert!(valid_struct_size(FT_NATIVE_FRAME_SIZE + 8, FT_NATIVE_FRAME_SIZE));
    assert!(!valid_struct_size(FT_NATIVE_FRAME_SIZE - 1, FT_NATIVE_FRAME_SIZE));
    assert!(!valid_struct_size(0, FT_NATIVE_EVENT_SIZE));
}

#[test]
fn release_records_name_a_release_kind() {
    let now = FtNativeRelease {
        struct_size: FT_NATIVE_RELEASE_SIZE,
        release_kind: FT_NATIVE_RELEASE_NOW,
        lease_id: 4,
        release_sync_id: 9,
        release_value: 10,
    };
    assert_eq!(release_from_ffi(&now), Some(NativeLeaseRelease::Now));
    let timeline = FtNativeRelease { release_kind: FT_NATIVE_RELEASE_TIMELINE_VALUE, ..now };
    assert_eq!(
        release_from_ffi(&timeline),
        Some(NativeLeaseRelease::TimelineValue { release_sync_id: 9, value: 10 })
    );
    let unknown = FtNativeRelease { release_kind: 7, ..now };
    assert_eq!(release_from_ffi(&unknown), None);
}

fn ring_entry(cursor: u64) -> VideoRingEntry {
    VideoRingEntry {
        cursor,
        sequence: cursor + 100,
        timestamp_ns: 5_000,
        config_generation: 1,
        width: 640,
        height: 480,
        stride: 2560,
        pixel_format: 1,
        pool_id: 2,
        slot_id: 3,
        payload_offset: 0,
        payload_len: 0,
        clock_domain: 3,
        color_space: 1,
        sync_kind: 3,
        damage_kind: 1,
        damage_base_sequence: 0,
        dropped_before_publish: 0,
        producer_drop_count: 0,
        payload_kind: 2,
        modifier: 0,
        fence_id: 11,
        fence_value: 12,
        flags: 1,
    }
}

#[test]
fn acquire_hands_out_only_entries_newer_than_the_cursor() {
    match choose_latest(Ok(Some(ring_entry(4))), 0) {
        AcquireChoice::Lease { identity, frame } => {
            assert_eq!(identity, NativeLeaseIdentity { cursor: 4, sequence: 104, pool_id: 2, slot_id: 3 });
            assert_eq!(frame.struct_size, FT_NATIVE_FRAME_SIZE);
            assert_eq!(frame.cursor, 4);
            assert_eq!(frame.sequence, 104);
            assert_eq!(frame.lease_id, 0);
            assert_eq!(frame.width, 640);
            assert_eq!(frame.producer_sync_id, 11);
            assert_eq!(frame.producer_sync_value, 12);
            assert_eq!(frame.flags, 1);
        },
        other => panic!("expected a lease, got {other:?}"),
    }
    assert_eq!(choose_latest(Ok(Some(ring_entry(4))), 4), AcquireChoice::NothingNewer);
    assert_eq!(choose_latest(Ok(None), 0), AcquireChoice::NothingNewer);
    assert_eq!(choose_latest(Err(VideoRingReadError::Empty), 0), AcquireChoice::Failed);
    assert_eq!(nothing_newer_status(false), FT_STATUS_EMPTY);
    assert_eq!(nothing_newer_status(true), FT_STATUS_CLOSED);
}

fn event(kind: u32, pool_id: u64, generation: u64) -> FtNativeEvent {
    FtNativeEvent { struct_size: FT_NATIVE_EVENT_SIZE, kind, pool_id, config_generation: generation }
}

#[test]
fn poll_reports_a_known_pool_switch_then_the_removed_pool() {
    let mut queue = NativeEventQueue::new(1, 10);
    assert_eq!(queue.poll(false, Some((10, 1)), true), PollStep::Empty);
    assert_eq!(
        queue.poll(false, Some((20, 2)), true),
        PollStep::Deliver(event(FT_NATIVE_EVENT_STREAM_CONFIG_CHANGED, 20, 2))
    );
    assert_eq!(queue.poll(false, Some((20, 2)), true), PollStep::Deliver(event(FT_NATIVE_EVENT_POOL_REMOVED, 10, 2)));
    assert_eq!(queue.poll(false, Some((20, 2)), true), PollStep::Empty);
}

#[test]
fn poll_asks_for_an_unknown_pool_and_announces_it_once_imported() {
    let mut queue = NativeEventQueue::new(1, 10);
    assert_eq!(queue.poll(false, Some((30, 3)), false), PollStep::ImportPool { pool_id: 30, generation: 3 });
    assert_eq!(queue.pool_imported(30, 3), event(FT_NATIVE_EVENT_POOL_ADDED, 30, 3));
    assert_eq!(
        queue.poll(false, Some((30, 3)), true),
        PollStep::Deliver(event(FT_NATIVE_EVENT_STREAM_CONFIG_CHANGED, 30, 3))
    );
    assert_eq!(queue.poll(false, Some((30, 3)), true), PollStep::Deliver(event(FT_NATIVE_EVENT_POOL_REMOVED, 10, 3)));
    assert_eq!(queue.poll(false, Some((30, 3)), true), PollStep::Empty);
}

#[test]
fn producer_stop_is_reported_once() {
    let mut queue = NativeEventQueue::new(5, 10);
    assert_eq!(queue.poll(true, None, true), PollStep::Deliver(event(FT_NATIVE_EVENT_PRODUCER_STOPPED, 0, 5)));
    assert_eq!(queue.poll(true, None, true), PollStep::Empty);
    assert_eq!(queue.poll(true, Some((10, 4)), true), PollStep::Empty);
}

#[test]
fn producer_registers_through_c_descriptors_and_replays_events() {
    let mut producer = FtProducer::new();
    assert_eq!(producer.register_source(99, "Terminal".to_string()), Err(FT_STATUS_INVALID_ARGUMENT));
    let source = producer.register_source(FT_SOURCE_KIND_WINDOW, "Terminal".to_string()).unwrap();
    assert_eq!(source, 1);
    let video = FtVideoTrackDesc { width: 640, height: 480, pixel_format: 1 };
    let desc = FtTrackDesc { track_type: FT_TRACK_TYPE_VIDEO, video };
    assert_eq!(producer.register_track(404, &desc), Err(FT_STATUS_ERROR));
    assert_eq!(producer.register_track(source, &FtTrackDesc { track_type: 9, video }), Err(FT_STATUS_INVALID_ARGUMENT));
    assert_eq!(producer.register_track(source, &desc), Ok(1));
    assert_eq!(producer.state().replay_events().len(), 2);

    assert_eq!(
        producer.event_at(0),
        Some(FtEvent { kind: FT_EVENT_SOURCE_REGISTERED, source_id: 1, ..FtEvent::default() })
    );
    assert_eq!(
        producer.event_at(1),
        Some(FtEvent {
            kind: FT_EVENT_TRACK_REGISTERED,
            source_id: 1,
            track_id: 1,
            track_type: FT_TRACK_TYPE_VIDEO,
            width: 640,
            height: 480,
            pixel_format: 1,
        })
    );
    assert_eq!(producer.event_at(2), None);
}

#[test]
fn consumer_ids_start_at_one_and_count_up() {
    let mut producer = FtProducer::new();
    assert_eq!(producer.connect_consumer(), 1);
    assert_eq!(producer.connect_consumer(), 2);
    assert_eq!(producer.connect_consumer(), 3);
}

#[test]
fn daemon_sessions_replay_their_source_then_their_track() {
    let info = SessionInfo {
        session_id: "session-1".to_string(),
        source_id: 3,
        track_id: 4,
        width: 1280,
        height: 720,
        stride: 5120,
        pixel_format: PixelFormat::Bgra8Unorm,
        fd_socket_path: "/tmp/porthole-fd.sock".to_string(),
        bearer_token: None,
    };
    assert_eq!(
        session_events(&info),
        vec![
            FtEvent { kind: FT_EVENT_SOURCE_REGISTERED, source_id: 3, ..FtEvent::default() },
            FtEvent {
                kind: FT_EVENT_TRACK_REGISTERED,
                source_id: 3,
                track_id: 4,
                track_type: FT_TRACK_TYPE_VIDEO,
                width: 1280,
                height: 720,
                pixel_format: 1,
            },
        ]
    );
}

#[test]
fn attach_descriptors_need_size_and_endpoint_and_no_flags() {
    assert_eq!(attach_descriptor_status(FT_NATIVE_ATTACH_DESCRIPTOR_SIZE, true, 0), None);
    assert_eq!(attach_descriptor_status(FT_NATIVE_ATTACH_DESCRIPTOR_SIZE - 1, true, 0), Some(FT_STATUS_INVALID_ARGUMENT));
    assert_eq!(attach_descriptor_status(FT_NATIVE_ATTACH_DESCRIPTOR_SIZE, false, 0), Some(FT_STATUS_INVALID_ARGUMENT));
    assert_eq!(attach_descriptor_status(FT_NATIVE_ATTACH_DESCRIPTOR_SIZE, true, 1), Some(FT_STATUS_UNSUPPORTED));
}

#[test]
fn release_timelines_are_drm_syncobjs_on_the_unix_socket_transport() {
    let drm = FT_NATIVE_SYNC_DRM_SYNCOBJ_TIMELINE;
    assert_eq!(release_sync_status(FT_NATIVE_SYNC_SIZE, drm, true, 5), None);
    assert_eq!(release_sync_status(FT_NATIVE_SYNC_SIZE - 1, drm, true, 5), Some(FT_STATUS_INVALID_ARGUMENT));
    assert_eq!(release_sync_status(FT_NATIVE_SYNC_SIZE, FT_NATIVE_SYNC_NONE, true, 5), Some(FT_STATUS_UNSUPPORTED));
    assert_eq!(release_sync_status(FT_NATIVE_SYNC_SIZE, drm, false, 5), Some(FT_STATUS_UNSUPPORTED));
    assert_eq!(
        release_sync_status(FT_NATIVE_SYNC_SIZE, FT_NATIVE_SYNC_MTL_SHARED_EVENT, true, 5),
        Some(FT_STATUS_UNSUPPORTED)
    );
    assert_eq!(release_sync_status(FT_NATIVE_SYNC_SIZE, drm, true, -1), Some(FT_STATUS_INVALID_ARGUMENT));
}

#[test]
fn local_leases_number_frames_and_release_once() {
    let mut book = NativeLeaseBook::new();
    let frame = lease_locally(&mut book, choose_latest(Ok(Some(ring_entry(4))), 0)).unwrap();
    assert_eq!(frame.lease_id, 1);
    assert_eq!(frame.cursor, 4);
    assert_eq!(lease_locally(&mut book, AcquireChoice::NothingNewer), None);
    let second = lease_locally(&mut book, choose_latest(Ok(Some(ring_entry(5))), 4)).unwrap();
    assert_eq!(second.lease_id, 2);

    let released = book.release(frame.lease_id, NativeLeaseRelease::Now);
    assert_eq!(local_release_status(&released), FT_STATUS_OK);
    let again = book.release(frame.lease_id, NativeLeaseRelease::Now);
    assert_eq!(again, Err(NativeLeaseError::UnknownLease(1)));
    assert_eq!(local_release_status(&again), FT_STATUS_INVALID_STATE);
}

#[test]
fn waiting_looks_then_closes_times_out_or_sleeps() {
    assert_eq!(wait_look(Ok(Some(ring_entry(4))), 0), WaitLook::Ready { cursor: 4 });
    assert_eq!(wait_look(Ok(Some(ring_entry(4))), 4), WaitLook::Pending { cursor: 4 });
    assert_eq!(wait_look(Ok(None), 0), WaitLook::Pending { cursor: 0 });
    assert_eq!(wait_look(Err(VideoRingReadError::Empty), 0), WaitLook::Failed);

    assert_eq!(wait_next(true, Some(5)), WaitNext::Closed);
    assert_eq!(wait_next(false, Some(0)), WaitNext::TimedOut);
    assert_eq!(wait_next(false, Some(250)), WaitNext::Sleep { sleep_ns: 250 });
    assert_eq!(wait_next(false, Some(5_000_000)), WaitNext::Sleep { sleep_ns: 1_000_000 });
    assert_eq!(wait_next(false, None), WaitNext::Sleep { sleep_ns: 1_000_000 });

    assert_eq!(wait_status(WaitLook::Ready { cursor: 4 }, WaitNext::TimedOut), Some(FT_STATUS_OK));
    assert_eq!(wait_status(WaitLook::Pending { cursor: 0 }, WaitNext::TimedOut), Some(FT_STATUS_TIMEOUT));
    assert_eq!(wait_status(WaitLook::Pending { cursor: 0 }, WaitNext::Closed), Some(FT_STATUS_CLOSED));
    assert_eq!(wait_status(WaitLook::Pending { cursor: 0 }, WaitNext::Sleep { sleep_ns: 1 }), None);
}

fn pending_entry(sequence: u64, pool_id: u64, width: u32) -> PendingVideoRingEntry {
    PendingVideoRingEntry {
        sequence,
        timestamp_ns: 0,
        width,
        height: 480,
        stride: width * 4,
        pixel_format: 1,
        pool_id,
        slot_id: 0,
        payload_offset: 0,
        payload_len: 0,
        clock_domain: 3,
        color_space: 1,
        sync_kind: 3,
        damage_kind: 1,
        damage_base_sequence: 0,
        dropped_before_publish: 0,
        producer_drop_count: 0,
        payload_kind: 2,
        modifier: 0,
        fence_id: 0,
        fence_value: 0,
        flags: 0,
    }
}

#[test]
fn event_queues_start_from_the_pages_newest_configuration() {
    let mut page = VideoTrackControlPage::new(4);
    assert_eq!(latest_config_generation(&page), 0);
    assert_eq!(latest_entry_pool_and_generation(&page), None);
    assert_eq!(initial_event_pool(None, &page), 0);
    page.push(pending_entry(1, 10, 640));
    page.push(pending_entry(2, 20, 800));
    assert_eq!(latest_config_generation(&page), 2);
    assert_eq!(latest_entry_pool_and_generation(&page), Some((20, 2)));
    assert_eq!(initial_event_pool(None, &page), 20);
    assert_eq!(initial_event_pool(Some(10), &page), 10);
}

#[test]
fn c_string_fits_needs_room_for_the_terminator_and_no_nul() {
    assert!(capture_transfer::ffi::c_string_fits("ab", 3));
    assert!(!capture_transfer::ffi::c_string_fits("ab", 2));
    assert!(!capture_transfer::ffi::c_string_fits("a\0b", 8));
    assert!(!capture_transfer::ffi::c_string_fits("", 0));
    assert!(capture_transfer::ffi::c_string_fits("", 1));
}
