use capture_transfer::control_page::{VideoRingReadError, VideoTrackControlPage};
use capture_transfer::error::CaptureTransferError;
use capture_transfer::model::{ClockDomain, ColorSpace, FrameSyncKind, PayloadKind, PixelFormat};
use capture_transfer::native::fake::{FakeCapturedFrame, FakeNativeBackend, FakeSurfaceRegistry};
use capture_transfer::native::{
    NativeFrameBackend, NativeStreamParams, NativeTrackProducer, PoolExhaustionPolicy, PublishOutcome,
};

fn params() -> NativeStreamParams {
    NativeStreamParams {
        width: 640,
        height: 480,
        pixel_format: PixelFormat::Bgra8Unorm,
        color_space: ColorSpace::Srgb,
        clock_domain: ClockDomain::HostTime,
        modifier: 0,
    }
}

fn producer(
    ring_capacity: usize,
    pool_slot_count: u32,
    policy: PoolExhaustionPolicy,
) -> NativeTrackProducer<FakeNativeBackend> {
    match NativeTrackProducer::new(
        FakeNativeBackend::new(FakeSurfaceRegistry::default()),
        params(),
        ring_capacity,
        pool_slot_count,
        policy,
    ) {
        Ok(producer) => producer,
        Err(error) => panic!("producer not created: {error:?}"),
    }
}

fn frame(bytes: &[u8]) -> FakeCapturedFrame {
    FakeCapturedFrame { bytes: bytes.to_vec() }
}

fn publish_cursor(producer: &mut NativeTrackProducer<FakeNativeBackend>, bytes: &[u8], timestamp_ns: u64) -> u64 {
    producer.publish(&frame(bytes), timestamp_ns).unwrap().cursor().expect("publish expected to succeed")
}

/// The consumer half: map the ring read-only from its image, the way a
/// remote process maps it after a setup-channel introduction.
fn map_consumer_page(producer: &NativeTrackProducer<FakeNativeBackend>) -> VideoTrackControlPage {
    VideoTrackControlPage::map_read_only(&producer.control_page_image(), producer.control_page_len()).unwrap()
}

fn registry(producer: &NativeTrackProducer<FakeNativeBackend>) -> &FakeSurfaceRegistry {
    producer.backend().registry()
}

#[test]
fn pool_must_exceed_rounded_ring_capacity() {
    let result = NativeTrackProducer::new(
        FakeNativeBackend::new(FakeSurfaceRegistry::default()),
        params(),
        3,
        4,
        PoolExhaustionPolicy::default(),
    );
    let error = match result {
        Err(error) => error,
        Ok(_) => panic!("a pool no larger than the rounded ring was accepted"),
    };
    assert!(matches!(error, CaptureTransferError::NativeBackend { .. }));
    assert!(error.to_message().contains("must exceed the rounded ring capacity"));
}

#[test]
fn producer_can_start_from_preallocated_native_parts() {
    let mut backend = FakeNativeBackend::new(FakeSurfaceRegistry::default());
    let params = params();
    let pool = backend.allocate_surface_pool(&params, 5).unwrap();
    let fence = backend.create_fence().unwrap();
    let mut producer = match NativeTrackProducer::from_allocated_parts(
        backend,
        params,
        4,
        5,
        pool,
        fence,
        PoolExhaustionPolicy::default(),
    ) {
        Ok(producer) => producer,
        Err(error) => panic!("producer not created: {error:?}"),
    };

    let cursor = publish_cursor(&mut producer, &[7, 8, 9], 1_000);
    let page = map_consumer_page(&producer);
    let entry = page.read_entry_for_cursor(cursor).unwrap();

    assert_eq!(entry.cursor, 1);
    assert_eq!(entry.slot_id, 0);
    assert_eq!(registry(&producer).surface_bytes(entry.pool_id, entry.slot_id).unwrap(), vec![7, 8, 9]);
    assert!(registry(&producer).fence_value(entry.fence_id).unwrap() >= entry.fence_value);
}

#[test]
fn fake_backend_native_frame_round_trips_producer_ring_consumer() {
    let mut producer = producer(4, 5, PoolExhaustionPolicy::default());

    let cursor = publish_cursor(&mut producer, &[9, 8, 7, 6], 1_000);

    let page = map_consumer_page(&producer);
    let entry = page.read_entry_for_cursor(cursor).unwrap();

    assert_eq!(entry.cursor, 1);
    assert_eq!(entry.sequence, 1);
    assert_eq!(entry.timestamp_ns, 1_000);
    assert_eq!(entry.payload_kind, PayloadKind::IoSurface as u32);
    assert_eq!(entry.sync_kind, FrameSyncKind::NativeTimeline as u32);
    assert_eq!(entry.payload_offset, 0);
    assert_eq!(entry.payload_len, 0);
    assert_eq!(entry.config_generation, 1);
    assert_eq!((entry.width, entry.height), (640, 480));
    assert_eq!(entry.pixel_format, PixelFormat::Bgra8Unorm as u32);
    assert_eq!(entry.color_space, ColorSpace::Srgb as u32);

    let handle = producer.export_sync_handle().unwrap();
    let fence_id = u64::from_le_bytes(handle.as_slice().try_into().unwrap());
    assert_eq!(fence_id, entry.fence_id);
    assert!(registry(&producer).fence_value(entry.fence_id).unwrap() >= entry.fence_value);

    let bytes = registry(&producer).surface_bytes(entry.pool_id, entry.slot_id).unwrap();
    assert_eq!(bytes, vec![9, 8, 7, 6]);
}

#[test]
fn producer_reconfigure_switches_pool_and_config_without_resetting_stream_counters() {
    let mut producer = producer(2, 3, PoolExhaustionPolicy::default());

    let first_cursor = publish_cursor(&mut producer, &[1], 1_000);
    let first = producer.control_page().read_entry_for_cursor(first_cursor).unwrap();
    producer.backend_mut().hold_surface(first.pool_id, first.slot_id);

    let mut reconfigured = params();
    reconfigured.width = 800;
    reconfigured.height = 600;
    producer.reconfigure(reconfigured, 3).unwrap();

    let second_cursor = publish_cursor(&mut producer, &[2], 2_000);
    let second = producer.control_page().read_entry_for_cursor(second_cursor).unwrap();

    assert_eq!(second.cursor, first.cursor + 1);
    assert_eq!(second.sequence, first.sequence + 1);
    assert_eq!(second.fence_id, first.fence_id);
    assert_eq!(second.fence_value, first.fence_value + 1);
    assert_ne!(second.pool_id, first.pool_id);
    assert_eq!(second.slot_id, 0);
    assert_eq!(second.config_generation, first.config_generation + 1);
    assert_eq!((second.width, second.height), (800, 600));
    assert_eq!(registry(&producer).surface_bytes(first.pool_id, first.slot_id).unwrap(), vec![1]);
    assert_eq!(registry(&producer).surface_bytes(second.pool_id, second.slot_id).unwrap(), vec![2]);

    producer.backend_mut().release_surface(first.pool_id, first.slot_id);
}

#[test]
fn producer_reconfigure_rejects_pool_that_cannot_escape_the_live_ring() {
    let mut producer = producer(3, 5, PoolExhaustionPolicy::default());

    let error = producer.reconfigure(params(), 4).unwrap_err();

    assert!(matches!(error, CaptureTransferError::NativeBackend { .. }));
    assert!(error.to_message().contains("must exceed the rounded ring capacity"));
}

#[test]
fn native_frames_rotate_pool_slots_with_monotonic_fence_values() {
    let mut producer = producer(2, 3, PoolExhaustionPolicy::default());

    for (index, payload) in [vec![1], vec![2], vec![3], vec![4]].into_iter().enumerate() {
        let cursor = publish_cursor(&mut producer, &payload, index as u64);
        assert_eq!(cursor, index as u64 + 1);
    }

    let page = map_consumer_page(&producer);
    let third = page.read_entry_for_cursor(3).unwrap();
    let fourth = page.read_entry_for_cursor(4).unwrap();
    assert_eq!(third.slot_id, 2);
    assert_eq!(fourth.slot_id, 0);
    assert_eq!(third.fence_value, 3);
    assert_eq!(fourth.fence_value, 4);
    assert_eq!(third.config_generation, fourth.config_generation);
    assert_eq!(registry(&producer).surface_bytes(fourth.pool_id, fourth.slot_id).unwrap(), vec![4]);
}

#[test]
fn held_surface_is_never_restaged_until_released() {
    let mut producer = producer(2, 4, PoolExhaustionPolicy::default());

    let first = publish_cursor(&mut producer, &[1], 1);
    let page = map_consumer_page(&producer);
    let entry = page.read_entry_for_cursor(first).unwrap();
    assert_eq!(entry.slot_id, 0);
    producer.backend_mut().hold_surface(entry.pool_id, entry.slot_id);

    for sequence in 2..=8 {
        let cursor = publish_cursor(&mut producer, &[sequence as u8], sequence);
        let published = producer.control_page().read_entry_for_cursor(cursor).unwrap();
        assert_ne!(published.slot_id, 0, "held surface restaged at cursor {cursor}");
    }
    assert_eq!(registry(&producer).surface_bytes(entry.pool_id, 0).unwrap(), vec![1]);

    producer.backend_mut().release_surface(entry.pool_id, entry.slot_id);
    let mut reused = false;
    for sequence in 9..=12 {
        let cursor = publish_cursor(&mut producer, &[sequence as u8], sequence);
        let published = producer.control_page().read_entry_for_cursor(cursor).unwrap();
        reused |= published.slot_id == 0;
    }
    assert!(reused, "released surface never rejoined the rotation");
}

#[test]
fn exhausted_pool_drops_frames_and_accounts_the_gap() {
    let mut producer = producer(2, 3, PoolExhaustionPolicy::DropFrame);

    let pool_id = {
        let cursor = publish_cursor(&mut producer, &[1], 1);
        producer.control_page().read_entry_for_cursor(cursor).unwrap().pool_id
    };
    for slot_id in 0..3 {
        producer.backend_mut().hold_surface(pool_id, slot_id);
    }

    assert_eq!(producer.publish(&frame(&[2]), 2).unwrap(), PublishOutcome::Dropped);
    assert_eq!(producer.publish(&frame(&[3]), 3).unwrap(), PublishOutcome::Dropped);

    producer.backend_mut().release_surface(pool_id, 1);
    producer.backend_mut().release_surface(pool_id, 2);
    let cursor = producer.publish(&frame(&[4]), 4).unwrap().cursor().unwrap();
    let entry = producer.control_page().read_entry_for_cursor(cursor).unwrap();
    assert_eq!(cursor, 2);
    assert_eq!(entry.sequence, 4);
    assert_eq!(entry.dropped_before_publish, 2);
    assert_eq!(entry.producer_drop_count, 2);

    let cursor = publish_cursor(&mut producer, &[5], 5);
    let entry = producer.control_page().read_entry_for_cursor(cursor).unwrap();
    assert_eq!(entry.dropped_before_publish, 0);
    assert_eq!(entry.producer_drop_count, 2);
}

#[test]
fn exhausted_pool_fails_without_consuming_the_frame_under_fail_policy() {
    let mut producer = producer(2, 3, PoolExhaustionPolicy::Fail);

    let pool_id = {
        let cursor = publish_cursor(&mut producer, &[1], 1);
        producer.control_page().read_entry_for_cursor(cursor).unwrap().pool_id
    };
    for slot_id in 0..3 {
        producer.backend_mut().hold_surface(pool_id, slot_id);
    }

    let error = producer.publish(&frame(&[2]), 2).unwrap_err();
    assert_eq!(error, CaptureTransferError::SurfacePoolExhausted { slot_count: 3 });

    producer.backend_mut().release_surface(pool_id, 1);
    let cursor = producer.publish(&frame(&[2]), 2).unwrap().cursor().unwrap();
    let entry = producer.control_page().read_entry_for_cursor(cursor).unwrap();
    assert_eq!(entry.sequence, 2);
    assert_eq!(entry.dropped_before_publish, 0);
    assert_eq!(entry.producer_drop_count, 0);
}

#[test]
fn lapped_native_consumer_detects_lap_and_resyncs_to_latest() {
    let mut producer = producer(2, 3, PoolExhaustionPolicy::default());

    let first_cursor = publish_cursor(&mut producer, &[1], 1);
    publish_cursor(&mut producer, &[2], 2);
    publish_cursor(&mut producer, &[3], 3);

    let page = map_consumer_page(&producer);
    assert_eq!(
        page.read_entry_for_cursor(first_cursor),
        Err(VideoRingReadError::Lapped { requested_cursor: 1, oldest_live_cursor: 2, latest_cursor: 3 })
    );

    let latest = page.read_latest_lossy_entry().unwrap().unwrap();
    assert_eq!(latest.cursor, 3);
    assert!(registry(&producer).fence_value(latest.fence_id).unwrap() >= latest.fence_value);
    assert_eq!(registry(&producer).surface_bytes(latest.pool_id, latest.slot_id).unwrap(), vec![3]);
}

#[test]
fn native_consumer_double_read_rejects_torn_slot() {
    let mut producer = producer(2, 3, PoolExhaustionPolicy::default());
    let cursor = publish_cursor(&mut producer, &[1], 1);

    // A producer mid-rewrite of the slot, as the consumer's mapping sees it.
    let mut page = map_consumer_page(&producer);
    page.set_slot_publication_sequence(0, 0);

    assert_eq!(
        page.read_entry_for_cursor(cursor),
        Err(VideoRingReadError::SlotSequenceMismatch { requested_cursor: 1, first_sequence: 0, second_sequence: 0 })
    );
}

#[test]
fn fence_timeline_must_advance() {
    let mut backend = FakeNativeBackend::new(FakeSurfaceRegistry::default());
    let mut fence = backend.create_fence().unwrap();
    backend.signal_fence(&mut fence, 3).unwrap();
    let error = backend.signal_fence(&mut fence, 3).unwrap_err();
    assert_eq!(error.to_message(), "native frame backend signal-fence failed: timeline values must be monotonic: 3 -> 3");
    assert_eq!(backend.registry().fence_value(backend.fence_id(&fence)), Some(3));
}

#[test]
fn fake_surface_handles_name_pool_and_slot() {
    let mut backend = FakeNativeBackend::new(FakeSurfaceRegistry::default());
    let pool = backend.allocate_surface_pool(&params(), 2).unwrap();
    let handles = backend.export_surface_handles(&pool).unwrap();
    assert_eq!(handles.len(), 2);
    let pool_id = backend.pool_id(&pool);
    assert_eq!(pool_id, 1);
    let mut expected = pool_id.to_le_bytes().to_vec();
    expected.extend_from_slice(&1u32.to_le_bytes());
    assert_eq!(handles[1], expected);
    assert!(backend.allocate_surface_pool(&params(), 0).unwrap_err().to_message().contains("slot count must be non-zero"));
    assert_eq!(PublishOutcome::Dropped.cursor(), None);
    assert_eq!(PublishOutcome::Published { cursor: 5 }.cursor(), Some(5));
}

#[test]
fn grant_attach_refuses_consumer_id_zero() {
    let mut producer = producer(2, 3, PoolExhaustionPolicy::DropFrame);
    let error = match producer.grant_attach(0) {
        Ok(_) => panic!("a zero consumer id was granted"),
        Err(error) => error,
    };
    assert!(error.to_message().contains("consumer id must be non-zero"));
}

#[test]
fn fake_backend_numbers_fences_and_exports_their_ids() {
    let mut backend = FakeNativeBackend::new(FakeSurfaceRegistry::default());
    let first = backend.create_fence().unwrap();
    let second = backend.create_fence().unwrap();
    assert_eq!(backend.fence_id(&first), 1);
    assert_eq!(backend.fence_id(&second), 2);
    assert_eq!(backend.export_sync_handle(&second).unwrap(), 2u64.to_le_bytes().to_vec());
    assert_eq!(backend.registry().fence_value(2), Some(0));
    assert_eq!(backend.registry().fence_value(3), None);
}
