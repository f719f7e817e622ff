use capture_transfer::control_page::{
    FrameSlot, PendingVideoRingEntry, VideoRingReadError, VideoTrackControlLayout, VideoTrackControlPage,
    CONFIG_RING_CAPACITY, CONTROL_PAGE_ALIGNMENT, VIDEO_TRACK_CONTROL_MAGIC, VIDEO_TRACK_CONTROL_VERSION,
};
use capture_transfer::model::{ClockDomain, ColorSpace, DamageKind, FrameSyncKind, PayloadKind, PixelFormat};

fn pending(sequence: u64) -> PendingVideoRingEntry {
    PendingVideoRingEntry {
        sequence,
        timestamp_ns: 0,
        width: 0,
        height: 0,
        stride: 0,
        pixel_format: 0,
        pool_id: 7,
        slot_id: sequence as u32,
        payload_offset: sequence * 64,
        payload_len: 4,
        clock_domain: 0,
        color_space: 0,
        sync_kind: 0,
        damage_kind: 0,
        damage_base_sequence: 0,
        dropped_before_publish: 0,
        producer_drop_count: 0,
        payload_kind: 0,
        modifier: 0,
        fence_id: 0,
        fence_value: 0,
        flags: 0,
    }
}

fn full_pending(sequence: u64) -> PendingVideoRingEntry {
    PendingVideoRingEntry {
        sequence,
        timestamp_ns: 123_456_789,
        width: 1920,
        height: 1080,
        stride: 7680,
        pixel_format: PixelFormat::Rgba8Unorm as u32,
        pool_id: 7,
        slot_id: sequence as u32,
        payload_offset: sequence * 64,
        payload_len: 4,
        clock_domain: ClockDomain::MediaTime as u32,
        color_space: ColorSpace::Srgb as u32,
        sync_kind: FrameSyncKind::CpuCopyComplete as u32,
        damage_kind: DamageKind::InlineRects as u32,
        damage_base_sequence: sequence.saturating_sub(1),
        dropped_before_publish: 5,
        producer_drop_count: 8,
        payload_kind: PayloadKind::IoSurface as u32,
        modifier: 42,
        fence_id: 9,
        fence_value: 100,
        flags: 1,
    }
}

#[test]
fn control_page_layout_packs_cacheline_records() {
    let page = VideoTrackControlPage::new(3);

    let layout = page.layout();
    assert_eq!(layout.header_offset, 0);
    assert_eq!(layout.slots_offset, 256);
    assert_eq!(layout.slot_len, 128);
    assert_eq!(layout.slot_capacity, 4);
    assert_eq!(layout.config_len, 128);
    assert_eq!(layout.config_capacity, CONFIG_RING_CAPACITY);
    assert_eq!(layout.consumer_len, 128);
    assert_eq!(layout.consumer_capacity, 4);
    assert_eq!(layout.slots_offset % CONTROL_PAGE_ALIGNMENT, 0);
    assert_eq!(layout.configs_offset % CONTROL_PAGE_ALIGNMENT, 0);
    assert_eq!(layout.consumers_offset % CONTROL_PAGE_ALIGNMENT, 0);
    assert_eq!(layout.configs_offset, layout.slots_offset + 4 * 128);
    assert_eq!(layout.consumers_offset, layout.configs_offset + CONFIG_RING_CAPACITY * 128);
    assert_eq!(layout.byte_len, layout.consumers_offset + 4 * 128);
    assert_eq!(page.mapped_len(), layout.byte_len);
}

#[test]
fn control_page_layout_is_deterministic_for_capacity() {
    assert_eq!(VideoTrackControlLayout::for_capacity(4), VideoTrackControlLayout::for_capacity(4));
}

#[test]
fn hot_words_never_share_a_cacheline_between_records() {
    let page = VideoTrackControlPage::new(2);

    for offset in page.hot_field_offsets() {
        assert_eq!(offset % std::mem::align_of::<std::sync::atomic::AtomicU64>(), 0);
    }
    assert_eq!(page.layout().slot_len % CONTROL_PAGE_ALIGNMENT, 0);
    assert_eq!(page.layout().consumer_len % CONTROL_PAGE_ALIGNMENT, 0);
}

#[test]
fn push_returns_monotonic_cursors() {
    let mut page = VideoTrackControlPage::new(2);

    assert_eq!(page.push(pending(10)), 1);
    assert_eq!(page.push(pending(11)), 2);
    assert_eq!(page.push(pending(12)), 3);
}

#[test]
fn control_page_mapped_slots_start_zeroed() {
    let page = VideoTrackControlPage::new(2);

    assert_eq!(page.raw_slot(0), FrameSlot::default());
    assert_eq!(page.raw_slot(1), FrameSlot::default());
}

#[test]
fn latest_cursor_returns_none_on_empty_page() {
    let page = VideoTrackControlPage::new(2);

    assert_eq!(page.latest_cursor(), None);
    assert_eq!(page.read_latest_lossy_entry(), Ok(None));
}

#[test]
fn empty_track_control_page_writes_geometry_header() {
    let page = VideoTrackControlPage::new(0);

    let header = page.snapshot().header;
    assert_eq!(header.magic, VIDEO_TRACK_CONTROL_MAGIC);
    assert_eq!(header.layout_version, VIDEO_TRACK_CONTROL_VERSION);
    assert_eq!(header.header_len, 256);
    assert_eq!(header.slot_len, 128);
    assert_eq!(header.slot_capacity, 1);
    assert_eq!(header.config_capacity, CONFIG_RING_CAPACITY as u32);
    assert_eq!(header.consumer_capacity, 1);
    assert_eq!(header.producer_cursor, 0);
    assert_eq!(header.config_cursor, 0);
}

#[test]
fn track_control_page_rounds_capacity_to_power_of_two() {
    let page = VideoTrackControlPage::new(3);

    assert_eq!(page.snapshot().header.slot_capacity, 4);
}

#[test]
fn track_control_page_wraps_entries_in_oldest_to_newest_order() {
    let mut page = VideoTrackControlPage::new(2);

    page.push(pending(10));
    page.push(pending(11));
    page.push(pending(12));

    let snapshot = page.snapshot();
    assert_eq!(snapshot.header.slot_capacity, 2);
    assert_eq!(snapshot.header.producer_cursor, 3);
    assert_eq!(
        snapshot.entries.iter().map(|entry| (entry.cursor, entry.sequence)).collect::<Vec<_>>(),
        vec![(2, 11), (3, 12)]
    );
    let latest = page.read_entry_for_cursor(3).unwrap();
    assert_eq!((latest.cursor, latest.sequence), (3, 12));
}

#[test]
fn track_control_page_reports_latest_lossy_lap_state() {
    let mut page = VideoTrackControlPage::new(3);

    assert_eq!(page.oldest_live_cursor(), None);
    assert_eq!(page.latest_cursor(), None);
    assert!(!page.cursor_lapped(1));

    page.push(pending(10));
    page.push(pending(11));

    assert_eq!(page.oldest_live_cursor(), Some(1));
    assert_eq!(page.latest_cursor(), Some(2));
    assert!(!page.cursor_lapped(1));
    assert!(!page.cursor_lapped(2));

    page.push(pending(12));
    page.push(pending(13));
    page.push(pending(14));

    assert_eq!(page.oldest_live_cursor(), Some(2));
    assert_eq!(page.latest_cursor(), Some(5));
    assert!(page.cursor_lapped(1));
    assert!(!page.cursor_lapped(2));
    assert!(!page.cursor_lapped(5));
}

#[test]
fn read_entry_for_cursor_reports_empty_and_future_cursors() {
    let mut page = VideoTrackControlPage::new(2);

    assert_eq!(page.read_entry_for_cursor(1), Err(VideoRingReadError::Empty));

    page.push(pending(10));

    assert_eq!(
        page.read_entry_for_cursor(0),
        Err(VideoRingReadError::Lapped { requested_cursor: 0, oldest_live_cursor: 1, latest_cursor: 1 })
    );
    assert_eq!(
        page.read_entry_for_cursor(2),
        Err(VideoRingReadError::NotPublished { requested_cursor: 2, latest_cursor: 1 })
    );
}

#[test]
fn read_entry_for_cursor_returns_requested_entry() {
    let mut page = VideoTrackControlPage::new(4);

    page.push(pending(10));
    page.push(pending(11));

    let entry = page.read_entry_for_cursor(2).unwrap();
    assert_eq!(entry.cursor, 2);
    assert_eq!(entry.sequence, 11);
    assert_eq!(entry.pool_id, 7);
    assert_eq!(entry.slot_id, 11);
    assert_eq!(entry.payload_offset, 704);
    assert_eq!(entry.payload_len, 4);
    assert_eq!(entry.config_generation, 1);
}

#[test]
fn read_entry_for_cursor_merges_full_descriptor_and_config() {
    let mut page = VideoTrackControlPage::new(2);
    let pending = full_pending(10);
    page.push(pending.clone());

    let entry = page.read_entry_for_cursor(1).unwrap();
    assert_eq!(entry.cursor, 1);
    assert_eq!(entry.config_generation, 1);
    assert_eq!(entry.sequence, pending.sequence);
    assert_eq!(entry.timestamp_ns, pending.timestamp_ns);
    assert_eq!(entry.width, pending.width);
    assert_eq!(entry.height, pending.height);
    assert_eq!(entry.stride, pending.stride);
    assert_eq!(entry.pixel_format, pending.pixel_format);
    assert_eq!(entry.pool_id, pending.pool_id);
    assert_eq!(entry.slot_id, pending.slot_id);
    assert_eq!(entry.payload_offset, pending.payload_offset);
    assert_eq!(entry.payload_len, pending.payload_len);
    assert_eq!(entry.clock_domain, pending.clock_domain);
    assert_eq!(entry.color_space, pending.color_space);
    assert_eq!(entry.sync_kind, pending.sync_kind);
    assert_eq!(entry.damage_kind, pending.damage_kind);
    assert_eq!(entry.damage_base_sequence, pending.damage_base_sequence);
    assert_eq!(entry.dropped_before_publish, pending.dropped_before_publish);
    assert_eq!(entry.producer_drop_count, pending.producer_drop_count);
    assert_eq!(entry.payload_kind, pending.payload_kind);
    assert_eq!(entry.modifier, pending.modifier);
    assert_eq!(entry.fence_id, pending.fence_id);
    assert_eq!(entry.fence_value, pending.fence_value);
    assert_eq!(entry.flags, pending.flags);
}

#[test]
fn read_entry_for_cursor_reports_lapped_cursors_after_wraparound() {
    let mut page = VideoTrackControlPage::new(2);

    page.push(pending(10));
    page.push(pending(11));
    page.push(pending(12));

    assert_eq!(
        page.read_entry_for_cursor(1),
        Err(VideoRingReadError::Lapped { requested_cursor: 1, oldest_live_cursor: 2, latest_cursor: 3 })
    );
}

#[test]
fn read_entry_for_cursor_reports_slot_sequence_mismatch() {
    let mut page = VideoTrackControlPage::new(2);

    page.push(pending(10));
    page.set_slot_publication_sequence(0, 99);

    assert_eq!(
        page.read_entry_for_cursor(1),
        Err(VideoRingReadError::SlotSequenceMismatch { requested_cursor: 1, first_sequence: 99, second_sequence: 99 })
    );
}

#[test]
fn read_latest_lossy_entry_returns_newest_entry_after_wraparound() {
    let mut page = VideoTrackControlPage::new(2);

    assert_eq!(page.read_latest_lossy_entry(), Ok(None));

    page.push(pending(10));
    page.push(pending(11));
    page.push(pending(12));

    let latest = page.read_latest_lossy_entry().unwrap().unwrap();
    assert_eq!(latest.cursor, 3);
    assert_eq!(latest.sequence, 12);
}

#[test]
fn unchanged_stream_values_reuse_one_config_generation() {
    let mut page = VideoTrackControlPage::new(4);

    page.push(full_pending(10));
    page.push(full_pending(11));
    page.push(full_pending(12));

    let snapshot = page.snapshot();
    assert_eq!(snapshot.header.config_cursor, 1);
    assert_eq!(snapshot.configs.len(), 1);
    assert_eq!(snapshot.configs[0].config_generation, 1);
    assert_eq!(snapshot.configs[0].width, 1920);
    assert!(snapshot.entries.iter().all(|entry| entry.config_generation == 1));
}

#[test]
fn changed_stream_values_publish_new_config_generation() {
    let mut page = VideoTrackControlPage::new(4);

    page.push(full_pending(10));
    let mut resized = full_pending(11);
    resized.width = 2560;
    resized.stride = 10240;
    page.push(resized);

    let first = page.read_entry_for_cursor(1).unwrap();
    let second = page.read_entry_for_cursor(2).unwrap();
    assert_eq!(first.config_generation, 1);
    assert_eq!((first.width, first.stride), (1920, 7680));
    assert_eq!(second.config_generation, 2);
    assert_eq!((second.width, second.stride), (2560, 10240));
    assert_eq!(page.snapshot().header.config_cursor, 2);
}

#[test]
fn frames_older_than_the_config_ring_report_config_overwritten() {
    let mut page = VideoTrackControlPage::new(8);

    page.push(full_pending(10));
    for round in 0..CONFIG_RING_CAPACITY as u32 {
        let mut resized = full_pending(11 + u64::from(round));
        resized.width = 2560 + round;
        page.push(resized);
    }

    let error = page.read_entry_for_cursor(1).unwrap_err();
    assert_eq!(
        error,
        VideoRingReadError::ConfigOverwritten {
            requested_cursor: 1,
            requested_generation: 1,
            first_generation: 5,
            second_generation: 5,
        }
    );
    let latest = page.read_latest_lossy_entry().unwrap().unwrap();
    assert_eq!(latest.config_generation, 5);
}

#[test]
fn consumer_cursor_slot_registers_and_roundtrips_release_cursor() {
    let mut page = VideoTrackControlPage::new(2);

    let slot = page.register_consumer_cursor(7).unwrap();
    page.store_consumer_release_cursor(slot, 7, 3).unwrap();

    let entry = page.consumer_cursor_entry(slot);
    assert_eq!(slot, 0);
    assert_eq!(entry.consumer_id, 7);
    assert_eq!(entry.release_cursor, 3);
}

#[test]
fn consumer_cursor_slot_reuses_existing_consumer_slot() {
    let mut page = VideoTrackControlPage::new(2);

    let first = page.register_consumer_cursor(7).unwrap();
    let second = page.register_consumer_cursor(7).unwrap();

    assert_eq!(first, second);
    assert_eq!(page.consumer_cursor_entry(first).consumer_id, 7);
}

#[test]
fn consumer_cursor_slot_unregisters_and_zeroes_consumer() {
    let mut page = VideoTrackControlPage::new(2);
    let slot = page.register_consumer_cursor(7).unwrap();
    page.store_consumer_release_cursor(slot, 7, 3).unwrap();

    page.unregister_consumer_cursor(7);

    let entry = page.consumer_cursor_entry(slot);
    assert_eq!(entry.consumer_id, 0);
    assert_eq!(entry.release_cursor, 0);

    let reused = page.register_consumer_cursor(8).unwrap();
    assert_eq!(reused, slot);
    assert_eq!(page.consumer_cursor_entry(reused).release_cursor, 0);
}

#[test]
fn consumer_release_update_rejects_slot_consumer_mismatch() {
    let mut page = VideoTrackControlPage::new(2);
    let slot = page.register_consumer_cursor(7).unwrap();

    let error = page.store_consumer_release_cursor(slot, 8, 3).unwrap_err();

    assert!(error.to_message().contains("consumer cursor slot does not match consumer id"));
}

#[test]
fn consumer_acquire_update_rejects_slot_consumer_mismatch() {
    let mut page = VideoTrackControlPage::new(2);
    let slot = page.register_consumer_cursor(7).unwrap();

    let error = page.store_consumer_acquire_cursor(slot, 8, 1, 1, 0, 1).unwrap_err();

    assert!(error.to_message().contains("consumer cursor slot does not match consumer id"));
}

#[test]
fn consumer_acquire_update_preserves_release_cursor() {
    let mut page = VideoTrackControlPage::new(2);
    let slot = page.register_consumer_cursor(7).unwrap();
    page.store_consumer_release_cursor(slot, 7, 9).unwrap();

    page.store_consumer_acquire_cursor(slot, 7, 10, 20, 1, 2).unwrap();

    let entry = page.consumer_cursor_entry(slot);
    assert_eq!(entry.last_acquired_cursor, 10);
    assert_eq!(entry.last_acquired_sequence, 20);
    assert_eq!(entry.skipped_count, 1);
    assert_eq!(entry.acquired_count, 2);
    assert_eq!(entry.release_cursor, 9);
}

#[test]
fn read_only_control_page_mapping_validates_header_from_fd() {
    let page = VideoTrackControlPage::new(3);

    let mapped = VideoTrackControlPage::map_read_only(&page.image(), page.mapped_len()).unwrap();

    let header = mapped.validate_header().unwrap();
    assert_eq!(header.magic, VIDEO_TRACK_CONTROL_MAGIC);
    assert_eq!(header.layout_version, VIDEO_TRACK_CONTROL_VERSION);
    assert_eq!(header.slot_capacity, 4);
    assert_eq!(mapped.mapped_len(), page.mapped_len());
}

#[test]
fn read_only_control_page_shadow_reads_published_entry_from_fd() {
    let mut page = VideoTrackControlPage::new(2);
    page.push(pending(10));

    let mapped = VideoTrackControlPage::map_read_only(&page.image(), page.mapped_len()).unwrap();
    let entry = mapped.shadow_read_entry_for_cursor(1).unwrap();

    assert_eq!(entry.cursor, 1);
    assert_eq!(entry.sequence, 10);
    assert_eq!(entry.pool_id, 7);
    assert_eq!(entry.slot_id, 10);
    assert_eq!(entry.payload_offset, 640);
    assert_eq!(entry.payload_len, 4);
}

#[test]
fn read_only_control_page_shadow_reads_full_descriptor_from_fd() {
    let mut page = VideoTrackControlPage::new(2);
    let pending = full_pending(10);
    page.push(pending.clone());

    let mapped = VideoTrackControlPage::map_read_only(&page.image(), page.mapped_len()).unwrap();
    let entry = mapped.shadow_read_entry_for_cursor(1).unwrap();
    let direct = page.read_entry_for_cursor(1).unwrap();

    assert_eq!(entry, direct);
    assert_eq!(entry.width, pending.width);
    assert_eq!(entry.modifier, pending.modifier);
    assert_eq!(entry.fence_id, pending.fence_id);
    assert_eq!(entry.fence_value, pending.fence_value);
}

#[test]
fn image_of_a_page_maps_back_to_the_same_records() {
    let mut page = VideoTrackControlPage::new(2);
    page.push(full_pending(10));
    page.push(pending(11));
    let slot = page.register_consumer_cursor(7).unwrap();
    page.store_consumer_release_cursor(slot, 7, 1).unwrap();

    let image = page.image();
    assert_eq!(image.len(), page.mapped_len());
    assert_eq!(&image[0..8], b"JSFRING1");

    let mapped = VideoTrackControlPage::map_read_write(&image, page.mapped_len()).unwrap();
    assert_eq!(mapped.snapshot(), page.snapshot());
}

#[test]
fn mapping_rejects_short_or_corrupt_images() {
    let page = VideoTrackControlPage::new(2);
    let image = page.image();

    assert_eq!(
        VideoTrackControlPage::map_read_only(&image, 0).unwrap_err(),
        capture_transfer::error::CaptureTransferError::InvalidSharedMemoryLength
    );
    assert_eq!(
        VideoTrackControlPage::map_read_only(&image, image.len() + 1).unwrap_err().to_message(),
        format!(
            "shared memory mmap-read-only failed: requested map length {} exceeds backing file length {}",
            image.len() + 1,
            image.len()
        )
    );
    assert_eq!(
        VideoTrackControlPage::map_read_only(&image, 255).unwrap_err().to_message(),
        "shared memory validate-control-page failed: mapped length is smaller than the ring header"
    );
    let mut corrupt = image.clone();
    corrupt[0] ^= 0xff;
    assert_eq!(
        VideoTrackControlPage::map_read_only(&corrupt, page.mapped_len()).unwrap_err().to_message(),
        "shared memory validate-control-page failed: invalid magic"
    );
    assert_eq!(
        VideoTrackControlPage::map_read_only(&image, page.mapped_len() - 1).unwrap_err().to_message(),
        "shared memory validate-control-page failed: mapped length is smaller than declared layout"
    );
}
