//! The byte image of a control page, as the ring's wire layout lays it out,
//! and mapping a page back from such an image.
//!
//! A page is a 256-byte header followed by the frame-slot ring, the config
//! ring and the consumer table, one 128-byte record each; every field is
//! little-endian at a fixed offset and reserved bytes are zero.

use vstd::bytes::*;
use vstd::prelude::*;
use vstd::slice::slice_subrange;
use vstd::string::*;

use super::{
    invalid_control_page, spec_is_page_error, spec_is_ring_capacity, spec_layout, spec_layout_fits,
    spec_page_len, spec_validate_header, validate_control_header, FrameSlot, StreamConfig,
    VideoConsumerCursorEntry, VideoTrackControlHeader, VideoTrackControlLayout, VideoTrackControlPage,
    CONFIG_RING_CAPACITY, HEADER_LEN, RECORD_LEN, VIDEO_TRACK_CONTROL_MAGIC, VIDEO_TRACK_CONTROL_VERSION,
};
use crate::error::{CaptureTransferError, Result as CaptureResult};
use crate::text::{decimal_string, spec_decimal};

verus! {

/// The little-endian `u64` at `offset`.
pub open spec fn spec_u64_at(bytes: Seq<u8>, offset: int) -> u64 {
    spec_u64_from_le_bytes(bytes.subrange(offset, offset + 8))
}

/// The little-endian `u32` at `offset`.
pub open spec fn spec_u32_at(bytes: Seq<u8>, offset: int) -> u32 {
    spec_u32_from_le_bytes(bytes.subrange(offset, offset + 4))
}

/// `n` zero bytes.
pub open spec fn spec_zeros(n: nat) -> Seq<u8> {
    Seq::new(n, |i: int| 0u8)
}

pub open spec fn spec_header_bytes(header: VideoTrackControlHeader) -> Seq<u8> {
    spec_u64_to_le_bytes(header.magic) + spec_u32_to_le_bytes(header.layout_version) + spec_u32_to_le_bytes(
        header.header_len,
    ) + spec_u32_to_le_bytes(header.slot_len) + spec_u32_to_le_bytes(header.slot_capacity) + spec_u32_to_le_bytes(
        header.config_len,
    ) + spec_u32_to_le_bytes(header.config_capacity) + spec_u32_to_le_bytes(header.consumer_len)
        + spec_u32_to_le_bytes(header.consumer_capacity) + spec_u32_to_le_bytes(header.slots_offset)
        + spec_u32_to_le_bytes(header.configs_offset) + spec_u32_to_le_bytes(header.consumers_offset) + spec_zeros(
        76,
    ) + spec_u64_to_le_bytes(header.producer_cursor) + spec_u64_to_le_bytes(header.config_cursor) + spec_zeros(112)
}

pub open spec fn spec_decode_header(bytes: Seq<u8>) -> VideoTrackControlHeader {
    VideoTrackControlHeader {
        magic: spec_u64_at(bytes, 0),
        layout_version: spec_u32_at(bytes, 8),
        header_len: spec_u32_at(bytes, 12),
        slot_len: spec_u32_at(bytes, 16),
        slot_capacity: spec_u32_at(bytes, 20),
        config_len: spec_u32_at(bytes, 24),
        config_capacity: spec_u32_at(bytes, 28),
        consumer_len: spec_u32_at(bytes, 32),
        consumer_capacity: spec_u32_at(bytes, 36),
        slots_offset: spec_u32_at(bytes, 40),
        configs_offset: spec_u32_at(bytes, 44),
        consumers_offset: spec_u32_at(bytes, 48),
        producer_cursor: spec_u64_at(bytes, 128),
        config_cursor: spec_u64_at(bytes, 136),
    }
}

pub open spec fn spec_slot_bytes(slot: FrameSlot) -> Seq<u8> {
    spec_u64_to_le_bytes(slot.publication_sequence) + spec_u64_to_le_bytes(slot.sequence) + spec_u64_to_le_bytes(
        slot.timestamp_ns,
    ) + spec_u64_to_le_bytes(slot.pool_id) + spec_u64_to_le_bytes(slot.payload_offset) + spec_u64_to_le_bytes(
        slot.payload_len,
    ) + spec_u64_to_le_bytes(slot.fence_value) + spec_u64_to_le_bytes(slot.damage_base_sequence)
        + spec_u64_to_le_bytes(slot.producer_drop_count) + spec_u32_to_le_bytes(slot.slot_id) + spec_u32_to_le_bytes(
        slot.config_generation,
    ) + spec_u32_to_le_bytes(slot.payload_kind) + spec_u32_to_le_bytes(slot.damage_kind) + spec_u32_to_le_bytes(
        slot.dropped_before_publish,
    ) + spec_u32_to_le_bytes(slot.flags) + spec_zeros(32)
}

pub open spec fn spec_decode_slot(bytes: Seq<u8>) -> FrameSlot {
    FrameSlot {
        publication_sequence: spec_u64_at(bytes, 0),
        sequence: spec_u64_at(bytes, 8),
        timestamp_ns: spec_u64_at(bytes, 16),
        pool_id: spec_u64_at(bytes, 24),
        payload_offset: spec_u64_at(bytes, 32),
        payload_len: spec_u64_at(bytes, 40),
        fence_value: spec_u64_at(bytes, 48),
        damage_base_sequence: spec_u64_at(bytes, 56),
        producer_drop_count: spec_u64_at(bytes, 64),
        slot_id: spec_u32_at(bytes, 72),
        config_generation: spec_u32_at(bytes, 76),
        payload_kind: spec_u32_at(bytes, 80),
        damage_kind: spec_u32_at(bytes, 84),
        dropped_before_publish: spec_u32_at(bytes, 88),
        flags: spec_u32_at(bytes, 92),
    }
}

pub open spec fn spec_config_bytes(config: StreamConfig) -> Seq<u8> {
    spec_u64_to_le_bytes(config.config_generation) + spec_u32_to_le_bytes(config.width) + spec_u32_to_le_bytes(
        config.height,
    ) + spec_u32_to_le_bytes(config.stride) + spec_u32_to_le_bytes(config.pixel_format) + spec_u32_to_le_bytes(
        config.color_space,
    ) + spec_u32_to_le_bytes(config.clock_domain) + spec_u32_to_le_bytes(config.sync_kind) + spec_u32_to_le_bytes(
        config.reserved0,
    ) + spec_u64_to_le_bytes(config.modifier) + spec_u64_to_le_bytes(config.fence_id) + spec_zeros(72)
}

pub open spec fn spec_decode_config(bytes: Seq<u8>) -> StreamConfig {
    StreamConfig {
        config_generation: spec_u64_at(bytes, 0),
        width: spec_u32_at(bytes, 8),
        height: spec_u32_at(bytes, 12),
        stride: spec_u32_at(bytes, 16),
        pixel_format: spec_u32_at(bytes, 20),
        color_space: spec_u32_at(bytes, 24),
        clock_domain: spec_u32_at(bytes, 28),
        sync_kind: spec_u32_at(bytes, 32),
        reserved0: spec_u32_at(bytes, 36),
        modifier: spec_u64_at(bytes, 40),
        fence_id: spec_u64_at(bytes, 48),
    }
}

pub open spec fn spec_consumer_bytes(entry: VideoConsumerCursorEntry) -> Seq<u8> {
    spec_u64_to_le_bytes(entry.consumer_id) + spec_u64_to_le_bytes(entry.release_cursor) + spec_u64_to_le_bytes(
        entry.last_acquired_cursor,
    ) + spec_u64_to_le_bytes(entry.last_acquired_sequence) + spec_u64_to_le_bytes(entry.acquired_count)
        + spec_u64_to_le_bytes(entry.skipped_count) + spec_zeros(80)
}

pub open spec fn spec_decode_consumer(bytes: Seq<u8>) -> VideoConsumerCursorEntry {
    VideoConsumerCursorEntry {
        consumer_id: spec_u64_at(bytes, 0),
        release_cursor: spec_u64_at(bytes, 8),
        last_acquired_cursor: spec_u64_at(bytes, 16),
        last_acquired_sequence: spec_u64_at(bytes, 24),
        acquired_count: spec_u64_at(bytes, 32),
        skipped_count: spec_u64_at(bytes, 40),
    }
}

/// Decoding a frame slot's bytes gives the slot back.
pub proof fn lemma_slot_round_trip(slot: FrameSlot)
    ensures
        spec_slot_bytes(slot).len() == 128,
        spec_decode_slot(spec_slot_bytes(slot)) == slot,
{
    lemma_auto_spec_u64_to_from_le_bytes();
    lemma_auto_spec_u32_to_from_le_bytes();
    let b = spec_slot_bytes(slot);
    assert(b.subrange(0, 8) =~= spec_u64_to_le_bytes(slot.publication_sequence));
    assert(b.subrange(8, 16) =~= spec_u64_to_le_bytes(slot.sequence));
    assert(b.subrange(16, 24) =~= spec_u64_to_le_bytes(slot.timestamp_ns));
    assert(b.subrange(24, 32) =~= spec_u64_to_le_bytes(slot.pool_id));
    assert(b.subrange(32, 40) =~= spec_u64_to_le_bytes(slot.payload_offset));
    assert(b.subrange(40, 48) =~= spec_u64_to_le_bytes(slot.payload_len));
    assert(b.subrange(48, 56) =~= spec_u64_to_le_bytes(slot.fence_value));
    assert(b.subrange(56, 64) =~= spec_u64_to_le_bytes(slot.damage_base_sequence));
    assert(b.subrange(64, 72) =~= spec_u64_to_le_bytes(slot.producer_drop_count));
    assert(b.subrange(72, 76) =~= spec_u32_to_le_bytes(slot.slot_id));
    assert(b.subrange(76, 80) =~= spec_u32_to_le_bytes(slot.config_generation));
    assert(b.subrange(80, 84) =~= spec_u32_to_le_bytes(slot.payload_kind));
    assert(b.subrange(84, 88) =~= spec_u32_to_le_bytes(slot.damage_kind));
    assert(b.subrange(88, 92) =~= spec_u32_to_le_bytes(slot.dropped_before_publish));
    assert(b.subrange(92, 96) =~= spec_u32_to_le_bytes(slot.flags));
}

/// Decoding a header's bytes gives the header back.
pub proof fn lemma_header_round_trip(header: VideoTrackControlHeader)
    ensures
        spec_header_bytes(header).len() == 256,
        spec_decode_header(spec_header_bytes(header)) == header,
{
    lemma_auto_spec_u64_to_from_le_bytes();
    lemma_auto_spec_u32_to_from_le_bytes();
    let b = spec_header_bytes(header);
    assert(b.subrange(0, 8) =~= spec_u64_to_le_bytes(header.magic));
    assert(b.subrange(8, 12) =~= spec_u32_to_le_bytes(header.layout_version));
    assert(b.subrange(12, 16) =~= spec_u32_to_le_bytes(header.header_len));
    assert(b.subrange(16, 20) =~= spec_u32_to_le_bytes(header.slot_len));
    assert(b.subrange(20, 24) =~= spec_u32_to_le_bytes(header.slot_capacity));
    assert(b.subrange(24, 28) =~= spec_u32_to_le_bytes(header.config_len));
    assert(b.subrange(28, 32) =~= spec_u32_to_le_bytes(header.config_capacity));
    assert(b.subrange(32, 36) =~= spec_u32_to_le_bytes(header.consumer_len));
    assert(b.subrange(36, 40) =~= spec_u32_to_le_bytes(header.consumer_capacity));
    assert(b.subrange(40, 44) =~= spec_u32_to_le_bytes(header.slots_offset));
    assert(b.subrange(44, 48) =~= spec_u32_to_le_bytes(header.configs_offset));
    assert(b.subrange(48, 52) =~= spec_u32_to_le_bytes(header.consumers_offset));
    assert(b.subrange(128, 136) =~= spec_u64_to_le_bytes(header.producer_cursor));
    assert(b.subrange(136, 144) =~= spec_u64_to_le_bytes(header.config_cursor));
}

/// Decoding a stream config's bytes gives the config back.
pub proof fn lemma_config_round_trip(config: StreamConfig)
    ensures
        spec_config_bytes(config).len() == 128,
        spec_decode_config(spec_config_bytes(config)) == config,
{
    lemma_auto_spec_u64_to_from_le_bytes();
    lemma_auto_spec_u32_to_from_le_bytes();
    let b = spec_config_bytes(config);
    assert(b.subrange(0, 8) =~= spec_u64_to_le_bytes(config.config_generation));
    assert(b.subrange(8, 12) =~= spec_u32_to_le_bytes(config.width));
    assert(b.subrange(12, 16) =~= spec_u32_to_le_bytes(config.height));
    assert(b.subrange(16, 20) =~= spec_u32_to_le_bytes(config.stride));
    assert(b.subrange(20, 24) =~= spec_u32_to_le_bytes(config.pixel_format));
    assert(b.subrange(24, 28) =~= spec_u32_to_le_bytes(config.color_space));
    assert(b.subrange(28, 32) =~= spec_u32_to_le_bytes(config.clock_domain));
    assert(b.subrange(32, 36) =~= spec_u32_to_le_bytes(config.sync_kind));
    assert(b.subrange(36, 40) =~= spec_u32_to_le_bytes(config.reserved0));
    assert(b.subrange(40, 48) =~= spec_u64_to_le_bytes(config.modifier));
    assert(b.subrange(48, 56) =~= spec_u64_to_le_bytes(config.fence_id));
}

/// Decoding a consumer entry's bytes gives the entry back.
pub proof fn lemma_consumer_round_trip(entry: VideoConsumerCursorEntry)
    ensures
        spec_consumer_bytes(entry).len() == 128,
        spec_decode_consumer(spec_consumer_bytes(entry)) == entry,
{
    lemma_auto_spec_u64_to_from_le_bytes();
    let b = spec_consumer_bytes(entry);
    assert(b.subrange(0, 8) =~= spec_u64_to_le_bytes(entry.consumer_id));
    assert(b.subrange(8, 16) =~= spec_u64_to_le_bytes(entry.release_cursor));
    assert(b.subrange(16, 24) =~= spec_u64_to_le_bytes(entry.last_acquired_cursor));
    assert(b.subrange(24, 32) =~= spec_u64_to_le_bytes(entry.last_acquired_sequence));
    assert(b.subrange(32, 40) =~= spec_u64_to_le_bytes(entry.acquired_count));
    assert(b.subrange(40, 48) =~= spec_u64_to_le_bytes(entry.skipped_count));
}

/// The concatenation of `chunks`.
pub open spec fn spec_concat(chunks: Seq<Seq<u8>>) -> Seq<u8>
    decreases chunks.len(),
{
    if chunks.len() == 0 {
        Seq::empty()
    } else {
        spec_concat(chunks.drop_last()) + chunks.last()
    }
}

pub open spec fn spec_slot_chunks(slots: Seq<FrameSlot>) -> Seq<Seq<u8>> {
    Seq::new(slots.len(), |i: int| spec_slot_bytes(slots[i]))
}

pub open spec fn spec_config_chunks(configs: Seq<StreamConfig>) -> Seq<Seq<u8>> {
    Seq::new(configs.len(), |i: int| spec_config_bytes(configs[i]))
}

pub open spec fn spec_consumer_chunks(entries: Seq<VideoConsumerCursorEntry>) -> Seq<Seq<u8>> {
    Seq::new(entries.len(), |i: int| spec_consumer_bytes(entries[i]))
}

/// The record of 128 bytes at `index` of a region starting at `base`.
pub open spec fn spec_record(bytes: Seq<u8>, base: int, index: int) -> Seq<u8> {
    bytes.subrange(base + 128 * index, base + 128 * index + 128)
}

impl VideoTrackControlPage {
    /// The page's byte image: header, frame slots, configs and consumer
    /// entries in layout order, zero-padded to the mapped length.
    pub open spec fn spec_image(&self) -> Seq<u8> {
        spec_header_bytes(self.header_view()) + spec_concat(spec_slot_chunks(self.slots_view())) + spec_concat(
            spec_config_chunks(self.configs_view()),
        ) + spec_concat(spec_consumer_chunks(self.consumers_view())) + spec_zeros(
            (self.mapped_len_view() - self.layout_view().byte_len) as nat,
        )
    }
}

proof fn lemma_concat_step(chunks: Seq<Seq<u8>>, i: int)
    requires
        0 <= i < chunks.len(),
    ensures
        spec_concat(chunks.take(i + 1)) == spec_concat(chunks.take(i)) + chunks[i],
{
    assert(chunks.take(i + 1).drop_last() =~= chunks.take(i));
}

proof fn lemma_concat_records(chunks: Seq<Seq<u8>>)
    requires
        forall|j: int| 0 <= j < chunks.len() ==> (#[trigger] chunks[j]).len() == 128,
    ensures
        spec_concat(chunks).len() == 128 * chunks.len(),
        forall|i: int| 0 <= i < chunks.len() ==> #[trigger] spec_record(spec_concat(chunks), 0, i) == chunks[i],
    decreases chunks.len(),
{
    if chunks.len() > 0 {
        let prefix = chunks.drop_last();
        lemma_concat_records(prefix);
        let whole = spec_concat(chunks);
        assert forall|i: int| 0 <= i < chunks.len() implies #[trigger] spec_record(whole, 0, i) == chunks[i] by {
            if i < chunks.len() - 1 {
                assert(spec_record(whole, 0, i) =~= spec_record(spec_concat(prefix), 0, i));
                assert(prefix[i] == chunks[i]);
            } else {
                assert(spec_record(whole, 0, i) =~= chunks.last());
            }
        }
    }
}

fn push_u64(out: &mut Vec<u8>, value: u64)
    ensures
        final(out)@ == old(out)@ + spec_u64_to_le_bytes(value),
{
    let mut bytes = u64_to_le_bytes(value);
    out.append(&mut bytes);
}

fn push_u32(out: &mut Vec<u8>, value: u32)
    ensures
        final(out)@ == old(out)@ + spec_u32_to_le_bytes(value),
{
    let mut bytes = u32_to_le_bytes(value);
    out.append(&mut bytes);
}

fn push_zeros(out: &mut Vec<u8>, count: usize)
    ensures
        final(out)@ == old(out)@ + spec_zeros(count as nat),
{
    let ghost start = out@;
    let mut index: usize = 0;
    while index < count
        invariant
            index <= count,
            out@ == start + spec_zeros(index as nat),
        decreases count - index,
    {
        out.push(0u8);
        index = index + 1;
        proof {
            assert(out@ =~= start + spec_zeros(index as nat));
        }
    }
}

fn push_header(out: &mut Vec<u8>, header: &VideoTrackControlHeader)
    ensures
        final(out)@ == old(out)@ + spec_header_bytes(*header),
{
    let mut bytes = u64_to_le_bytes(header.magic);
    push_u32(&mut bytes, header.layout_version);
    push_u32(&mut bytes, header.header_len);
    push_u32(&mut bytes, header.slot_len);
    push_u32(&mut bytes, header.slot_capacity);
    push_u32(&mut bytes, header.config_len);
    push_u32(&mut bytes, header.config_capacity);
    push_u32(&mut bytes, header.consumer_len);
    push_u32(&mut bytes, header.consumer_capacity);
    push_u32(&mut bytes, header.slots_offset);
    push_u32(&mut bytes, header.configs_offset);
    push_u32(&mut bytes, header.consumers_offset);
    push_zeros(&mut bytes, 76);
    push_u64(&mut bytes, header.producer_cursor);
    push_u64(&mut bytes, header.config_cursor);
    push_zeros(&mut bytes, 112);
    out.append(&mut bytes);
}

fn push_slot(out: &mut Vec<u8>, slot: &FrameSlot)
    ensures
        final(out)@ == old(out)@ + spec_slot_bytes(*slot),
{
    let mut bytes = u64_to_le_bytes(slot.publication_sequence);
    push_u64(&mut bytes, slot.sequence);
    push_u64(&mut bytes, slot.timestamp_ns);
    push_u64(&mut bytes, slot.pool_id);
    push_u64(&mut bytes, slot.payload_offset);
    push_u64(&mut bytes, slot.payload_len);
    push_u64(&mut bytes, slot.fence_value);
    push_u64(&mut bytes, slot.damage_base_sequence);
    push_u64(&mut bytes, slot.producer_drop_count);
    push_u32(&mut bytes, slot.slot_id);
    push_u32(&mut bytes, slot.config_generation);
    push_u32(&mut bytes, slot.payload_kind);
    push_u32(&mut bytes, slot.damage_kind);
    push_u32(&mut bytes, slot.dropped_before_publish);
    push_u32(&mut bytes, slot.flags);
    push_zeros(&mut bytes, 32);
    out.append(&mut bytes);
}

fn push_config(out: &mut Vec<u8>, config: &StreamConfig)
    ensures
        final(out)@ == old(out)@ + spec_config_bytes(*config),
{
    let mut bytes = u64_to_le_bytes(config.config_generation);
    push_u32(&mut bytes, config.width);
    push_u32(&mut bytes, config.height);
    push_u32(&mut bytes, config.stride);
    push_u32(&mut bytes, config.pixel_format);
    push_u32(&mut bytes, config.color_space);
    push_u32(&mut bytes, config.clock_domain);
    push_u32(&mut bytes, config.sync_kind);
    push_u32(&mut bytes, config.reserved0);
    push_u64(&mut bytes, config.modifier);
    push_u64(&mut bytes, config.fence_id);
    push_zeros(&mut bytes, 72);
    out.append(&mut bytes);
}

fn push_consumer(out: &mut Vec<u8>, entry: &VideoConsumerCursorEntry)
    ensures
        final(out)@ == old(out)@ + spec_consumer_bytes(*entry),
{
    let mut bytes = u64_to_le_bytes(entry.consumer_id);
    push_u64(&mut bytes, entry.release_cursor);
    push_u64(&mut bytes, entry.last_acquired_cursor);
    push_u64(&mut bytes, entry.last_acquired_sequence);
    push_u64(&mut bytes, entry.acquired_count);
    push_u64(&mut bytes, entry.skipped_count);
    push_zeros(&mut bytes, 80);
    out.append(&mut bytes);
}

impl VideoTrackControlPage {
    /// The page's byte image, as a consumer maps it.
    pub fn image(&self) -> (image: Vec<u8>)
        requires
            self.wf(),
        ensures
            image@ == self.spec_image(),
    {
        let mut out: Vec<u8> = Vec::new();
        push_header(&mut out, &self.header);
        let ghost head = out@;
        let ghost slot_chunks = spec_slot_chunks(self.slots@);
        let mut index: usize = 0;
        proof {
            assert(slot_chunks.take(0) =~= Seq::<Seq<u8>>::empty());
            assert(out@ =~= head + spec_concat(slot_chunks.take(0)));
        }
        while index < self.slots.len()
            invariant
                index <= self.slots@.len(),
                slot_chunks == spec_slot_chunks(self.slots@),
                out@ == head + spec_concat(slot_chunks.take(index as int)),
            decreases self.slots@.len() - index,
        {
            push_slot(&mut out, &self.slots[index]);
            proof {
                lemma_concat_step(slot_chunks, index as int);
                assert(out@ =~= head + spec_concat(slot_chunks.take(index + 1)));
            }
            index = index + 1;
        }
        proof {
            assert(slot_chunks.take(index as int) =~= slot_chunks);
        }
        let ghost head = out@;
        let ghost config_chunks = spec_config_chunks(self.configs@);
        let mut index: usize = 0;
        proof {
            assert(config_chunks.take(0) =~= Seq::<Seq<u8>>::empty());
            assert(out@ =~= head + spec_concat(config_chunks.take(0)));
        }
        while index < self.configs.len()
            invariant
                index <= self.configs@.len(),
                config_chunks == spec_config_chunks(self.configs@),
                out@ == head + spec_concat(config_chunks.take(index as int)),
            decreases self.configs@.len() - index,
        {
            push_config(&mut out, &self.configs[index]);
            proof {
                lemma_concat_step(config_chunks, index as int);
                assert(out@ =~= head + spec_concat(config_chunks.take(index + 1)));
            }
            index = index + 1;
        }
        proof {
            assert(config_chunks.take(index as int) =~= config_chunks);
        }
        let ghost head = out@;
        let ghost consumer_chunks = spec_consumer_chunks(self.consumers@);
        let mut index: usize = 0;
        proof {
            assert(consumer_chunks.take(0) =~= Seq::<Seq<u8>>::empty());
            assert(out@ =~= head + spec_concat(consumer_chunks.take(0)));
        }
        while index < self.consumers.len()
            invariant
                index <= self.consumers@.len(),
                consumer_chunks == spec_consumer_chunks(self.consumers@),
                out@ == head + spec_concat(consumer_chunks.take(index as int)),
            decreases self.consumers@.len() - index,
        {
            push_consumer(&mut out, &self.consumers[index]);
            proof {
                lemma_concat_step(consumer_chunks, index as int);
                assert(out@ =~= head + spec_concat(consumer_chunks.take(index + 1)));
            }
            index = index + 1;
        }
        proof {
            assert(consumer_chunks.take(index as int) =~= consumer_chunks);
        }
        push_zeros(&mut out, self.mapped_len - self.layout.byte_len);
        out
    }
}

fn read_u64(bytes: &[u8], offset: usize) -> (value: u64)
    requires
        offset + 8 <= bytes@.len(),
    ensures
        value == spec_u64_at(bytes@, offset as int),
{
    let length = bytes.len();
    u64_from_le_bytes(slice_subrange(bytes, offset, offset + 8))
}

fn read_u32(bytes: &[u8], offset: usize) -> (value: u32)
    requires
        offset + 4 <= bytes@.len(),
    ensures
        value == spec_u32_at(bytes@, offset as int),
{
    let length = bytes.len();
    u32_from_le_bytes(slice_subrange(bytes, offset, offset + 4))
}

fn decode_header(bytes: &[u8]) -> (header: VideoTrackControlHeader)
    requires
        bytes@.len() == 256,
    ensures
        header == spec_decode_header(bytes@),
{
    VideoTrackControlHeader {
        magic: read_u64(bytes, 0),
        layout_version: read_u32(bytes, 8),
        header_len: read_u32(bytes, 12),
        slot_len: read_u32(bytes, 16),
        slot_capacity: read_u32(bytes, 20),
        config_len: read_u32(bytes, 24),
        config_capacity: read_u32(bytes, 28),
        consumer_len: read_u32(bytes, 32),
        consumer_capacity: read_u32(bytes, 36),
        slots_offset: read_u32(bytes, 40),
        configs_offset: read_u32(bytes, 44),
        consumers_offset: read_u32(bytes, 48),
        producer_cursor: read_u64(bytes, 128),
        config_cursor: read_u64(bytes, 136),
    }
}

fn decode_slot(bytes: &[u8]) -> (slot: FrameSlot)
    requires
        bytes@.len() == 128,
    ensures
        slot == spec_decode_slot(bytes@),
{
    FrameSlot {
        publication_sequence: read_u64(bytes, 0),
        sequence: read_u64(bytes, 8),
        timestamp_ns: read_u64(bytes, 16),
        pool_id: read_u64(bytes, 24),
        payload_offset: read_u64(bytes, 32),
        payload_len: read_u64(bytes, 40),
        fence_value: read_u64(bytes, 48),
        damage_base_sequence: read_u64(bytes, 56),
        producer_drop_count: read_u64(bytes, 64),
        slot_id: read_u32(bytes, 72),
        config_generation: read_u32(bytes, 76),
        payload_kind: read_u32(bytes, 80),
        damage_kind: read_u32(bytes, 84),
        dropped_before_publish: read_u32(bytes, 88),
        flags: read_u32(bytes, 92),
    }
}

fn decode_config(bytes: &[u8]) -> (config: StreamConfig)
    requires
        bytes@.len() == 128,
    ensures
        config == spec_decode_config(bytes@),
{
    StreamConfig {
        config_generation: read_u64(bytes, 0),
        width: read_u32(bytes, 8),
        height: read_u32(bytes, 12),
        stride: read_u32(bytes, 16),
        pixel_format: read_u32(bytes, 20),
        color_space: read_u32(bytes, 24),
        clock_domain: read_u32(bytes, 28),
        sync_kind: read_u32(bytes, 32),
        reserved0: read_u32(bytes, 36),
        modifier: read_u64(bytes, 40),
        fence_id: read_u64(bytes, 48),
    }
}

fn decode_consumer(bytes: &[u8]) -> (entry: VideoConsumerCursorEntry)
    requires
        bytes@.len() == 128,
    ensures
        entry == spec_decode_consumer(bytes@),
{
    VideoConsumerCursorEntry {
        consumer_id: read_u64(bytes, 0),
        release_cursor: read_u64(bytes, 8),
        last_acquired_cursor: read_u64(bytes, 16),
        last_acquired_sequence: read_u64(bytes, 24),
        acquired_count: read_u64(bytes, 32),
        skipped_count: read_u64(bytes, 40),
    }
}

/// The header an image declares.
pub open spec fn spec_image_header(image: Seq<u8>) -> VideoTrackControlHeader {
    spec_decode_header(image.subrange(0, 256))
}

/// Whether mapping `map_len` bytes of `image` succeeds.
pub open spec fn spec_map_accepts(image: Seq<u8>, map_len: nat) -> bool {
    &&& map_len > 0
    &&& map_len <= image.len()
    &&& map_len >= HEADER_LEN
    &&& spec_validate_header(spec_image_header(image), map_len) is Ok
}

/// `page` is what mapping `map_len` bytes of `image` yields.
pub open spec fn spec_mapped(image: Seq<u8>, map_len: nat, page: VideoTrackControlPage) -> bool {
    let header = spec_image_header(image);
    let capacity = header.slot_capacity as nat;
    let layout = spec_layout(capacity);
    &&& page.mapped_len_view() == map_len
    &&& page.layout_view() == layout
    &&& page.header_view() == header
    &&& page.slots_view() == Seq::new(
        capacity,
        |i: int| spec_decode_slot(spec_record(image, layout.slots_offset as int, i)),
    )
    &&& page.configs_view() == Seq::new(
        CONFIG_RING_CAPACITY as nat,
        |i: int| spec_decode_config(spec_record(image, layout.configs_offset as int, i)),
    )
    &&& page.consumers_view() == Seq::new(
        capacity,
        |i: int| spec_decode_consumer(spec_record(image, layout.consumers_offset as int, i)),
    )
    &&& page.cached_config() is None
}

/// The message of a mapping longer than its backing bytes.
pub open spec fn spec_map_len_message(map_len: nat, backing_len: nat) -> Seq<char> {
    "requested map length "@ + spec_decimal(map_len) + " exceeds backing file length "@ + spec_decimal(backing_len)
}

/// `error` is what mapping `map_len` bytes of `image` under `operation` fails with.
pub open spec fn spec_map_error(image: Seq<u8>, map_len: nat, operation: Seq<char>, error: CaptureTransferError) -> bool {
    if map_len == 0 {
        error == CaptureTransferError::InvalidSharedMemoryLength
    } else if map_len > image.len() {
        error matches CaptureTransferError::SharedMemory { operation: op, message } && op@ == operation
            && message@ == spec_map_len_message(map_len, image.len())
    } else if map_len < HEADER_LEN {
        spec_is_page_error(error, "mapped length is smaller than the ring header"@)
    } else {
        match spec_validate_header(spec_image_header(image), map_len) {
            Err(message) => spec_is_page_error(error, message),
            Ok(_) => false,
        }
    }
}

pub(crate) fn map_len_message(map_len: usize, backing_len: usize) -> (message: String)
    ensures
        message@ == spec_map_len_message(map_len as nat, backing_len as nat),
{
    let mut message = String::from_str("requested map length ");
    let requested = decimal_string(map_len as u64);
    message.append(requested.as_str());
    message.append(" exceeds backing file length ");
    let backing = decimal_string(backing_len as u64);
    message.append(backing.as_str());
    message
}

impl VideoTrackControlPage {
    fn map_image(image: &[u8], map_len: usize, operation: &'static str) -> (page: CaptureResult<Self>)
        ensures
            page is Ok <==> spec_map_accepts(image@, map_len as nat),
            match page {
                Ok(page) => page.wf() && spec_mapped(image@, map_len as nat, page),
                Err(error) => spec_map_error(image@, map_len as nat, operation@, error),
            },
    {
        if map_len == 0 {
            return Err(CaptureTransferError::InvalidSharedMemoryLength);
        }
        if map_len > image.len() {
            return Err(
                CaptureTransferError::SharedMemory {
                    operation,
                    message: map_len_message(map_len, image.len()),
                },
            );
        }
        if map_len < HEADER_LEN {
            proof {
                reveal_strlit("mapped length is smaller than the ring header");
            }
            return Err(invalid_control_page("mapped length is smaller than the ring header"));
        }
        let header = decode_header(slice_subrange(image, 0, 256));
        let capacity = match validate_control_header(&header, map_len) {
            Ok(capacity) => capacity,
            Err(error) => return Err(error),
        };
        proof {
            crate::control_page::lemma_ring_capacity_of_power(capacity as nat);
        }
        let layout = VideoTrackControlLayout::for_capacity(capacity);
        let mut slots: Vec<FrameSlot> = Vec::new();
        let mut offset: usize = layout.slots_offset;
        let mut index: usize = 0;
        while index < capacity
            invariant
                layout == spec_layout(capacity as nat),
                spec_layout_fits(capacity as nat),
                spec_page_len(capacity as nat) <= map_len <= image@.len(),
                index <= capacity,
                offset == layout.slots_offset + 128 * index,
                slots@ == Seq::new(
                    index as nat,
                    |i: int| spec_decode_slot(spec_record(image@, layout.slots_offset as int, i)),
                ),
            decreases capacity - index,
        {
            let slot = decode_slot(slice_subrange(image, offset, offset + 128));
            slots.push(slot);
            offset = offset + 128;
            index = index + 1;
            proof {
                assert(slots@ =~= Seq::new(
                    index as nat,
                    |i: int| spec_decode_slot(spec_record(image@, layout.slots_offset as int, i)),
                ));
            }
        }
        let mut configs: Vec<StreamConfig> = Vec::new();
        let mut offset: usize = layout.configs_offset;
        let mut index: usize = 0;
        while index < CONFIG_RING_CAPACITY
            invariant
                layout == spec_layout(capacity as nat),
                spec_layout_fits(capacity as nat),
                spec_page_len(capacity as nat) <= map_len <= image@.len(),
                index <= CONFIG_RING_CAPACITY,
                offset == layout.configs_offset + 128 * index,
                configs@ == Seq::new(
                    index as nat,
                    |i: int| spec_decode_config(spec_record(image@, layout.configs_offset as int, i)),
                ),
            decreases CONFIG_RING_CAPACITY - index,
        {
            let config = decode_config(slice_subrange(image, offset, offset + 128));
            configs.push(config);
            offset = offset + 128;
            index = index + 1;
            proof {
                assert(configs@ =~= Seq::new(
                    index as nat,
                    |i: int| spec_decode_config(spec_record(image@, layout.configs_offset as int, i)),
                ));
            }
        }
        let mut consumers: Vec<VideoConsumerCursorEntry> = Vec::new();
        let mut offset: usize = layout.consumers_offset;
        let mut index: usize = 0;
        while index < capacity
            invariant
                layout == spec_layout(capacity as nat),
                spec_layout_fits(capacity as nat),
                spec_page_len(capacity as nat) <= map_len <= image@.len(),
                index <= capacity,
                offset == layout.consumers_offset + 128 * index,
                consumers@ == Seq::new(
                    index as nat,
                    |i: int| spec_decode_consumer(spec_record(image@, layout.consumers_offset as int, i)),
                ),
            decreases capacity - index,
        {
            let entry = decode_consumer(slice_subrange(image, offset, offset + 128));
            consumers.push(entry);
            offset = offset + 128;
            index = index + 1;
            proof {
                assert(consumers@ =~= Seq::new(
                    index as nat,
                    |i: int| spec_decode_consumer(spec_record(image@, layout.consumers_offset as int, i)),
                ));
            }
        }
        Ok(
            VideoTrackControlPage {
                layout,
                mapped_len: map_len,
                header,
                slots,
                configs,
                consumers,
                producer_config: None,
            },
        )
    }

    /// Map the first `map_len` bytes of a page image read-only, validating
    /// its header against the mapping.
    pub fn map_read_only(image: &[u8], map_len: usize) -> (page: CaptureResult<Self>)
        ensures
            page is Ok <==> spec_map_accepts(image@, map_len as nat),
            match page {
                Ok(page) => page.wf() && spec_mapped(image@, map_len as nat, page),
                Err(error) => spec_map_error(image@, map_len as nat, "mmap-read-only"@, error),
            },
    {
        Self::map_image(image, map_len, "mmap-read-only")
    }

    /// Map the first `map_len` bytes of a page image read-write, validating
    /// its header against the mapping.
    pub fn map_read_write(image: &[u8], map_len: usize) -> (page: CaptureResult<Self>)
        ensures
            page is Ok <==> spec_map_accepts(image@, map_len as nat),
            match page {
                Ok(page) => page.wf() && spec_mapped(image@, map_len as nat, page),
                Err(error) => spec_map_error(image@, map_len as nat, "mmap-read-write"@, error),
            },
    {
        Self::map_image(image, map_len, "mmap-read-write")
    }
}

/// Whether `header` declares exactly the geometry of `layout`.
pub open spec fn spec_header_matches_layout(header: VideoTrackControlHeader, layout: VideoTrackControlLayout) -> bool {
    &&& header.magic == VIDEO_TRACK_CONTROL_MAGIC
    &&& header.layout_version == VIDEO_TRACK_CONTROL_VERSION
    &&& header.header_len == HEADER_LEN
    &&& header.slot_len == RECORD_LEN
    &&& header.slot_capacity == layout.slot_capacity
    &&& header.config_len == RECORD_LEN
    &&& header.config_capacity == CONFIG_RING_CAPACITY
    &&& header.consumer_len == RECORD_LEN
    &&& header.consumer_capacity == layout.slot_capacity
    &&& header.slots_offset == layout.slots_offset
    &&& header.configs_offset == layout.configs_offset
    &&& header.consumers_offset == layout.consumers_offset
}

proof fn lemma_region_record(whole: Seq<u8>, before: Seq<u8>, region: Seq<u8>, after: Seq<u8>, i: int)
    requires
        whole == before + region + after,
        0 <= i,
        128 * i + 128 <= region.len(),
    ensures
        spec_record(whole, before.len() as int, i) == spec_record(region, 0, i),
{
    assert(spec_record(whole, before.len() as int, i) =~= spec_record(region, 0, i));
}

/// Law: mapping a page's own image, at its own mapped length, succeeds and
/// gives back the page's header, frame slots, configs and consumer entries.
pub proof fn law_image_maps_back(page: VideoTrackControlPage, mapped: VideoTrackControlPage)
    requires
        page.wf(),
        spec_header_matches_layout(page.header_view(), page.layout_view()),
    ensures
        page.spec_image().len() == page.mapped_len_view(),
        spec_map_accepts(page.spec_image(), page.mapped_len_view()),
        spec_mapped(page.spec_image(), page.mapped_len_view(), mapped) ==> {
            &&& mapped.mapped_len_view() == page.mapped_len_view()
            &&& mapped.layout_view() == page.layout_view()
            &&& mapped.header_view() == page.header_view()
            &&& mapped.slots_view() == page.slots_view()
            &&& mapped.configs_view() == page.configs_view()
            &&& mapped.consumers_view() == page.consumers_view()
        },
{
    let capacity = page.capacity();
    let header_bytes = spec_header_bytes(page.header_view());
    let slot_chunks = spec_slot_chunks(page.slots_view());
    let config_chunks = spec_config_chunks(page.configs_view());
    let consumer_chunks = spec_consumer_chunks(page.consumers_view());
    let slot_bytes = spec_concat(slot_chunks);
    let config_bytes = spec_concat(config_chunks);
    let consumer_bytes = spec_concat(consumer_chunks);
    let padding = spec_zeros((page.mapped_len_view() - page.layout_view().byte_len) as nat);
    let image = page.spec_image();
    lemma_header_round_trip(page.header_view());
    assert forall|j: int| 0 <= j < slot_chunks.len() implies (#[trigger] slot_chunks[j]).len() == 128 by {
        lemma_slot_round_trip(page.slots_view()[j]);
    }
    assert forall|j: int| 0 <= j < config_chunks.len() implies (#[trigger] config_chunks[j]).len() == 128 by {
        lemma_config_round_trip(page.configs_view()[j]);
    }
    assert forall|j: int| 0 <= j < consumer_chunks.len() implies (#[trigger] consumer_chunks[j]).len() == 128 by {
        lemma_consumer_round_trip(page.consumers_view()[j]);
    }
    lemma_concat_records(slot_chunks);
    lemma_concat_records(config_chunks);
    lemma_concat_records(consumer_chunks);
    assert(image == header_bytes + slot_bytes + config_bytes + consumer_bytes + padding);
    assert(image.subrange(0, 256) =~= header_bytes);
    assert(spec_image_header(image) == page.header_view());
    crate::control_page::lemma_ring_capacity_of_power(capacity);
    if spec_mapped(image, page.mapped_len_view(), mapped) {
        assert(mapped.slots_view() =~= page.slots_view()) by {
            assert forall|i: int| 0 <= i < capacity implies mapped.slots_view()[i] == page.slots_view()[i] by {
                assert(image =~= header_bytes + slot_bytes + (config_bytes + consumer_bytes + padding));
                lemma_region_record(image, header_bytes, slot_bytes, config_bytes + consumer_bytes + padding, i);
                lemma_slot_round_trip(page.slots_view()[i]);
            }
        }
        assert(mapped.configs_view() =~= page.configs_view()) by {
            assert forall|i: int| 0 <= i < 4 implies mapped.configs_view()[i] == page.configs_view()[i] by {
                assert(image =~= (header_bytes + slot_bytes) + config_bytes + (consumer_bytes + padding));
                lemma_region_record(image, header_bytes + slot_bytes, config_bytes, consumer_bytes + padding, i);
                lemma_config_round_trip(page.configs_view()[i]);
            }
        }
        assert(mapped.consumers_view() =~= page.consumers_view()) by {
            assert forall|i: int| 0 <= i < capacity implies mapped.consumers_view()[i] == page.consumers_view()[i] by {
                lemma_region_record(image, header_bytes + slot_bytes + config_bytes, consumer_bytes, padding, i);
                lemma_consumer_round_trip(page.consumers_view()[i]);
            }
        }
    }
}

impl VideoTrackControlPage {
    /// Byte offset of frame slot `index`.
    fn slot_offset(&self, index: usize) -> (offset: usize)
        requires
            self.wf(),
            index < self.capacity(),
        ensures
            offset == self.layout_view().slots_offset + 128 * index,
    {
        self.layout.slots_offset + index * self.layout.slot_len
    }

    /// Byte offset of config slot `index`.
    fn config_offset(&self, index: usize) -> (offset: usize)
        requires
            self.wf(),
            index < CONFIG_RING_CAPACITY,
        ensures
            offset == self.layout_view().configs_offset + 128 * index,
    {
        self.layout.configs_offset + index * self.layout.config_len
    }

    /// Byte offset of consumer entry `index`.
    fn consumer_offset(&self, index: usize) -> (offset: usize)
        requires
            self.wf(),
            index < self.capacity(),
        ensures
            offset == self.layout_view().consumers_offset + 128 * index,
    {
        self.layout.consumers_offset + index * self.layout.consumer_len
    }

    /// Byte offsets of the words other processes store to or poll: the two
    /// header cursors and the first word of the first record of each region.
    pub fn hot_field_offsets(&self) -> (offsets: Vec<usize>)
        requires
            self.wf(),
        ensures
            offsets@ == seq![
                128usize,
                136usize,
                self.layout_view().slots_offset,
                self.layout_view().configs_offset,
                self.layout_view().consumers_offset,
            ],
    {
        proof {
            self.lemma_wf_bounds();
        }
        let header = self.layout.header_offset;
        let mut offsets: Vec<usize> = Vec::new();
        offsets.push(header + 128);
        offsets.push(header + 136);
        offsets.push(self.slot_offset(0));
        offsets.push(self.config_offset(0));
        offsets.push(self.consumer_offset(0));
        proof {
            assert(offsets@ =~= seq![
                128usize,
                136usize,
                self.layout_view().slots_offset,
                self.layout_view().configs_offset,
                self.layout_view().consumers_offset,
            ]);
        }
        offsets
    }
}

} // verus!
