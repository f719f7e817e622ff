//! The video track control page: a broadcast ring of frame descriptors, a
//! small ring of stream configurations, and a consumer-cursor table.
//!
//! Record geometry follows the jackstay ring layout: a 256-byte header, then
//! `slot_capacity` frame slots, four stream configs and `slot_capacity`
//! consumer entries, each record one 128-byte cache line. Cursors count
//! published frames from 1; cursor `c` lives in slot `(c - 1) mod capacity`,
//! and the configuration generation `g` lives in config slot `g mod 4`.

pub mod mapping;

use vstd::arithmetic::div_mod::{lemma_mod_equivalence, lemma_small_mod};
use vstd::arithmetic::power2::*;
use vstd::bits::*;
use vstd::prelude::*;
use vstd::string::*;

use crate::error::{CaptureTransferError, Result as CaptureResult};
use crate::text::{decimal_string, spec_decimal};

verus! {

pub const CONTROL_PAGE_ALIGNMENT: usize = 128;

/// `"JSFRING1"` read as a little-endian `u64`.
pub const VIDEO_TRACK_CONTROL_MAGIC: u64 = 0x3147_4e49_5246_534a;

pub const VIDEO_TRACK_CONTROL_VERSION: u32 = 3;

/// Number of stream-config generations the page keeps; a power of two.
pub const CONFIG_RING_CAPACITY: usize = 4;

pub const HEADER_LEN: usize = 256;

/// Byte length of one frame slot, one stream config and one consumer entry.
pub const RECORD_LEN: usize = 128;

/// The page header. Geometry is written once at creation; the two cursors
/// are the only words that change afterwards.
#[derive(Debug, Clone, Copy, PartialEq, Eq, Structural)]
pub struct VideoTrackControlHeader {
    pub magic: u64,
    pub layout_version: u32,
    pub header_len: u32,
    pub slot_len: u32,
    pub slot_capacity: u32,
    pub config_len: u32,
    pub config_capacity: u32,
    pub consumer_len: u32,
    pub consumer_capacity: u32,
    pub slots_offset: u32,
    pub configs_offset: u32,
    pub consumers_offset: u32,
    /// Count of published frames; 0 means the ring is empty.
    pub producer_cursor: u64,
    /// Latest stream config generation; 0 means none published yet.
    pub config_cursor: u64,
}

/// One published frame descriptor.
#[derive(Debug, Clone, Copy, PartialEq, Eq, Structural)]
pub struct FrameSlot {
    /// 0 while being rewritten, else the producer cursor it was published at.
    pub publication_sequence: u64,
    pub sequence: u64,
    pub timestamp_ns: u64,
    pub pool_id: u64,
    pub payload_offset: u64,
    pub payload_len: u64,
    pub fence_value: u64,
    pub damage_base_sequence: u64,
    pub producer_drop_count: u64,
    pub slot_id: u32,
    pub config_generation: u32,
    pub payload_kind: u32,
    pub damage_kind: u32,
    pub dropped_before_publish: u32,
    pub flags: u32,
}

/// The all-zero frame slot.
pub open spec fn spec_zero_slot() -> FrameSlot {
    FrameSlot {
        publication_sequence: 0,
        sequence: 0,
        timestamp_ns: 0,
        pool_id: 0,
        payload_offset: 0,
        payload_len: 0,
        fence_value: 0,
        damage_base_sequence: 0,
        producer_drop_count: 0,
        slot_id: 0,
        config_generation: 0,
        payload_kind: 0,
        damage_kind: 0,
        dropped_before_publish: 0,
        flags: 0,
    }
}

impl Default for FrameSlot {
    fn default() -> (slot: Self)
        ensures
            slot == spec_zero_slot(),
    {
        FrameSlot {
            publication_sequence: 0,
            sequence: 0,
            timestamp_ns: 0,
            pool_id: 0,
            payload_offset: 0,
            payload_len: 0,
            fence_value: 0,
            damage_base_sequence: 0,
            producer_drop_count: 0,
            slot_id: 0,
            config_generation: 0,
            payload_kind: 0,
            damage_kind: 0,
            dropped_before_publish: 0,
            flags: 0,
        }
    }
}

/// Per-stream values that change only on reconfigure.
#[derive(Debug, Clone, Copy, PartialEq, Eq, Structural)]
pub struct StreamConfig {
    /// 0 while being rewritten, else the generation it holds.
    pub config_generation: u64,
    pub width: u32,
    pub height: u32,
    pub stride: u32,
    pub pixel_format: u32,
    pub color_space: u32,
    pub clock_domain: u32,
    pub sync_kind: u32,
    pub reserved0: u32,
    pub modifier: u64,
    pub fence_id: u64,
}

/// The all-zero stream config.
pub open spec fn spec_zero_config() -> StreamConfig {
    StreamConfig {
        config_generation: 0,
        width: 0,
        height: 0,
        stride: 0,
        pixel_format: 0,
        color_space: 0,
        clock_domain: 0,
        sync_kind: 0,
        reserved0: 0,
        modifier: 0,
        fence_id: 0,
    }
}

impl Default for StreamConfig {
    fn default() -> (config: Self)
        ensures
            config == spec_zero_config(),
    {
        StreamConfig {
            config_generation: 0,
            width: 0,
            height: 0,
            stride: 0,
            pixel_format: 0,
            color_space: 0,
            clock_domain: 0,
            sync_kind: 0,
            reserved0: 0,
            modifier: 0,
            fence_id: 0,
        }
    }
}

/// One consumer's cursor-table entry; `consumer_id == 0` marks a free entry.
#[derive(Debug, Clone, Copy, PartialEq, Eq, Structural)]
pub struct VideoConsumerCursorEntry {
    pub consumer_id: u64,
    /// Frames at or below this cursor are no longer being sampled.
    pub release_cursor: u64,
    pub last_acquired_cursor: u64,
    pub last_acquired_sequence: u64,
    pub acquired_count: u64,
    pub skipped_count: u64,
}

/// The free (all-zero) consumer entry.
pub open spec fn spec_zero_consumer() -> VideoConsumerCursorEntry {
    VideoConsumerCursorEntry {
        consumer_id: 0,
        release_cursor: 0,
        last_acquired_cursor: 0,
        last_acquired_sequence: 0,
        acquired_count: 0,
        skipped_count: 0,
    }
}

impl Default for VideoConsumerCursorEntry {
    fn default() -> (entry: Self)
        ensures
            entry == spec_zero_consumer(),
    {
        VideoConsumerCursorEntry {
            consumer_id: 0,
            release_cursor: 0,
            last_acquired_cursor: 0,
            last_acquired_sequence: 0,
            acquired_count: 0,
            skipped_count: 0,
        }
    }
}

/// A frame as a producer submits it: per-frame values plus stream values.
#[derive(Debug, Clone, Copy, PartialEq, Eq, Structural)]
pub struct PendingVideoRingEntry {
    pub sequence: u64,
    pub timestamp_ns: u64,
    pub width: u32,
    pub height: u32,
    pub stride: u32,
    pub pixel_format: u32,
    pub pool_id: u64,
    pub slot_id: u32,
    pub payload_offset: u64,
    pub payload_len: u64,
    pub clock_domain: u32,
    pub color_space: u32,
    pub sync_kind: u32,
    pub damage_kind: u32,
    pub damage_base_sequence: u64,
    pub dropped_before_publish: u32,
    pub producer_drop_count: u64,
    pub payload_kind: u32,
    pub modifier: u64,
    pub fence_id: u64,
    pub fence_value: u64,
    pub flags: u32,
}

/// A validated read: a frame slot merged with the stream config it names.
#[derive(Debug, Clone, Copy, PartialEq, Eq, Structural)]
pub struct VideoRingEntry {
    pub cursor: u64,
    pub sequence: u64,
    pub timestamp_ns: u64,
    pub config_generation: u64,
    pub width: u32,
    pub height: u32,
    pub stride: u32,
    pub pixel_format: u32,
    pub pool_id: u64,
    pub slot_id: u32,
    pub payload_offset: u64,
    pub payload_len: u64,
    pub clock_domain: u32,
    pub color_space: u32,
    pub sync_kind: u32,
    pub damage_kind: u32,
    pub damage_base_sequence: u64,
    pub dropped_before_publish: u32,
    pub producer_drop_count: u64,
    pub payload_kind: u32,
    pub modifier: u64,
    pub fence_id: u64,
    pub fence_value: u64,
    pub flags: u32,
}

/// The entry a reader sees for `cursor` given its slot and the config it names.
pub open spec fn spec_entry_from_parts(cursor: u64, slot: FrameSlot, config: StreamConfig) -> VideoRingEntry {
    VideoRingEntry {
        cursor,
        sequence: slot.sequence,
        timestamp_ns: slot.timestamp_ns,
        config_generation: config.config_generation,
        width: config.width,
        height: config.height,
        stride: config.stride,
        pixel_format: config.pixel_format,
        pool_id: slot.pool_id,
        slot_id: slot.slot_id,
        payload_offset: slot.payload_offset,
        payload_len: slot.payload_len,
        clock_domain: config.clock_domain,
        color_space: config.color_space,
        sync_kind: config.sync_kind,
        damage_kind: slot.damage_kind,
        damage_base_sequence: slot.damage_base_sequence,
        dropped_before_publish: slot.dropped_before_publish,
        producer_drop_count: slot.producer_drop_count,
        payload_kind: slot.payload_kind,
        modifier: config.modifier,
        fence_id: config.fence_id,
        fence_value: slot.fence_value,
        flags: slot.flags,
    }
}

impl VideoRingEntry {
    pub fn from_parts(cursor: u64, slot: &FrameSlot, config: &StreamConfig) -> (entry: Self)
        ensures
            entry == spec_entry_from_parts(cursor, *slot, *config),
    {
        VideoRingEntry {
            cursor,
            sequence: slot.sequence,
            timestamp_ns: slot.timestamp_ns,
            config_generation: config.config_generation,
            width: config.width,
            height: config.height,
            stride: config.stride,
            pixel_format: config.pixel_format,
            pool_id: slot.pool_id,
            slot_id: slot.slot_id,
            payload_offset: slot.payload_offset,
            payload_len: slot.payload_len,
            clock_domain: config.clock_domain,
            color_space: config.color_space,
            sync_kind: config.sync_kind,
            damage_kind: slot.damage_kind,
            damage_base_sequence: slot.damage_base_sequence,
            dropped_before_publish: slot.dropped_before_publish,
            producer_drop_count: slot.producer_drop_count,
            payload_kind: slot.payload_kind,
            modifier: config.modifier,
            fence_id: config.fence_id,
            fence_value: slot.fence_value,
            flags: slot.flags,
        }
    }
}

#[derive(Debug, Clone, Copy, PartialEq, Eq, Structural)]
pub enum VideoRingReadError {
    Empty,
    NotPublished { requested_cursor: u64, latest_cursor: u64 },
    Lapped { requested_cursor: u64, oldest_live_cursor: u64, latest_cursor: u64 },
    SlotSequenceMismatch { requested_cursor: u64, first_sequence: u64, second_sequence: u64 },
    ConfigOverwritten {
        requested_cursor: u64,
        requested_generation: u64,
        first_generation: u64,
        second_generation: u64,
    },
}

/// The human-readable description of a ring read failure.
pub open spec fn spec_read_error_message(error: VideoRingReadError) -> Seq<char> {
    match error {
        VideoRingReadError::Empty => "video ring is empty"@,
        VideoRingReadError::NotPublished { requested_cursor, latest_cursor } => "video ring cursor "@
            + spec_decimal(requested_cursor as nat) + " is not published yet; latest cursor is "@
            + spec_decimal(latest_cursor as nat),
        VideoRingReadError::Lapped { requested_cursor, oldest_live_cursor, latest_cursor } =>
            "video ring cursor "@ + spec_decimal(requested_cursor as nat)
                + " has been lapped; oldest live cursor is "@ + spec_decimal(oldest_live_cursor as nat)
                + ", latest cursor is "@ + spec_decimal(latest_cursor as nat),
        VideoRingReadError::SlotSequenceMismatch { requested_cursor, first_sequence, second_sequence } =>
            "video ring cursor "@ + spec_decimal(requested_cursor as nat)
                + " slot sequence mismatch: first read "@ + spec_decimal(first_sequence as nat)
                + ", second read "@ + spec_decimal(second_sequence as nat),
        VideoRingReadError::ConfigOverwritten {
            requested_cursor,
            requested_generation,
            first_generation,
            second_generation,
        } => "video ring cursor "@ + spec_decimal(requested_cursor as nat)
            + " names stream config generation "@ + spec_decimal(requested_generation as nat)
            + " which is no longer live: first read "@ + spec_decimal(first_generation as nat)
            + ", second read "@ + spec_decimal(second_generation as nat),
    }
}

fn append_number(text: &mut String, value: u64)
    ensures
        final(text)@ == old(text)@ + spec_decimal(value as nat),
{
    let number = decimal_string(value);
    text.append(number.as_str());
}

impl VideoRingReadError {
    /// The error's message, as its `Display` form would print it.
    pub fn to_message(&self) -> (text: String)
        ensures
            text@ == spec_read_error_message(*self),
    {
        match self {
            VideoRingReadError::Empty => String::from_str("video ring is empty"),
            VideoRingReadError::NotPublished { requested_cursor, latest_cursor } => {
                let mut text = String::from_str("video ring cursor ");
                append_number(&mut text, *requested_cursor);
                text.append(" is not published yet; latest cursor is ");
                append_number(&mut text, *latest_cursor);
                text
            },
            VideoRingReadError::Lapped { requested_cursor, oldest_live_cursor, latest_cursor } => {
                let mut text = String::from_str("video ring cursor ");
                append_number(&mut text, *requested_cursor);
                text.append(" has been lapped; oldest live cursor is ");
                append_number(&mut text, *oldest_live_cursor);
                text.append(", latest cursor is ");
                append_number(&mut text, *latest_cursor);
                text
            },
            VideoRingReadError::SlotSequenceMismatch {
                requested_cursor,
                first_sequence,
                second_sequence,
            } => {
                let mut text = String::from_str("video ring cursor ");
                append_number(&mut text, *requested_cursor);
                text.append(" slot sequence mismatch: first read ");
                append_number(&mut text, *first_sequence);
                text.append(", second read ");
                append_number(&mut text, *second_sequence);
                text
            },
            VideoRingReadError::ConfigOverwritten {
                requested_cursor,
                requested_generation,
                first_generation,
                second_generation,
            } => {
                let mut text = String::from_str("video ring cursor ");
                append_number(&mut text, *requested_cursor);
                text.append(" names stream config generation ");
                append_number(&mut text, *requested_generation);
                text.append(" which is no longer live: first read ");
                append_number(&mut text, *first_generation);
                text.append(", second read ");
                append_number(&mut text, *second_generation);
                text
            },
        }
    }
}


/// Byte offsets and record geometry of a control page.
#[derive(Debug, Clone, Copy, PartialEq, Eq, Structural)]
pub struct VideoTrackControlLayout {
    pub header_offset: usize,
    pub slots_offset: usize,
    pub slot_len: usize,
    pub slot_capacity: usize,
    pub configs_offset: usize,
    pub config_len: usize,
    pub config_capacity: usize,
    pub consumers_offset: usize,
    pub consumer_len: usize,
    pub consumer_capacity: usize,
    pub byte_len: usize,
}

/// The smallest `k` with `2^k >= n` (0 for `n <= 1`).
pub open spec fn spec_ceil_log2(n: nat) -> nat
    decreases n,
{
    if n <= 1 {
        0
    } else {
        spec_ceil_log2(((n + 1) / 2) as nat) + 1
    }
}

/// The ring capacity a requested capacity rounds to: the least power of two
/// that is at least `max(requested, 1)`.
pub open spec fn spec_ring_capacity(requested: nat) -> nat {
    pow2(spec_ceil_log2(requested))
}

/// Total bytes of a page whose ring holds `slot_capacity` slots.
pub open spec fn spec_page_len(slot_capacity: nat) -> nat {
    (HEADER_LEN + slot_capacity * RECORD_LEN + CONFIG_RING_CAPACITY * RECORD_LEN + slot_capacity
        * RECORD_LEN) as nat
}

/// Whether a page with `slot_capacity` slots can be laid out in `usize` bytes.
pub open spec fn spec_layout_fits(slot_capacity: nat) -> bool {
    spec_page_len(slot_capacity) <= usize::MAX
}

/// The layout of a page with `slot_capacity` ring slots.
pub open spec fn spec_layout(slot_capacity: nat) -> VideoTrackControlLayout {
    VideoTrackControlLayout {
        header_offset: 0,
        slots_offset: HEADER_LEN,
        slot_len: RECORD_LEN,
        slot_capacity: slot_capacity as usize,
        configs_offset: (HEADER_LEN + slot_capacity * RECORD_LEN) as usize,
        config_len: RECORD_LEN,
        config_capacity: CONFIG_RING_CAPACITY,
        consumers_offset: (HEADER_LEN + slot_capacity * RECORD_LEN + CONFIG_RING_CAPACITY
            * RECORD_LEN) as usize,
        consumer_len: RECORD_LEN,
        consumer_capacity: slot_capacity as usize,
        byte_len: spec_page_len(slot_capacity) as usize,
    }
}

proof fn lemma_ceil_log2_covers(n: nat)
    ensures
        pow2(spec_ceil_log2(n)) >= n,
        n >= 1 && spec_ceil_log2(n) > 0 ==> pow2((spec_ceil_log2(n) - 1) as nat) < n,
    decreases n,
{
    reveal(pow2);
    if n <= 1 {
        lemma_pow2_pos(0);
    } else {
        let half = ((n + 1) / 2) as nat;
        lemma_ceil_log2_covers(half);
        lemma_pow2_unfold(spec_ceil_log2(n));
        if spec_ceil_log2(half) > 0 {
            lemma_pow2_unfold(spec_ceil_log2(half));
        } else {
            lemma2_to64();
        }
    }
}

proof fn lemma_ceil_log2_least(n: nat, k: nat)
    requires
        pow2(k) >= n,
    ensures
        spec_ceil_log2(n) <= k,
    decreases n,
{
    if n > 1 {
        lemma2_to64();
        if k == 0 {
            assert(false);
        } else {
            lemma_pow2_unfold(k);
            lemma_ceil_log2_least(((n + 1) / 2) as nat, (k - 1) as nat);
        }
    }
}

/// The capacity a ring of `requested` slots is rounded up to.
fn ring_capacity_for(requested: usize) -> (capacity: usize)
    requires
        spec_ring_capacity(requested as nat) <= usize::MAX,
    ensures
        capacity == spec_ring_capacity(requested as nat),
{
    let target: usize = if requested == 0 { 1 } else { requested };
    proof {
        assert(spec_ceil_log2(target as nat) == spec_ceil_log2(requested as nat));
        lemma_ceil_log2_covers(target as nat);
        lemma2_to64();
    }
    let mut capacity: usize = 1;
    let ghost mut exponent: nat = 0;
    while capacity < target
        invariant
            target >= 1,
            capacity >= 1,
            capacity == pow2(exponent),
            exponent <= spec_ceil_log2(target as nat),
            pow2(spec_ceil_log2(target as nat)) <= usize::MAX,
            spec_ceil_log2(target as nat) == spec_ceil_log2(requested as nat),
        decreases spec_ceil_log2(target as nat) - exponent,
    {
        proof {
            if exponent == spec_ceil_log2(target as nat) {
                lemma_ceil_log2_covers(target as nat);
                assert(false);
            }
            lemma_pow2_unfold(exponent + 1);
            if exponent + 1 < spec_ceil_log2(target as nat) {
                lemma_pow2_strictly_increases(exponent + 1, spec_ceil_log2(target as nat));
            }
        }
        capacity = capacity * 2;
        proof {
            exponent = exponent + 1;
        }
    }
    proof {
        lemma_ceil_log2_least(target as nat, exponent);
    }
    capacity
}

impl VideoTrackControlLayout {
    /// The layout of a page whose ring holds `capacity` slots, rounded up to
    /// a power of two.
    pub fn for_capacity(capacity: usize) -> (layout: Self)
        requires
            spec_layout_fits(spec_ring_capacity(capacity as nat)),
        ensures
            layout == spec_layout(spec_ring_capacity(capacity as nat)),
    {
        let slot_capacity = ring_capacity_for(capacity);
        let slots_len = slot_capacity * RECORD_LEN;
        let configs_offset = HEADER_LEN + slots_len;
        let configs_len = CONFIG_RING_CAPACITY * RECORD_LEN;
        let consumers_offset = configs_offset + configs_len;
        let consumers_len = slot_capacity * RECORD_LEN;
        let byte_len = consumers_offset + consumers_len;
        VideoTrackControlLayout {
            header_offset: 0,
            slots_offset: HEADER_LEN,
            slot_len: RECORD_LEN,
            slot_capacity,
            configs_offset,
            config_len: RECORD_LEN,
            config_capacity: CONFIG_RING_CAPACITY,
            consumers_offset,
            consumer_len: RECORD_LEN,
            consumer_capacity: slot_capacity,
            byte_len,
        }
    }

    /// The mask that maps `cursor - 1` to its ring slot.
    pub fn slot_index_mask(&self) -> (mask: u64)
        requires
            self.slot_capacity >= 1,
        ensures
            mask == self.slot_capacity - 1,
    {
        (self.slot_capacity - 1) as u64
    }

    /// The mask that maps a config generation to its config slot.
    pub fn config_index_mask(&self) -> (mask: u64)
        requires
            self.config_capacity >= 1,
        ensures
            mask == self.config_capacity - 1,
    {
        (self.config_capacity - 1) as u64
    }
}


/// The header a freshly created page carries for `layout`.
pub open spec fn spec_initial_header(layout: VideoTrackControlLayout) -> VideoTrackControlHeader {
    VideoTrackControlHeader {
        magic: VIDEO_TRACK_CONTROL_MAGIC,
        layout_version: VIDEO_TRACK_CONTROL_VERSION,
        header_len: HEADER_LEN as u32,
        slot_len: layout.slot_len as u32,
        slot_capacity: layout.slot_capacity as u32,
        config_len: layout.config_len as u32,
        config_capacity: layout.config_capacity as u32,
        consumer_len: layout.consumer_len as u32,
        consumer_capacity: layout.consumer_capacity as u32,
        slots_offset: layout.slots_offset as u32,
        configs_offset: layout.configs_offset as u32,
        consumers_offset: layout.consumers_offset as u32,
        producer_cursor: 0,
        config_cursor: 0,
    }
}

/// The stream-level values of a pending entry, as a config body (generation 0).
pub open spec fn spec_stream_body(entry: PendingVideoRingEntry) -> StreamConfig {
    StreamConfig {
        config_generation: 0,
        width: entry.width,
        height: entry.height,
        stride: entry.stride,
        pixel_format: entry.pixel_format,
        color_space: entry.color_space,
        clock_domain: entry.clock_domain,
        sync_kind: entry.sync_kind,
        reserved0: 0,
        modifier: entry.modifier,
        fence_id: entry.fence_id,
    }
}

/// The frame slot a pending entry is published as.
pub open spec fn spec_slot_from_pending(entry: PendingVideoRingEntry, cursor: u64, generation: u64) -> FrameSlot {
    FrameSlot {
        publication_sequence: cursor,
        sequence: entry.sequence,
        timestamp_ns: entry.timestamp_ns,
        pool_id: entry.pool_id,
        payload_offset: entry.payload_offset,
        payload_len: entry.payload_len,
        fence_value: entry.fence_value,
        damage_base_sequence: entry.damage_base_sequence,
        producer_drop_count: entry.producer_drop_count,
        slot_id: entry.slot_id,
        config_generation: generation as u32,
        payload_kind: entry.payload_kind,
        damage_kind: entry.damage_kind,
        dropped_before_publish: entry.dropped_before_publish,
        flags: entry.flags,
    }
}

/// The entry a reader gets back for a frame pushed as `entry` at `cursor`
/// under config generation `generation`.
pub open spec fn spec_published_entry(entry: PendingVideoRingEntry, cursor: u64, generation: u64) -> VideoRingEntry {
    spec_entry_from_parts(
        cursor,
        spec_slot_from_pending(entry, cursor, generation),
        StreamConfig { config_generation: generation, ..spec_stream_body(entry) },
    )
}

/// Whether `capacity` is `2^k` for some `k` below 64.
pub open spec fn spec_is_ring_capacity(capacity: nat) -> bool {
    exists|k: nat| k < 64 && pow2(k) == capacity
}

/// A control page. The ring, config ring and consumer table are held as
/// records; `wire` turns a page into its byte image and back.
#[derive(Debug)]
pub struct VideoTrackControlPage {
    layout: VideoTrackControlLayout,
    mapped_len: usize,
    header: VideoTrackControlHeader,
    slots: Vec<FrameSlot>,
    configs: Vec<StreamConfig>,
    consumers: Vec<VideoConsumerCursorEntry>,
    /// Producer-side cache of the live config body and its generation.
    producer_config: Option<(u64, StreamConfig)>,
}

impl VideoTrackControlPage {
    pub closed spec fn layout_view(&self) -> VideoTrackControlLayout {
        self.layout
    }

    pub closed spec fn mapped_len_view(&self) -> nat {
        self.mapped_len as nat
    }

    pub closed spec fn header_view(&self) -> VideoTrackControlHeader {
        self.header
    }

    pub closed spec fn slots_view(&self) -> Seq<FrameSlot> {
        self.slots@
    }

    pub closed spec fn configs_view(&self) -> Seq<StreamConfig> {
        self.configs@
    }

    pub closed spec fn consumers_view(&self) -> Seq<VideoConsumerCursorEntry> {
        self.consumers@
    }

    pub closed spec fn cached_config(&self) -> Option<(u64, StreamConfig)> {
        self.producer_config
    }

    pub open spec fn capacity(&self) -> nat {
        self.layout_view().slot_capacity as nat
    }

    pub open spec fn latest(&self) -> u64 {
        self.header_view().producer_cursor
    }

    /// The oldest cursor still in the ring (meaningful when not empty).
    pub open spec fn oldest_live(&self) -> int {
        let latest = self.latest() as int;
        let live = if latest < self.capacity() { latest } else { self.capacity() as int };
        latest - live + 1
    }

    pub open spec fn is_live(&self, cursor: u64) -> bool {
        &&& self.latest() > 0
        &&& self.oldest_live() <= cursor <= self.latest()
    }

    /// The ring slot holding `cursor`.
    pub open spec fn slot_index(&self, cursor: u64) -> int {
        (cursor as int - 1) % (self.capacity() as int)
    }

    /// Structural well-formedness of a page.
    pub open spec fn wf(&self) -> bool {
        &&& spec_is_ring_capacity(self.capacity())
        &&& spec_layout_fits(self.capacity())
        &&& self.layout_view() == spec_layout(self.capacity())
        &&& self.mapped_len_view() >= self.layout_view().byte_len
        &&& self.slots_view().len() == self.capacity()
        &&& self.configs_view().len() == CONFIG_RING_CAPACITY
        &&& self.consumers_view().len() == self.capacity()
        &&& match self.cached_config() {
            Some((generation, body)) => {
                &&& generation >= 1
                &&& generation <= u32::MAX
                &&& generation == self.header_view().config_cursor
                &&& body.config_generation == 0
                &&& self.configs_view()[(generation % 4) as int] == StreamConfig {
                    config_generation: generation,
                    ..body
                }
            },
            None => true,
        }
    }

    /// What reading config generation `generation` yields: the config, or
    /// the two observed generation words when it is no longer live.
    pub open spec fn spec_read_config(&self, generation: u64) -> core::result::Result<StreamConfig, (u64, u64)> {
        if generation == 0 {
            Err((0, 0))
        } else {
            let stored = self.configs_view()[(generation % 4) as int];
            if stored.config_generation != generation {
                Err((stored.config_generation, stored.config_generation))
            } else {
                Ok(stored)
            }
        }
    }

    /// What reading `cursor` yields.
    pub open spec fn spec_read_entry(&self, cursor: u64) -> core::result::Result<VideoRingEntry, VideoRingReadError> {
        let latest = self.latest();
        if latest == 0 {
            Err(VideoRingReadError::Empty)
        } else if cursor > latest {
            Err(VideoRingReadError::NotPublished { requested_cursor: cursor, latest_cursor: latest })
        } else if cursor < self.oldest_live() {
            Err(
                VideoRingReadError::Lapped {
                    requested_cursor: cursor,
                    oldest_live_cursor: self.oldest_live() as u64,
                    latest_cursor: latest,
                },
            )
        } else {
            let slot = self.slots_view()[self.slot_index(cursor)];
            if slot.publication_sequence != cursor {
                Err(
                    VideoRingReadError::SlotSequenceMismatch {
                        requested_cursor: cursor,
                        first_sequence: slot.publication_sequence,
                        second_sequence: slot.publication_sequence,
                    },
                )
            } else {
                match self.spec_read_config(slot.config_generation as u64) {
                    Err((first, second)) => Err(
                        VideoRingReadError::ConfigOverwritten {
                            requested_cursor: cursor,
                            requested_generation: slot.config_generation as u64,
                            first_generation: first,
                            second_generation: second,
                        },
                    ),
                    Ok(config) => Ok(spec_entry_from_parts(cursor, slot, config)),
                }
            }
        }
    }

    /// Whether the producer's cached config already holds `entry`'s stream values.
    pub open spec fn spec_reuses_config(&self, entry: PendingVideoRingEntry) -> bool {
        match self.cached_config() {
            Some((_, body)) => body == spec_stream_body(entry),
            None => false,
        }
    }

    /// The config generation a push of `entry` names.
    pub open spec fn spec_push_generation(&self, entry: PendingVideoRingEntry) -> u64 {
        match self.cached_config() {
            Some((generation, body)) => if body == spec_stream_body(entry) {
                generation
            } else {
                (self.header_view().config_cursor + 1) as u64
            },
            None => (self.header_view().config_cursor + 1) as u64,
        }
    }

    /// Whether a push may proceed: the cursor stays below `u64::MAX` and a
    /// new config generation still fits the slot's 32-bit field.
    pub open spec fn spec_can_push(&self, entry: PendingVideoRingEntry) -> bool {
        &&& self.latest() < u64::MAX - 1
        &&& !self.spec_reuses_config(entry) ==> self.header_view().config_cursor < u32::MAX
    }
}

/// `new` is `old` after pushing `entry`, which was published at `cursor`.
pub open spec fn spec_pushed(
    old: VideoTrackControlPage,
    entry: PendingVideoRingEntry,
    new: VideoTrackControlPage,
    cursor: u64,
) -> bool {
    let generation = old.spec_push_generation(entry);
    &&& cursor == old.latest() + 1
    &&& new.layout_view() == old.layout_view()
    &&& new.mapped_len_view() == old.mapped_len_view()
    &&& new.header_view() == VideoTrackControlHeader {
        producer_cursor: cursor,
        config_cursor: generation,
        ..old.header_view()
    }
    &&& new.slots_view() == old.slots_view().update(
        old.slot_index(cursor),
        spec_slot_from_pending(entry, cursor, generation),
    )
    &&& new.configs_view() == if old.spec_reuses_config(entry) {
        old.configs_view()
    } else {
        old.configs_view().update(
            (generation % 4) as int,
            StreamConfig { config_generation: generation, ..spec_stream_body(entry) },
        )
    }
    &&& new.consumers_view() == old.consumers_view()
    &&& new.cached_config() == Some((generation, spec_stream_body(entry)))
}

proof fn lemma_ring_capacity_exponent(requested: nat)
    requires
        spec_layout_fits(spec_ring_capacity(requested)),
    ensures
        spec_is_ring_capacity(spec_ring_capacity(requested)),
        spec_ring_capacity(requested) >= 1,
{
    let k = spec_ceil_log2(requested);
    lemma_pow2_pos(k);
    if k >= 64 {
        lemma2_to64();
        if k > 64 {
            lemma_pow2_strictly_increases(64, k);
        }
        assert(false);
    }
}

/// A ring capacity rounds to itself.
pub(crate) proof fn lemma_ring_capacity_of_power(capacity: nat)
    requires
        spec_is_ring_capacity(capacity),
    ensures
        spec_ring_capacity(capacity) == capacity,
{
    let k = choose|k: nat| k < 64 && pow2(k) == capacity;
    lemma_ceil_log2_least(capacity, k);
    lemma_ceil_log2_covers(capacity);
    if spec_ceil_log2(capacity) < k {
        lemma_pow2_strictly_increases(spec_ceil_log2(capacity), k);
    }
}

/// `x & (capacity - 1)` is `x mod capacity` for a ring capacity.
proof fn lemma_mask_is_mod(x: u64, capacity: nat)
    requires
        spec_is_ring_capacity(capacity),
    ensures
        capacity >= 1,
        x & ((capacity - 1) as u64) == x % (capacity as u64),
{
    let k = choose|k: nat| k < 64 && pow2(k) == capacity;
    lemma_pow2_pos(k);
    lemma_u64_pow2_no_overflow(k);
    lemma_u64_low_bits_mask_is_mod(x, k);
}

fn invalid_control_page(message: &str) -> (error: CaptureTransferError)
    ensures
        spec_is_page_error(error, message@),
{
    CaptureTransferError::SharedMemory { operation: "validate-control-page", message: String::from_str(message) }
}

/// `error` is a control-page validation failure carrying `message`.
pub open spec fn spec_is_page_error(error: CaptureTransferError, message: Seq<char>) -> bool {
    match error {
        CaptureTransferError::SharedMemory { operation, message: text } => {
            &&& operation@ == "validate-control-page"@
            &&& text@ == message
        },
        _ => false,
    }
}

impl VideoTrackControlPage {
    /// A fresh page whose ring holds `capacity` slots rounded up to a power
    /// of two, with every record zeroed and the geometry header written.
    pub fn new(capacity: usize) -> (page: Self)
        requires
            spec_layout_fits(spec_ring_capacity(capacity as nat)),
        ensures
            page.wf(),
            page.layout_view() == spec_layout(spec_ring_capacity(capacity as nat)),
            page.mapped_len_view() == page.layout_view().byte_len,
            page.header_view() == spec_initial_header(page.layout_view()),
            page.slots_view() == Seq::new(page.capacity(), |i: int| spec_zero_slot()),
            page.configs_view() == Seq::new(CONFIG_RING_CAPACITY as nat, |i: int| spec_zero_config()),
            page.consumers_view() == Seq::new(page.capacity(), |i: int| spec_zero_consumer()),
            page.cached_config() is None,
    {
        let layout = VideoTrackControlLayout::for_capacity(capacity);
        proof {
            lemma_ring_capacity_exponent(capacity as nat);
        }
        let mut slots: Vec<FrameSlot> = Vec::new();
        let mut consumers: Vec<VideoConsumerCursorEntry> = Vec::new();
        let mut index: usize = 0;
        while index < layout.slot_capacity
            invariant
                index <= layout.slot_capacity,
                slots@ == Seq::new(index as nat, |i: int| spec_zero_slot()),
                consumers@ == Seq::new(index as nat, |i: int| spec_zero_consumer()),
            decreases layout.slot_capacity - index,
        {
            slots.push(FrameSlot::default());
            consumers.push(VideoConsumerCursorEntry::default());
            index = index + 1;
        }
        let mut configs: Vec<StreamConfig> = Vec::new();
        let mut index: usize = 0;
        while index < CONFIG_RING_CAPACITY
            invariant
                index <= CONFIG_RING_CAPACITY,
                configs@ == Seq::new(index as nat, |i: int| spec_zero_config()),
            decreases CONFIG_RING_CAPACITY - index,
        {
            configs.push(StreamConfig::default());
            index = index + 1;
        }
        let header = VideoTrackControlHeader {
            magic: VIDEO_TRACK_CONTROL_MAGIC,
            layout_version: VIDEO_TRACK_CONTROL_VERSION,
            header_len: HEADER_LEN as u32,
            slot_len: layout.slot_len as u32,
            slot_capacity: layout.slot_capacity as u32,
            config_len: layout.config_len as u32,
            config_capacity: layout.config_capacity as u32,
            consumer_len: layout.consumer_len as u32,
            consumer_capacity: layout.consumer_capacity as u32,
            slots_offset: layout.slots_offset as u32,
            configs_offset: layout.configs_offset as u32,
            consumers_offset: layout.consumers_offset as u32,
            producer_cursor: 0,
            config_cursor: 0,
        };
        VideoTrackControlPage {
            layout,
            mapped_len: layout.byte_len,
            header,
            slots,
            configs,
            consumers,
            producer_config: None,
        }
    }

    pub fn layout(&self) -> (layout: VideoTrackControlLayout)
        ensures
            layout == self.layout_view(),
    {
        self.layout
    }

    /// Length of the page's mapping in bytes.
    pub fn mapped_len(&self) -> (len: usize)
        ensures
            len == self.mapped_len_view(),
    {
        self.mapped_len
    }

    /// The page header as currently published.
    pub fn header(&self) -> (header: VideoTrackControlHeader)
        ensures
            header == self.header_view(),
    {
        self.header
    }

    /// The ring slot for `cursor`, computed with the capacity mask.
    fn slot_index_for(&self, cursor: u64) -> (index: usize)
        requires
            self.wf(),
            cursor >= 1,
        ensures
            index == self.slot_index(cursor),
            index < self.capacity(),
    {
        proof {
            lemma_mask_is_mod((cursor - 1) as u64, self.capacity());
        }
        let mask = self.layout.slot_index_mask();
        ((cursor - 1) & mask) as usize
    }

    /// The config slot for `generation`.
    fn config_index_for(&self, generation: u64) -> (index: usize)
        requires
            self.wf(),
        ensures
            index == generation % 4,
    {
        let mask = self.layout.config_index_mask();
        assert(generation & 3 == generation % 4) by (bit_vector);
        (generation & mask) as usize
    }

    /// Publish `entry` and return its cursor. Unchanged stream values reuse
    /// the live config generation; changed ones publish the next generation.
    pub fn push(&mut self, entry: PendingVideoRingEntry) -> (cursor: u64)
        requires
            old(self).wf(),
            old(self).spec_can_push(entry),
        ensures
            final(self).wf(),
            spec_pushed(*old(self), entry, *final(self), cursor),
    {
        let config_generation = self.ensure_stream_config(&entry);
        let cursor = self.header.producer_cursor + 1;
        let index = self.slot_index_for(cursor);
        let slot = FrameSlot {
            publication_sequence: cursor,
            sequence: entry.sequence,
            timestamp_ns: entry.timestamp_ns,
            pool_id: entry.pool_id,
            payload_offset: entry.payload_offset,
            payload_len: entry.payload_len,
            fence_value: entry.fence_value,
            damage_base_sequence: entry.damage_base_sequence,
            producer_drop_count: entry.producer_drop_count,
            slot_id: entry.slot_id,
            config_generation: config_generation as u32,
            payload_kind: entry.payload_kind,
            damage_kind: entry.damage_kind,
            dropped_before_publish: entry.dropped_before_publish,
            flags: entry.flags,
        };
        self.slots.set(index, slot);
        self.header.producer_cursor = cursor;
        cursor
    }

    fn ensure_stream_config(&mut self, entry: &PendingVideoRingEntry) -> (generation: u64)
        requires
            old(self).wf(),
            old(self).spec_can_push(*entry),
        ensures
            generation == old(self).spec_push_generation(*entry),
            final(self).wf(),
            final(self).layout == old(self).layout,
            final(self).mapped_len == old(self).mapped_len,
            final(self).slots@ == old(self).slots@,
            final(self).consumers@ == old(self).consumers@,
            final(self).header == (VideoTrackControlHeader {
                config_cursor: generation,
                ..old(self).header
            }),
            final(self).configs@ == if old(self).spec_reuses_config(*entry) {
                old(self).configs@
            } else {
                old(self).configs@.update(
                    (generation % 4) as int,
                    StreamConfig { config_generation: generation, ..spec_stream_body(*entry) },
                )
            },
            final(self).producer_config == Some((generation, spec_stream_body(*entry))),
    {
        let body = StreamConfig {
            config_generation: 0,
            width: entry.width,
            height: entry.height,
            stride: entry.stride,
            pixel_format: entry.pixel_format,
            color_space: entry.color_space,
            clock_domain: entry.clock_domain,
            sync_kind: entry.sync_kind,
            reserved0: 0,
            modifier: entry.modifier,
            fence_id: entry.fence_id,
        };
        if let Some((generation, cached)) = &self.producer_config {
            if *cached == body {
                return *generation;
            }
        }
        let generation = self.header.config_cursor + 1;
        let index = self.config_index_for(generation);
        let stored = StreamConfig { config_generation: generation, ..body };
        self.configs.set(index, stored);
        self.header.config_cursor = generation;
        self.producer_config = Some((generation, body));
        generation
    }
}


/// `i` is the first index whose entry belongs to consumer `id`.
pub open spec fn spec_first_with_id(entries: Seq<VideoConsumerCursorEntry>, id: u64, i: int) -> bool {
    &&& 0 <= i < entries.len()
    &&& entries[i].consumer_id == id
    &&& forall|j: int| 0 <= j < i ==> entries[j].consumer_id != id
}

/// Some entry belongs to consumer `id`.
pub open spec fn spec_has_id(entries: Seq<VideoConsumerCursorEntry>, id: u64) -> bool {
    exists|i: int| 0 <= i < entries.len() && entries[i].consumer_id == id
}

/// A freshly registered entry for `id`.
pub open spec fn spec_registered_entry(id: u64) -> VideoConsumerCursorEntry {
    VideoConsumerCursorEntry { consumer_id: id, ..spec_zero_consumer() }
}

impl VideoTrackControlPage {
    /// Capacity bounds and live-window bounds every well-formed page has.
    pub proof fn lemma_wf_bounds(&self)
        requires
            self.wf(),
        ensures
            1 <= self.capacity(),
            self.latest() > 0 ==> 1 <= self.oldest_live() <= self.latest(),
    {
        let k = choose|k: nat| k < 64 && pow2(k) == self.capacity();
        lemma_pow2_pos(k);
    }

    /// The newest published cursor, or `None` on an empty ring.
    pub fn latest_cursor(&self) -> (cursor: Option<u64>)
        ensures
            cursor == (if self.latest() > 0 { Some(self.latest()) } else { None::<u64> }),
    {
        let producer_cursor = self.header.producer_cursor;
        if producer_cursor > 0 {
            Some(producer_cursor)
        } else {
            None
        }
    }

    /// The oldest cursor still in the ring, or `None` on an empty ring.
    pub fn oldest_live_cursor(&self) -> (cursor: Option<u64>)
        requires
            self.wf(),
        ensures
            cursor == (if self.latest() > 0 {
                Some(self.oldest_live() as u64)
            } else {
                None::<u64>
            }),
    {
        let producer_cursor = self.header.producer_cursor;
        if producer_cursor == 0 {
            return None;
        }
        proof {
            self.lemma_wf_bounds();
        }
        let capacity = self.layout.slot_capacity as u64;
        let len = if producer_cursor < capacity { producer_cursor } else { capacity };
        Some(producer_cursor - len + 1)
    }

    /// Whether `expected_cursor` has already left the ring.
    pub fn cursor_lapped(&self, expected_cursor: u64) -> (lapped: bool)
        requires
            self.wf(),
        ensures
            lapped == (self.latest() > 0 && expected_cursor < self.oldest_live()),
    {
        proof {
            self.lemma_wf_bounds();
        }
        match self.oldest_live_cursor() {
            Some(oldest) => expected_cursor < oldest,
            None => false,
        }
    }

    fn read_slot_seqlock(&self, index: usize, expected_cursor: u64) -> (slot: core::result::Result<FrameSlot, VideoRingReadError>)
        requires
            self.wf(),
            index < self.capacity(),
        ensures
            slot == (if self.slots_view()[index as int].publication_sequence == expected_cursor {
                Ok(self.slots_view()[index as int])
            } else {
                Err(
                    VideoRingReadError::SlotSequenceMismatch {
                        requested_cursor: expected_cursor,
                        first_sequence: self.slots_view()[index as int].publication_sequence,
                        second_sequence: self.slots_view()[index as int].publication_sequence,
                    },
                )
            }),
    {
        let first_sequence = self.slots[index].publication_sequence;
        let slot = self.slots[index];
        let second_sequence = self.slots[index].publication_sequence;
        if first_sequence != expected_cursor || second_sequence != expected_cursor {
            return Err(
                VideoRingReadError::SlotSequenceMismatch {
                    requested_cursor: expected_cursor,
                    first_sequence,
                    second_sequence,
                },
            );
        }
        Ok(slot)
    }

    fn read_config_seqlock(&self, generation: u64) -> (config: core::result::Result<StreamConfig, (u64, u64)>)
        requires
            self.wf(),
        ensures
            config == self.spec_read_config(generation),
    {
        if generation == 0 {
            return Err((0, 0));
        }
        let index = self.config_index_for(generation);
        let first = self.configs[index].config_generation;
        let mut config = self.configs[index];
        let second = self.configs[index].config_generation;
        if first != generation || second != generation {
            return Err((first, second));
        }
        config.config_generation = generation;
        Ok(config)
    }

    /// Read the frame published at `cursor`, validating that it is still in
    /// the ring, that its slot holds that cursor, and that the config
    /// generation it names is still live.
    pub fn read_entry_for_cursor(&self, cursor: u64) -> (entry: core::result::Result<VideoRingEntry, VideoRingReadError>)
        requires
            self.wf(),
        ensures
            entry == self.spec_read_entry(cursor),
    {
        let latest_cursor = match self.latest_cursor() {
            Some(latest) => latest,
            None => return Err(VideoRingReadError::Empty),
        };
        if cursor > latest_cursor {
            return Err(VideoRingReadError::NotPublished { requested_cursor: cursor, latest_cursor });
        }
        let oldest_live_cursor = match self.oldest_live_cursor() {
            Some(oldest) => oldest,
            None => return Err(VideoRingReadError::Empty),
        };
        if cursor < oldest_live_cursor {
            return Err(VideoRingReadError::Lapped { requested_cursor: cursor, oldest_live_cursor, latest_cursor });
        }
        proof {
            self.lemma_wf_bounds();
        }
        let index = self.slot_index_for(cursor);
        let slot = match self.read_slot_seqlock(index, cursor) {
            Ok(slot) => slot,
            Err(error) => return Err(error),
        };
        let generation = slot.config_generation as u64;
        match self.read_config_seqlock(generation) {
            Ok(config) => Ok(VideoRingEntry::from_parts(cursor, &slot, &config)),
            Err((first, second)) => Err(
                VideoRingReadError::ConfigOverwritten {
                    requested_cursor: cursor,
                    requested_generation: generation,
                    first_generation: first,
                    second_generation: second,
                },
            ),
        }
    }

    /// Read the newest frame, or `None` on an empty ring.
    pub fn read_latest_lossy_entry(&self) -> (entry: core::result::Result<Option<VideoRingEntry>, VideoRingReadError>)
        requires
            self.wf(),
        ensures
            entry == (if self.latest() == 0 {
                Ok(None::<VideoRingEntry>)
            } else {
                match self.spec_read_entry(self.latest()) {
                    Ok(found) => Ok(Some(found)),
                    Err(error) => Err(error),
                }
            }),
    {
        let cursor = match self.latest_cursor() {
            Some(cursor) => cursor,
            None => return Ok(None),
        };
        match self.read_entry_for_cursor(cursor) {
            Ok(found) => Ok(Some(found)),
            Err(error) => Err(error),
        }
    }

    /// The consumer-table entry at `index`.
    pub fn consumer_cursor_entry(&self, index: usize) -> (entry: VideoConsumerCursorEntry)
        requires
            self.wf(),
            index < self.capacity(),
        ensures
            entry == self.consumers_view()[index as int],
    {
        self.consumers[index]
    }

    /// Assign consumer `consumer_id` a cursor-table entry: its existing entry
    /// if it has one, else the first free entry, which is reset for it.
    pub fn register_consumer_cursor(&mut self, consumer_id: u64) -> (slot: CaptureResult<usize>)
        requires
            old(self).wf(),
        ensures
            final(self).wf(),
            final(self).layout_view() == old(self).layout_view(),
            final(self).mapped_len_view() == old(self).mapped_len_view(),
            final(self).header_view() == old(self).header_view(),
            final(self).slots_view() == old(self).slots_view(),
            final(self).configs_view() == old(self).configs_view(),
            final(self).cached_config() == old(self).cached_config(),
            match slot {
                Ok(index) => {
                    &&& consumer_id != 0
                    &&& if spec_has_id(old(self).consumers_view(), consumer_id) {
                        &&& spec_first_with_id(old(self).consumers_view(), consumer_id, index as int)
                        &&& final(self).consumers_view() == old(self).consumers_view()
                    } else {
                        &&& spec_first_with_id(old(self).consumers_view(), 0, index as int)
                        &&& final(self).consumers_view() == old(self).consumers_view().update(
                            index as int,
                            spec_registered_entry(consumer_id),
                        )
                    }
                },
                Err(error) => {
                    &&& final(self).consumers_view() == old(self).consumers_view()
                    &&& if consumer_id == 0 {
                        spec_is_page_error(error, "consumer id must be non-zero"@)
                    } else {
                        &&& !spec_has_id(old(self).consumers_view(), consumer_id)
                        &&& !spec_has_id(old(self).consumers_view(), 0)
                        &&& spec_is_page_error(error, "consumer cursor table is full"@)
                    }
                },
            },
    {
        if consumer_id == 0 {
            return Err(invalid_control_page("consumer id must be non-zero"));
        }
        let capacity = self.layout.consumer_capacity;
        let mut index: usize = 0;
        while index < capacity
            invariant
                self.wf(),
                capacity == self.capacity(),
                index <= capacity,
                consumer_id != 0,
                *self == *old(self),
                forall|j: int| 0 <= j < index ==> self.consumers_view()[j].consumer_id != consumer_id,
            decreases capacity - index,
        {
            if self.consumers[index].consumer_id == consumer_id {
                assert(spec_has_id(self.consumers_view(), consumer_id));
                return Ok(index);
            }
            index = index + 1;
        }
        let mut index: usize = 0;
        while index < capacity
            invariant
                self.wf(),
                capacity == self.capacity(),
                index <= capacity,
                !spec_has_id(self.consumers_view(), consumer_id),
                consumer_id != 0,
                *self == *old(self),
                forall|j: int| 0 <= j < index ==> self.consumers_view()[j].consumer_id != 0,
            decreases capacity - index,
        {
            if self.consumers[index].consumer_id == 0 {
                let mut entry = VideoConsumerCursorEntry::default();
                entry.consumer_id = consumer_id;
                assert(entry == spec_registered_entry(consumer_id));
                assert(spec_first_with_id(old(self).consumers_view(), 0, index as int));
                self.consumers.set(index, entry);
                return Ok(index);
            }
            index = index + 1;
        }
        Err(invalid_control_page("consumer cursor table is full"))
    }

    /// Free the first entry that belongs to `consumer_id`, if any.
    pub fn unregister_consumer_cursor(&mut self, consumer_id: u64)
        requires
            old(self).wf(),
        ensures
            final(self).wf(),
            final(self).layout_view() == old(self).layout_view(),
            final(self).mapped_len_view() == old(self).mapped_len_view(),
            final(self).header_view() == old(self).header_view(),
            final(self).slots_view() == old(self).slots_view(),
            final(self).configs_view() == old(self).configs_view(),
            final(self).cached_config() == old(self).cached_config(),
            spec_has_id(old(self).consumers_view(), consumer_id) ==> exists|i: int|
                spec_first_with_id(old(self).consumers_view(), consumer_id, i)
                    && final(self).consumers_view() == old(self).consumers_view().update(
                    i,
                    spec_zero_consumer(),
                ),
            !spec_has_id(old(self).consumers_view(), consumer_id) ==> final(self).consumers_view()
                == old(self).consumers_view(),
    {
        let capacity = self.layout.consumer_capacity;
        let mut index: usize = 0;
        while index < capacity
            invariant
                self.wf(),
                capacity == self.capacity(),
                index <= capacity,
                *self == *old(self),
                forall|j: int| 0 <= j < index ==> self.consumers_view()[j].consumer_id != consumer_id,
            decreases capacity - index,
        {
            if self.consumers[index].consumer_id == consumer_id {
                self.consumers.set(index, VideoConsumerCursorEntry::default());
                assert(spec_first_with_id(old(self).consumers_view(), consumer_id, index as int));
                return;
            }
            index = index + 1;
        }
    }

    /// Record how far consumer `consumer_id` (holding entry `index`) has released.
    pub fn store_consumer_release_cursor(&mut self, index: usize, consumer_id: u64, release_cursor: u64) -> (stored: CaptureResult<()>)
        requires
            old(self).wf(),
            index < old(self).capacity(),
        ensures
            final(self).wf(),
            final(self).layout_view() == old(self).layout_view(),
            final(self).mapped_len_view() == old(self).mapped_len_view(),
            final(self).header_view() == old(self).header_view(),
            final(self).slots_view() == old(self).slots_view(),
            final(self).configs_view() == old(self).configs_view(),
            final(self).cached_config() == old(self).cached_config(),
            match stored {
                Ok(()) => {
                    &&& old(self).consumers_view()[index as int].consumer_id == consumer_id
                    &&& final(self).consumers_view() == old(self).consumers_view().update(
                        index as int,
                        VideoConsumerCursorEntry {
                            release_cursor,
                            ..old(self).consumers_view()[index as int]
                        },
                    )
                },
                Err(error) => {
                    &&& old(self).consumers_view()[index as int].consumer_id != consumer_id
                    &&& final(self).consumers_view() == old(self).consumers_view()
                    &&& spec_is_page_error(error, "consumer cursor slot does not match consumer id"@)
                },
            },
    {
        let entry = self.consumers[index];
        if entry.consumer_id != consumer_id {
            return Err(invalid_control_page("consumer cursor slot does not match consumer id"));
        }
        let updated = VideoConsumerCursorEntry { release_cursor, ..entry };
        self.consumers.set(index, updated);
        Ok(())
    }

    /// Record consumer `consumer_id`'s latest acquisition; the release
    /// cursor is left as it was.
    pub fn store_consumer_acquire_cursor(
        &mut self,
        index: usize,
        consumer_id: u64,
        last_acquired_cursor: u64,
        last_acquired_sequence: u64,
        skipped_count: u64,
        acquired_count: u64,
    ) -> (stored: CaptureResult<()>)
        requires
            old(self).wf(),
            index < old(self).capacity(),
        ensures
            final(self).wf(),
            final(self).layout_view() == old(self).layout_view(),
            final(self).mapped_len_view() == old(self).mapped_len_view(),
            final(self).header_view() == old(self).header_view(),
            final(self).slots_view() == old(self).slots_view(),
            final(self).configs_view() == old(self).configs_view(),
            final(self).cached_config() == old(self).cached_config(),
            match stored {
                Ok(()) => {
                    &&& old(self).consumers_view()[index as int].consumer_id == consumer_id
                    &&& final(self).consumers_view() == old(self).consumers_view().update(
                        index as int,
                        VideoConsumerCursorEntry {
                            last_acquired_cursor,
                            last_acquired_sequence,
                            skipped_count,
                            acquired_count,
                            ..old(self).consumers_view()[index as int]
                        },
                    )
                },
                Err(error) => {
                    &&& old(self).consumers_view()[index as int].consumer_id != consumer_id
                    &&& final(self).consumers_view() == old(self).consumers_view()
                    &&& spec_is_page_error(error, "consumer cursor slot does not match consumer id"@)
                },
            },
    {
        let entry = self.consumers[index];
        if entry.consumer_id != consumer_id {
            return Err(invalid_control_page("consumer cursor slot does not match consumer id"));
        }
        let updated = VideoConsumerCursorEntry {
            last_acquired_cursor,
            last_acquired_sequence,
            skipped_count,
            acquired_count,
            ..entry
        };
        self.consumers.set(index, updated);
        Ok(())
    }
}


/// Everything a page shows at once.
#[derive(Debug, Clone, PartialEq, Eq)]
pub struct VideoTrackControlSnapshot {
    pub header: VideoTrackControlHeader,
    pub entries: Vec<VideoRingEntry>,
    pub configs: Vec<StreamConfig>,
    pub consumer_entries: Vec<VideoConsumerCursorEntry>,
}

/// The entries that read cleanly among cursors `from ..= from + count - 1`, oldest first.
pub open spec fn spec_readable_entries(page: VideoTrackControlPage, from: u64, count: nat) -> Seq<VideoRingEntry>
    decreases count,
{
    if count == 0 {
        Seq::empty()
    } else {
        let earlier = spec_readable_entries(page, from, (count - 1) as nat);
        match page.spec_read_entry((from + count - 1) as u64) {
            Ok(entry) => earlier.push(entry),
            Err(_) => earlier,
        }
    }
}

/// The configs that read cleanly among generations `from ..= from + count - 1`, oldest first.
pub open spec fn spec_readable_configs(page: VideoTrackControlPage, from: u64, count: nat) -> Seq<StreamConfig>
    decreases count,
{
    if count == 0 {
        Seq::empty()
    } else {
        let earlier = spec_readable_configs(page, from, (count - 1) as nat);
        match page.spec_read_config((from + count - 1) as u64) {
            Ok(config) => earlier.push(config),
            Err(_) => earlier,
        }
    }
}

impl VideoTrackControlPage {
    /// Number of cursors in the live window.
    pub open spec fn live_count(&self) -> nat {
        if self.latest() < self.capacity() {
            self.latest() as nat
        } else {
            self.capacity()
        }
    }

    /// Number of config generations still held by the config ring.
    pub open spec fn live_config_count(&self) -> nat {
        let latest = self.header_view().config_cursor;
        if latest < CONFIG_RING_CAPACITY {
            latest as nat
        } else {
            CONFIG_RING_CAPACITY as nat
        }
    }

    /// The oldest config generation the config ring may still hold.
    pub open spec fn oldest_config(&self) -> int {
        self.header_view().config_cursor - self.live_config_count() + 1
    }

    /// The frame slot at ring position `index`, exactly as stored.
    pub fn raw_slot(&self, index: usize) -> (slot: FrameSlot)
        requires
            self.wf(),
            index < self.capacity(),
        ensures
            slot == self.slots_view()[index as int],
    {
        self.slots[index]
    }

    /// Overwrite the publication word of ring position `index`, as a producer
    /// does while it rewrites that slot.
    pub fn set_slot_publication_sequence(&mut self, index: usize, publication_sequence: u64)
        requires
            old(self).wf(),
            index < old(self).capacity(),
        ensures
            final(self).wf(),
            final(self).layout_view() == old(self).layout_view(),
            final(self).mapped_len_view() == old(self).mapped_len_view(),
            final(self).header_view() == old(self).header_view(),
            final(self).slots_view() == old(self).slots_view().update(
                index as int,
                FrameSlot { publication_sequence, ..old(self).slots_view()[index as int] },
            ),
            final(self).configs_view() == old(self).configs_view(),
            final(self).consumers_view() == old(self).consumers_view(),
            final(self).cached_config() == old(self).cached_config(),
    {
        let slot = FrameSlot { publication_sequence, ..self.slots[index] };
        self.slots.set(index, slot);
    }

    /// The live entries that read cleanly, oldest first.
    pub fn ring_snapshot(&self) -> (entries: Vec<VideoRingEntry>)
        requires
            self.wf(),
        ensures
            entries@ == (if self.latest() == 0 {
                Seq::empty()
            } else {
                spec_readable_entries(*self, self.oldest_live() as u64, self.live_count())
            }),
    {
        let mut entries: Vec<VideoRingEntry> = Vec::new();
        let latest = match self.latest_cursor() {
            Some(latest) => latest,
            None => return entries,
        };
        let oldest = match self.oldest_live_cursor() {
            Some(oldest) => oldest,
            None => return entries,
        };
        proof {
            self.lemma_wf_bounds();
        }
        let count = latest - oldest + 1;
        let mut offset: u64 = 0;
        while offset < count
            invariant
                self.wf(),
                self.latest() > 0,
                oldest == self.oldest_live(),
                count == self.live_count(),
                1 <= oldest <= self.latest(),
                offset <= count,
                oldest + count - 1 == self.latest(),
                entries@ == spec_readable_entries(*self, oldest, offset as nat),
            decreases count - offset,
        {
            let cursor = oldest + offset;
            let read = self.read_entry_for_cursor(cursor);
            match read {
                Ok(entry) => entries.push(entry),
                Err(_) => {},
            }
            offset = offset + 1;
        }
        entries
    }

    /// The live stream configs that read cleanly, oldest generation first.
    pub fn config_snapshot(&self) -> (configs: Vec<StreamConfig>)
        requires
            self.wf(),
        ensures
            configs@ == spec_readable_configs(*self, self.oldest_config() as u64, self.live_config_count()),
    {
        let mut configs: Vec<StreamConfig> = Vec::new();
        let latest = self.header.config_cursor;
        if latest == 0 {
            return configs;
        }
        let live: u64 = if latest < 4 { latest } else { 4 };
        let oldest = latest - live + 1;
        let mut offset: u64 = 0;
        while offset < live
            invariant
                self.wf(),
                latest == self.header_view().config_cursor,
                live == self.live_config_count(),
                oldest == self.oldest_config(),
                1 <= live <= 4,
                offset <= live,
                oldest + live - 1 == latest,
                configs@ == spec_readable_configs(*self, oldest, offset as nat),
            decreases live - offset,
        {
            let generation = oldest + offset;
            match self.read_config_seqlock(generation) {
                Ok(config) => configs.push(config),
                Err(_) => {},
            }
            offset = offset + 1;
        }
        configs
    }

    /// Every consumer-table entry, in table order.
    pub fn consumer_cursor_snapshot(&self) -> (entries: Vec<VideoConsumerCursorEntry>)
        requires
            self.wf(),
        ensures
            entries@ == self.consumers_view(),
    {
        let mut entries: Vec<VideoConsumerCursorEntry> = Vec::new();
        let mut index: usize = 0;
        while index < self.consumers.len()
            invariant
                index <= self.consumers@.len(),
                entries@ == self.consumers@.subrange(0, index as int),
            decreases self.consumers@.len() - index,
        {
            entries.push(self.consumers[index]);
            index = index + 1;
        }
        entries
    }

    /// Header, readable entries, readable configs and consumer table at once.
    pub fn snapshot(&self) -> (snapshot: VideoTrackControlSnapshot)
        requires
            self.wf(),
        ensures
            snapshot.header == self.header_view(),
            snapshot.entries@ == (if self.latest() == 0 {
                Seq::empty()
            } else {
                spec_readable_entries(*self, self.oldest_live() as u64, self.live_count())
            }),
            snapshot.configs@ == spec_readable_configs(*self, self.oldest_config() as u64, self.live_config_count()),
            snapshot.consumer_entries@ == self.consumers_view(),
    {
        VideoTrackControlSnapshot {
            header: self.header,
            entries: self.ring_snapshot(),
            configs: self.config_snapshot(),
            consumer_entries: self.consumer_cursor_snapshot(),
        }
    }
}

/// Distinct cursors less than a capacity apart occupy distinct ring slots.
proof fn lemma_distinct_slots(a: u64, b: u64, capacity: nat)
    requires
        capacity >= 1,
        1 <= b < a,
        a - b < capacity,
    ensures
        (a as int - 1) % (capacity as int) != (b as int - 1) % (capacity as int),
{
    lemma_mod_equivalence(a as int - 1, b as int - 1, capacity as int);
    lemma_small_mod((a - b) as nat, capacity);
}

/// Law: reading the cursor a push returned gives back the frame that was
/// pushed, merged with the stream config it names.
pub proof fn law_push_then_read(
    old: VideoTrackControlPage,
    entry: PendingVideoRingEntry,
    new: VideoTrackControlPage,
    cursor: u64,
)
    requires
        old.wf(),
        old.spec_can_push(entry),
        spec_pushed(old, entry, new, cursor),
    ensures
        new.spec_read_entry(cursor) == Ok::<VideoRingEntry, VideoRingReadError>(
            spec_published_entry(entry, cursor, old.spec_push_generation(entry)),
        ),
{
    old.lemma_wf_bounds();
    let generation = old.spec_push_generation(entry);
    let index = old.slot_index(cursor);
    assert(0 <= index < old.capacity());
    assert(new.slots_view()[index] == spec_slot_from_pending(entry, cursor, generation));
    assert(generation >= 1 && generation <= u32::MAX);
    assert(generation as u32 as u64 == generation);
}

/// Law: reading the cursor a push returned gives back every value of the
/// pending entry that was pushed, field by field: its frame values and its
/// stream values (size, stride, formats, modifier, fence) alike.
pub proof fn law_push_reads_back_pushed_values(
    old: VideoTrackControlPage,
    entry: PendingVideoRingEntry,
    new: VideoTrackControlPage,
    cursor: u64,
)
    requires
        old.wf(),
        old.spec_can_push(entry),
        spec_pushed(old, entry, new, cursor),
    ensures
        new.spec_read_entry(cursor) matches Ok(read) && {
            &&& read.cursor == cursor
            &&& read.sequence == entry.sequence
            &&& read.timestamp_ns == entry.timestamp_ns
            &&& read.width == entry.width
            &&& read.height == entry.height
            &&& read.stride == entry.stride
            &&& read.pixel_format == entry.pixel_format
            &&& read.pool_id == entry.pool_id
            &&& read.slot_id == entry.slot_id
            &&& read.payload_offset == entry.payload_offset
            &&& read.payload_len == entry.payload_len
            &&& read.clock_domain == entry.clock_domain
            &&& read.color_space == entry.color_space
            &&& read.sync_kind == entry.sync_kind
            &&& read.damage_kind == entry.damage_kind
            &&& read.damage_base_sequence == entry.damage_base_sequence
            &&& read.dropped_before_publish == entry.dropped_before_publish
            &&& read.producer_drop_count == entry.producer_drop_count
            &&& read.payload_kind == entry.payload_kind
            &&& read.modifier == entry.modifier
            &&& read.fence_id == entry.fence_id
            &&& read.fence_value == entry.fence_value
            &&& read.flags == entry.flags
            &&& read.config_generation >= 1
        },
{
    law_push_then_read(old, entry, new, cursor);
    old.lemma_wf_bounds();
}

/// Law: a push rewrites only the slot of the cursor that leaves the ring;
/// every other cursor that is still live was live before and keeps its slot.
pub proof fn law_push_keeps_live_slots(
    old: VideoTrackControlPage,
    entry: PendingVideoRingEntry,
    new: VideoTrackControlPage,
    cursor: u64,
    other: u64,
)
    requires
        old.wf(),
        old.spec_can_push(entry),
        spec_pushed(old, entry, new, cursor),
        new.is_live(other),
        other != cursor,
    ensures
        old.is_live(other),
        new.slot_index(other) == old.slot_index(other),
        new.slots_view()[new.slot_index(other)] == old.slots_view()[old.slot_index(other)],
{
    old.lemma_wf_bounds();
    lemma_distinct_slots(cursor, other, old.capacity());
}

/// Law: when the stream values are unchanged, a push leaves the read of
/// every other live cursor exactly as it was.
pub proof fn law_unchanged_config_keeps_reads(
    old: VideoTrackControlPage,
    entry: PendingVideoRingEntry,
    new: VideoTrackControlPage,
    cursor: u64,
    other: u64,
)
    requires
        old.wf(),
        old.spec_can_push(entry),
        spec_pushed(old, entry, new, cursor),
        old.spec_reuses_config(entry),
        new.is_live(other),
        other != cursor,
    ensures
        new.spec_read_entry(other) == old.spec_read_entry(other),
{
    law_push_keeps_live_slots(old, entry, new, cursor, other);
    old.lemma_wf_bounds();
}


/// What validating a header against a mapping of `map_len` bytes yields:
/// the ring capacity, or the message of the first check that fails.
pub open spec fn spec_validate_header(header: VideoTrackControlHeader, map_len: nat) -> core::result::Result<nat, Seq<char>> {
    let capacity = header.slot_capacity as nat;
    if header.magic != VIDEO_TRACK_CONTROL_MAGIC {
        Err("invalid magic"@)
    } else if header.layout_version != VIDEO_TRACK_CONTROL_VERSION {
        Err("invalid layout version"@)
    } else if header.header_len != HEADER_LEN {
        Err("invalid header length"@)
    } else if header.slot_len != RECORD_LEN {
        Err("invalid frame slot length"@)
    } else if header.config_len != RECORD_LEN {
        Err("invalid stream config length"@)
    } else if header.consumer_len != RECORD_LEN {
        Err("invalid consumer slot length"@)
    } else if !spec_is_ring_capacity(capacity) {
        Err("slot capacity must be a non-zero power of two"@)
    } else if header.config_capacity != CONFIG_RING_CAPACITY {
        Err("config capacity does not match layout"@)
    } else if header.consumer_capacity != header.slot_capacity {
        Err("consumer capacity must match ring capacity"@)
    } else if !spec_layout_fits(capacity) || header.slots_offset != spec_layout(capacity).slots_offset
        || header.configs_offset != spec_layout(capacity).configs_offset || header.consumers_offset
        != spec_layout(capacity).consumers_offset {
        Err("region offsets do not match layout"@)
    } else if spec_page_len(capacity) > map_len {
        Err("mapped length is smaller than declared layout"@)
    } else {
        Ok(capacity)
    }
}

/// Whether `value` is a power of two (below `2^64`).
fn is_ring_capacity(value: u32) -> (is_power: bool)
    ensures
        is_power == spec_is_ring_capacity(value as nat),
{
    if value == 0 {
        proof {
            if spec_is_ring_capacity(0) {
                let k = choose|k: nat| k < 64 && pow2(k) == 0;
                lemma_pow2_pos(k);
            }
        }
        return false;
    }
    let target = value as u64;
    let mut power: u64 = 1;
    let ghost mut exponent: nat = 0;
    proof {
        lemma2_to64();
    }
    while power < target
        invariant
            1 <= target <= u32::MAX,
            power == pow2(exponent),
            exponent <= 32,
            1 <= power <= 2 * target,
            exponent > 0 ==> pow2((exponent - 1) as nat) < target,
        decreases 32 - exponent,
    {
        proof {
            lemma_pow2_unfold(exponent + 1);
            if exponent == 32 {
                lemma2_to64();
                assert(false);
            }
        }
        power = power * 2;
        proof {
            exponent = exponent + 1;
        }
    }
    proof {
        if power != target && spec_is_ring_capacity(value as nat) {
            let k = choose|k: nat| k < 64 && pow2(k) == value as nat;
            if k >= exponent {
                if k > exponent {
                    lemma_pow2_strictly_increases(exponent, k);
                }
                assert(false);
            } else {
                assert(exponent > 0);
                if k < (exponent - 1) as nat {
                    lemma_pow2_strictly_increases(k, (exponent - 1) as nat);
                }
                assert(false);
            }
        }
    }
    power == target
}

/// Check a control-page header against a mapping of `map_len` bytes and
/// return the ring capacity it declares.
pub fn validate_control_header(header: &VideoTrackControlHeader, map_len: usize) -> (capacity: CaptureResult<usize>)
    ensures
        match capacity {
            Ok(capacity) => spec_validate_header(*header, map_len as nat) == Ok::<nat, Seq<char>>(capacity as nat),
            Err(error) => exists|message: Seq<char>|
                spec_validate_header(*header, map_len as nat) == Err::<nat, Seq<char>>(message)
                    && spec_is_page_error(error, message),
        },
{
    proof {
        reveal_strlit("invalid magic");
    }
    if header.magic != VIDEO_TRACK_CONTROL_MAGIC {
        return Err(invalid_control_page("invalid magic"));
    }
    if header.layout_version != VIDEO_TRACK_CONTROL_VERSION {
        return Err(invalid_control_page("invalid layout version"));
    }
    if header.header_len != HEADER_LEN as u32 {
        return Err(invalid_control_page("invalid header length"));
    }
    if header.slot_len != RECORD_LEN as u32 {
        return Err(invalid_control_page("invalid frame slot length"));
    }
    if header.config_len != RECORD_LEN as u32 {
        return Err(invalid_control_page("invalid stream config length"));
    }
    if header.consumer_len != RECORD_LEN as u32 {
        return Err(invalid_control_page("invalid consumer slot length"));
    }
    if !is_ring_capacity(header.slot_capacity) {
        return Err(invalid_control_page("slot capacity must be a non-zero power of two"));
    }
    if header.config_capacity != CONFIG_RING_CAPACITY as u32 {
        return Err(invalid_control_page("config capacity does not match layout"));
    }
    if header.consumer_capacity != header.slot_capacity {
        return Err(invalid_control_page("consumer capacity must match ring capacity"));
    }
    let capacity = header.slot_capacity as u64;
    let fits = capacity <= (usize::MAX as u64 - 768) / 256;
    if !fits {
        return Err(invalid_control_page("region offsets do not match layout"));
    }
    let capacity = capacity as usize;
    proof {
        let k = choose|k: nat| k < 64 && pow2(k) == capacity as nat;
        assert(spec_ceil_log2(capacity as nat) == k) by {
            lemma_ceil_log2_least(capacity as nat, k);
            lemma_ceil_log2_covers(capacity as nat);
            if spec_ceil_log2(capacity as nat) < k {
                lemma_pow2_strictly_increases(spec_ceil_log2(capacity as nat), k);
            }
        }
    }
    let layout = VideoTrackControlLayout::for_capacity(capacity);
    if header.slots_offset as usize != layout.slots_offset || header.configs_offset as usize
        != layout.configs_offset || header.consumers_offset as usize != layout.consumers_offset {
        return Err(invalid_control_page("region offsets do not match layout"));
    }
    if layout.byte_len > map_len {
        return Err(invalid_control_page("mapped length is smaller than declared layout"));
    }
    Ok(capacity)
}

impl VideoTrackControlPage {
    /// Validate the page's header against its mapping and return it.
    pub fn validate_header(&self) -> (header: CaptureResult<VideoTrackControlHeader>)
        ensures
            match header {
                Ok(header) => {
                    &&& header == self.header_view()
                    &&& spec_validate_header(self.header_view(), self.mapped_len_view()) is Ok
                },
                Err(error) => exists|message: Seq<char>|
                    spec_validate_header(self.header_view(), self.mapped_len_view()) == Err::<nat, Seq<char>>(message)
                        && spec_is_page_error(error, message),
            },
    {
        let header = self.header;
        match validate_control_header(&header, self.mapped_len) {
            Ok(_) => Ok(header),
            Err(error) => Err(error),
        }
    }

    /// A read of `cursor` that first revalidates the header and reports any
    /// ring failure as a shared-memory error.
    pub fn shadow_read_entry_for_cursor(&self, cursor: u64) -> (entry: CaptureResult<VideoRingEntry>)
        requires
            self.wf(),
        ensures
            spec_validate_header(self.header_view(), self.mapped_len_view()) is Err ==> entry is Err,
            spec_validate_header(self.header_view(), self.mapped_len_view()) is Ok ==> match entry {
                Ok(found) => self.spec_read_entry(cursor) == Ok::<VideoRingEntry, VideoRingReadError>(found),
                Err(error) => match self.spec_read_entry(cursor) {
                    Err(source) => match error {
                        CaptureTransferError::SharedMemory { operation, message } => {
                            &&& operation@ == "read-control-page"@
                            &&& message@ == spec_read_error_message(source)
                        },
                        _ => false,
                    },
                    Ok(_) => false,
                },
            },
    {
        match self.validate_header() {
            Ok(_) => {},
            Err(error) => return Err(error),
        }
        match self.read_entry_for_cursor(cursor) {
            Ok(found) => Ok(found),
            Err(source) => Err(
                CaptureTransferError::SharedMemory {
                    operation: "read-control-page",
                    message: source.to_message(),
                },
            ),
        }
    }
}

/// Law: the header of a fresh page for `requested` slots validates against
/// any mapping at least as long as the page, giving back the rounded ring
/// capacity, and is refused only for a shorter mapping; this holds while the
/// page stays within `u32::MAX` bytes, past which the header's 32-bit region
/// offsets no longer fit.
pub proof fn law_fresh_header_validates(requested: nat, map_len: nat)
    requires
        spec_page_len(spec_ring_capacity(requested)) <= u32::MAX,
    ensures
        ({
            let capacity = spec_ring_capacity(requested);
            spec_validate_header(spec_initial_header(spec_layout(capacity)), map_len) == if map_len >= spec_page_len(
                capacity,
            ) {
                Ok::<nat, Seq<char>>(capacity)
            } else {
                Err::<nat, Seq<char>>("mapped length is smaller than declared layout"@)
            }
        }),
{
    let capacity = spec_ring_capacity(requested);
    lemma_ring_capacity_exponent(requested);
    let header = spec_initial_header(spec_layout(capacity));
    assert(header.slot_capacity as nat == capacity);
}

} // verus!
