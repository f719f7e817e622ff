//! The C ABI's value vocabulary: status codes, the numbers C callers use for
//! model values, the plain records that cross the boundary, and the
//! conversions between them and the model. Pointers and handles stay with
//! the host's boundary code.

use vstd::prelude::*;
use vstd::string::*;

use crate::daemon::SessionInfo;
use crate::model::{
    ClockDomain, ColorSpace, DamageKind, FrameSyncKind, PixelFormat, SourceDesc, SourceId, SourceKind, TrackDesc,
    VideoTrackDesc,
};
use crate::state::{Event, EventKind, SessionState};

verus! {

pub type FtStatus = i32;

/// ABI version of this library, as `(major << 16) | minor`.
pub const FT_ABI_VERSION_MAJOR: u32 = 1;
pub const FT_ABI_VERSION_MINOR: u32 = 0;
pub const FT_ABI_VERSION: u32 = 0x0001_0000;

pub const FT_STATUS_OK: FtStatus = 0;
pub const FT_STATUS_EMPTY: FtStatus = 1;
pub const FT_STATUS_INVALID_ARGUMENT: FtStatus = 2;
pub const FT_STATUS_ERROR: FtStatus = 3;
pub const FT_STATUS_TIMEOUT: FtStatus = 4;
pub const FT_STATUS_CLOSED: FtStatus = 5;
pub const FT_STATUS_UNSUPPORTED: FtStatus = 6;
pub const FT_STATUS_INVALID_STATE: FtStatus = 7;

pub const FT_SOURCE_KIND_WINDOW: u32 = 1;
pub const FT_SOURCE_KIND_DISPLAY: u32 = 2;
pub const FT_SOURCE_KIND_SURFACE: u32 = 3;

pub const FT_TRACK_TYPE_VIDEO: u32 = 1;

pub const FT_PIXEL_FORMAT_UNKNOWN: u32 = 0;
pub const FT_PIXEL_FORMAT_BGRA8_UNORM: u32 = 1;
pub const FT_PIXEL_FORMAT_RGBA8_UNORM: u32 = 2;

pub const FT_CLOCK_DOMAIN_UNKNOWN: u32 = 0;
pub const FT_CLOCK_DOMAIN_UNIX_TIME: u32 = 1;
pub const FT_CLOCK_DOMAIN_MEDIA_TIME: u32 = 2;
pub const FT_CLOCK_DOMAIN_HOST_TIME: u32 = 3;

pub const FT_COLOR_SPACE_UNKNOWN: u32 = 0;
pub const FT_COLOR_SPACE_SRGB: u32 = 1;

pub const FT_FRAME_SYNC_UNKNOWN: u32 = 0;
pub const FT_FRAME_SYNC_CPU_COPY_COMPLETE: u32 = 1;
pub const FT_FRAME_SYNC_SCK_SAMPLE_READY: u32 = 2;
pub const FT_FRAME_SYNC_NATIVE_TIMELINE: u32 = 3;

pub const FT_DAMAGE_UNKNOWN: u32 = 0;
pub const FT_DAMAGE_FULL_FRAME: u32 = 1;
pub const FT_DAMAGE_NONE: u32 = 2;
pub const FT_DAMAGE_INLINE_RECTS: u32 = 3;
pub const FT_DAMAGE_SIDECAR_RECTS: u32 = 4;

pub const FT_EVENT_PRODUCER_STARTED: u32 = 1;
pub const FT_EVENT_SOURCE_REGISTERED: u32 = 2;
pub const FT_EVENT_SOURCE_UPDATED: u32 = 3;
pub const FT_EVENT_TRACK_REGISTERED: u32 = 4;
pub const FT_EVENT_TRACK_UPDATED: u32 = 5;
pub const FT_EVENT_SOURCE_UNREGISTERED: u32 = 6;
pub const FT_EVENT_PRODUCER_STOPPED: u32 = 7;

/// The linked library's ABI version.
pub fn ft_abi_version() -> (version: u32)
    ensures
        version == FT_ABI_VERSION,
        version == FT_ABI_VERSION_MAJOR * 0x10000 + FT_ABI_VERSION_MINOR,
{
    FT_ABI_VERSION
}

#[derive(Debug, Clone, Copy)]
pub struct FtProducerOptions {
    pub reserved: u32,
}

#[derive(Debug, Clone, Copy)]
pub struct FtVideoTrackDesc {
    pub width: u32,
    pub height: u32,
    pub pixel_format: u32,
}

#[derive(Debug, Clone, Copy)]
pub struct FtTrackDesc {
    pub track_type: u32,
    pub video: FtVideoTrackDesc,
}

/// A frame descriptor as C callers see it.
#[derive(Debug, Clone, Copy, Default)]
pub struct FtVideoFrameDesc {
    pub sequence: u64,
    pub timestamp_ns: u64,
    pub width: u32,
    pub height: u32,
    pub stride: u32,
    pub pixel_format: u32,
    pub pool_id: u64,
    pub slot_id: u32,
    pub payload_offset: u64,
    pub payload_len: u64,
    pub payload_map_len: u64,
    pub clock_domain: u32,
    pub color_space: u32,
    pub sync_kind: u32,
    pub damage_kind: u32,
    pub damage_base_sequence: u64,
    pub dropped_before_publish: u32,
    pub producer_drop_count: u64,
    pub evicted_count: u64,
    pub consumer_skipped_count: u64,
    pub payload_kind: u32,
    pub modifier: u64,
    pub fence_id: u64,
    pub fence_value: u64,
    pub flags: u32,
}

/// An event as C callers see it; fields an event does not carry are 0.
#[derive(Debug, Clone, Copy, PartialEq, Eq, Structural)]
pub struct FtEvent {
    pub kind: u32,
    pub source_id: u64,
    pub track_id: u64,
    pub track_type: u32,
    pub width: u32,
    pub height: u32,
    pub pixel_format: u32,
}

impl Default for FtEvent {
    fn default() -> (event: Self)
        ensures
            event == (FtEvent {
                kind: 0,
                source_id: 0,
                track_id: 0,
                track_type: 0,
                width: 0,
                height: 0,
                pixel_format: 0,
            }),
    {
        FtEvent { kind: 0, source_id: 0, track_id: 0, track_type: 0, width: 0, height: 0, pixel_format: 0 }
    }
}

pub open spec fn spec_pixel_format_from_ffi(format: u32) -> Option<PixelFormat> {
    if format == FT_PIXEL_FORMAT_UNKNOWN {
        Some(PixelFormat::Unknown)
    } else if format == FT_PIXEL_FORMAT_BGRA8_UNORM {
        Some(PixelFormat::Bgra8Unorm)
    } else if format == FT_PIXEL_FORMAT_RGBA8_UNORM {
        Some(PixelFormat::Rgba8Unorm)
    } else {
        None
    }
}

pub open spec fn spec_pixel_format_to_ffi(format: PixelFormat) -> u32 {
    match format {
        PixelFormat::Unknown => FT_PIXEL_FORMAT_UNKNOWN,
        PixelFormat::Bgra8Unorm => FT_PIXEL_FORMAT_BGRA8_UNORM,
        PixelFormat::Rgba8Unorm => FT_PIXEL_FORMAT_RGBA8_UNORM,
    }
}

pub fn pixel_format_from_ffi(format: u32) -> (parsed: Option<PixelFormat>)
    ensures
        parsed == spec_pixel_format_from_ffi(format),
{
    match format {
        FT_PIXEL_FORMAT_UNKNOWN => Some(PixelFormat::Unknown),
        FT_PIXEL_FORMAT_BGRA8_UNORM => Some(PixelFormat::Bgra8Unorm),
        FT_PIXEL_FORMAT_RGBA8_UNORM => Some(PixelFormat::Rgba8Unorm),
        _ => None,
    }
}

pub fn pixel_format_to_ffi(format: PixelFormat) -> (code: u32)
    ensures
        code == spec_pixel_format_to_ffi(format),
{
    match format {
        PixelFormat::Unknown => FT_PIXEL_FORMAT_UNKNOWN,
        PixelFormat::Bgra8Unorm => FT_PIXEL_FORMAT_BGRA8_UNORM,
        PixelFormat::Rgba8Unorm => FT_PIXEL_FORMAT_RGBA8_UNORM,
    }
}

pub open spec fn spec_clock_domain_from_ffi(domain: u32) -> Option<ClockDomain> {
    if domain == FT_CLOCK_DOMAIN_UNKNOWN {
        Some(ClockDomain::Unknown)
    } else if domain == FT_CLOCK_DOMAIN_UNIX_TIME {
        Some(ClockDomain::UnixTime)
    } else if domain == FT_CLOCK_DOMAIN_MEDIA_TIME {
        Some(ClockDomain::MediaTime)
    } else if domain == FT_CLOCK_DOMAIN_HOST_TIME {
        Some(ClockDomain::HostTime)
    } else {
        None
    }
}

pub open spec fn spec_clock_domain_to_ffi(domain: ClockDomain) -> u32 {
    match domain {
        ClockDomain::Unknown => FT_CLOCK_DOMAIN_UNKNOWN,
        ClockDomain::UnixTime => FT_CLOCK_DOMAIN_UNIX_TIME,
        ClockDomain::MediaTime => FT_CLOCK_DOMAIN_MEDIA_TIME,
        ClockDomain::HostTime => FT_CLOCK_DOMAIN_HOST_TIME,
    }
}

pub fn clock_domain_from_ffi(domain: u32) -> (parsed: Option<ClockDomain>)
    ensures
        parsed == spec_clock_domain_from_ffi(domain),
{
    match domain {
        FT_CLOCK_DOMAIN_UNKNOWN => Some(ClockDomain::Unknown),
        FT_CLOCK_DOMAIN_UNIX_TIME => Some(ClockDomain::UnixTime),
        FT_CLOCK_DOMAIN_MEDIA_TIME => Some(ClockDomain::MediaTime),
        FT_CLOCK_DOMAIN_HOST_TIME => Some(ClockDomain::HostTime),
        _ => None,
    }
}

pub fn clock_domain_to_ffi(domain: ClockDomain) -> (code: u32)
    ensures
        code == spec_clock_domain_to_ffi(domain),
{
    match domain {
        ClockDomain::Unknown => FT_CLOCK_DOMAIN_UNKNOWN,
        ClockDomain::UnixTime => FT_CLOCK_DOMAIN_UNIX_TIME,
        ClockDomain::MediaTime => FT_CLOCK_DOMAIN_MEDIA_TIME,
        ClockDomain::HostTime => FT_CLOCK_DOMAIN_HOST_TIME,
    }
}

pub open spec fn spec_color_space_from_ffi(color_space: u32) -> Option<ColorSpace> {
    if color_space == FT_COLOR_SPACE_UNKNOWN {
        Some(ColorSpace::Unknown)
    } else if color_space == FT_COLOR_SPACE_SRGB {
        Some(ColorSpace::Srgb)
    } else {
        None
    }
}

pub open spec fn spec_color_space_to_ffi(color_space: ColorSpace) -> u32 {
    match color_space {
        ColorSpace::Unknown => FT_COLOR_SPACE_UNKNOWN,
        ColorSpace::Srgb => FT_COLOR_SPACE_SRGB,
    }
}

pub fn color_space_from_ffi(color_space: u32) -> (parsed: Option<ColorSpace>)
    ensures
        parsed == spec_color_space_from_ffi(color_space),
{
    match color_space {
        FT_COLOR_SPACE_UNKNOWN => Some(ColorSpace::Unknown),
        FT_COLOR_SPACE_SRGB => Some(ColorSpace::Srgb),
        _ => None,
    }
}

pub fn color_space_to_ffi(color_space: ColorSpace) -> (code: u32)
    ensures
        code == spec_color_space_to_ffi(color_space),
{
    match color_space {
        ColorSpace::Unknown => FT_COLOR_SPACE_UNKNOWN,
        ColorSpace::Srgb => FT_COLOR_SPACE_SRGB,
    }
}

pub open spec fn spec_sync_kind_from_ffi(sync_kind: u32) -> Option<FrameSyncKind> {
    if sync_kind == FT_FRAME_SYNC_UNKNOWN {
        Some(FrameSyncKind::Unknown)
    } else if sync_kind == FT_FRAME_SYNC_CPU_COPY_COMPLETE {
        Some(FrameSyncKind::CpuCopyComplete)
    } else if sync_kind == FT_FRAME_SYNC_SCK_SAMPLE_READY {
        Some(FrameSyncKind::SckSampleReady)
    } else if sync_kind == FT_FRAME_SYNC_NATIVE_TIMELINE {
        Some(FrameSyncKind::NativeTimeline)
    } else {
        None
    }
}

pub open spec fn spec_sync_kind_to_ffi(sync_kind: FrameSyncKind) -> u32 {
    match sync_kind {
        FrameSyncKind::Unknown => FT_FRAME_SYNC_UNKNOWN,
        FrameSyncKind::CpuCopyComplete => FT_FRAME_SYNC_CPU_COPY_COMPLETE,
        FrameSyncKind::SckSampleReady => FT_FRAME_SYNC_SCK_SAMPLE_READY,
        FrameSyncKind::NativeTimeline => FT_FRAME_SYNC_NATIVE_TIMELINE,
    }
}

pub fn sync_kind_from_ffi(sync_kind: u32) -> (parsed: Option<FrameSyncKind>)
    ensures
        parsed == spec_sync_kind_from_ffi(sync_kind),
{
    match sync_kind {
        FT_FRAME_SYNC_UNKNOWN => Some(FrameSyncKind::Unknown),
        FT_FRAME_SYNC_CPU_COPY_COMPLETE => Some(FrameSyncKind::CpuCopyComplete),
        FT_FRAME_SYNC_SCK_SAMPLE_READY => Some(FrameSyncKind::SckSampleReady),
        FT_FRAME_SYNC_NATIVE_TIMELINE => Some(FrameSyncKind::NativeTimeline),
        _ => None,
    }
}

pub fn sync_kind_to_ffi(sync_kind: FrameSyncKind) -> (code: u32)
    ensures
        code == spec_sync_kind_to_ffi(sync_kind),
{
    match sync_kind {
        FrameSyncKind::Unknown => FT_FRAME_SYNC_UNKNOWN,
        FrameSyncKind::CpuCopyComplete => FT_FRAME_SYNC_CPU_COPY_COMPLETE,
        FrameSyncKind::SckSampleReady => FT_FRAME_SYNC_SCK_SAMPLE_READY,
        FrameSyncKind::NativeTimeline => FT_FRAME_SYNC_NATIVE_TIMELINE,
    }
}

pub open spec fn spec_damage_kind_from_ffi(damage_kind: u32) -> Option<DamageKind> {
    if damage_kind == FT_DAMAGE_UNKNOWN {
        Some(DamageKind::Unknown)
    } else if damage_kind == FT_DAMAGE_FULL_FRAME {
        Some(DamageKind::FullFrame)
    } else if damage_kind == FT_DAMAGE_NONE {
        Some(DamageKind::Unchanged)
    } else if damage_kind == FT_DAMAGE_INLINE_RECTS {
        Some(DamageKind::InlineRects)
    } else if damage_kind == FT_DAMAGE_SIDECAR_RECTS {
        Some(DamageKind::SidecarRects)
    } else {
        None
    }
}

pub open spec fn spec_damage_kind_to_ffi(damage_kind: DamageKind) -> u32 {
    match damage_kind {
        DamageKind::Unknown => FT_DAMAGE_UNKNOWN,
        DamageKind::FullFrame => FT_DAMAGE_FULL_FRAME,
        DamageKind::Unchanged => FT_DAMAGE_NONE,
        DamageKind::InlineRects => FT_DAMAGE_INLINE_RECTS,
        DamageKind::SidecarRects => FT_DAMAGE_SIDECAR_RECTS,
    }
}

pub fn damage_kind_from_ffi(damage_kind: u32) -> (parsed: Option<DamageKind>)
    ensures
        parsed == spec_damage_kind_from_ffi(damage_kind),
{
    match damage_kind {
        FT_DAMAGE_UNKNOWN => Some(DamageKind::Unknown),
        FT_DAMAGE_FULL_FRAME => Some(DamageKind::FullFrame),
        FT_DAMAGE_NONE => Some(DamageKind::Unchanged),
        FT_DAMAGE_INLINE_RECTS => Some(DamageKind::InlineRects),
        FT_DAMAGE_SIDECAR_RECTS => Some(DamageKind::SidecarRects),
        _ => None,
    }
}

pub fn damage_kind_to_ffi(damage_kind: DamageKind) -> (code: u32)
    ensures
        code == spec_damage_kind_to_ffi(damage_kind),
{
    match damage_kind {
        DamageKind::Unknown => FT_DAMAGE_UNKNOWN,
        DamageKind::FullFrame => FT_DAMAGE_FULL_FRAME,
        DamageKind::Unchanged => FT_DAMAGE_NONE,
        DamageKind::InlineRects => FT_DAMAGE_INLINE_RECTS,
        DamageKind::SidecarRects => FT_DAMAGE_SIDECAR_RECTS,
    }
}

/// Law: every model value survives the trip to its C number and back, and
/// every C number that names a model value is that value's number.
pub proof fn law_ffi_codes_round_trip(
    format: PixelFormat,
    domain: ClockDomain,
    color_space: ColorSpace,
    sync_kind: FrameSyncKind,
    damage_kind: DamageKind,
    code: u32,
)
    ensures
        spec_pixel_format_from_ffi(spec_pixel_format_to_ffi(format)) == Some(format),
        spec_clock_domain_from_ffi(spec_clock_domain_to_ffi(domain)) == Some(domain),
        spec_color_space_from_ffi(spec_color_space_to_ffi(color_space)) == Some(color_space),
        spec_sync_kind_from_ffi(spec_sync_kind_to_ffi(sync_kind)) == Some(sync_kind),
        spec_damage_kind_from_ffi(spec_damage_kind_to_ffi(damage_kind)) == Some(damage_kind),
        spec_pixel_format_from_ffi(code) matches Some(parsed) ==> spec_pixel_format_to_ffi(parsed) == code,
        spec_clock_domain_from_ffi(code) matches Some(parsed) ==> spec_clock_domain_to_ffi(parsed) == code,
        spec_color_space_from_ffi(code) matches Some(parsed) ==> spec_color_space_to_ffi(parsed) == code,
        spec_sync_kind_from_ffi(code) matches Some(parsed) ==> spec_sync_kind_to_ffi(parsed) == code,
        spec_damage_kind_from_ffi(code) matches Some(parsed) ==> spec_damage_kind_to_ffi(parsed) == code,
{
}

/// The model track a C track descriptor stands for, if it names one.
pub open spec fn spec_track_desc_from_ffi(desc: FtTrackDesc) -> Option<TrackDesc> {
    if desc.track_type == FT_TRACK_TYPE_VIDEO {
        match spec_pixel_format_from_ffi(desc.video.pixel_format) {
            Some(pixel_format) => Some(
                TrackDesc::Video(VideoTrackDesc { width: desc.video.width, height: desc.video.height, pixel_format }),
            ),
            None => None,
        }
    } else {
        None
    }
}

pub fn track_desc_from_ffi(desc: &FtTrackDesc) -> (parsed: Option<TrackDesc>)
    ensures
        parsed == spec_track_desc_from_ffi(*desc),
{
    if desc.track_type == FT_TRACK_TYPE_VIDEO {
        match pixel_format_from_ffi(desc.video.pixel_format) {
            Some(pixel_format) => Some(
                TrackDesc::Video(VideoTrackDesc { width: desc.video.width, height: desc.video.height, pixel_format }),
            ),
            None => None,
        }
    } else {
        None
    }
}

/// The source kind a C number names, if any.
pub open spec fn spec_source_kind_from_ffi(kind: u32) -> Option<SourceKind> {
    if kind == FT_SOURCE_KIND_WINDOW {
        Some(SourceKind::Window)
    } else if kind == FT_SOURCE_KIND_DISPLAY {
        Some(SourceKind::Display)
    } else if kind == FT_SOURCE_KIND_SURFACE {
        Some(SourceKind::Surface)
    } else {
        None
    }
}

pub fn source_kind_from_ffi(kind: u32) -> (parsed: Option<SourceKind>)
    ensures
        parsed == spec_source_kind_from_ffi(kind),
{
    match kind {
        FT_SOURCE_KIND_WINDOW => Some(SourceKind::Window),
        FT_SOURCE_KIND_DISPLAY => Some(SourceKind::Display),
        FT_SOURCE_KIND_SURFACE => Some(SourceKind::Surface),
        _ => None,
    }
}

pub open spec fn spec_event_kind_to_ffi(kind: EventKind) -> u32 {
    match kind {
        EventKind::ProducerStarted => FT_EVENT_PRODUCER_STARTED,
        EventKind::SourceRegistered => FT_EVENT_SOURCE_REGISTERED,
        EventKind::SourceUpdated => FT_EVENT_SOURCE_UPDATED,
        EventKind::TrackRegistered => FT_EVENT_TRACK_REGISTERED,
        EventKind::TrackUpdated => FT_EVENT_TRACK_UPDATED,
        EventKind::SourceUnregistered => FT_EVENT_SOURCE_UNREGISTERED,
        EventKind::ProducerStopped => FT_EVENT_PRODUCER_STOPPED,
    }
}

pub fn event_kind_to_ffi(kind: EventKind) -> (code: u32)
    ensures
        code == spec_event_kind_to_ffi(kind),
{
    match kind {
        EventKind::ProducerStarted => FT_EVENT_PRODUCER_STARTED,
        EventKind::SourceRegistered => FT_EVENT_SOURCE_REGISTERED,
        EventKind::SourceUpdated => FT_EVENT_SOURCE_UPDATED,
        EventKind::TrackRegistered => FT_EVENT_TRACK_REGISTERED,
        EventKind::TrackUpdated => FT_EVENT_TRACK_UPDATED,
        EventKind::SourceUnregistered => FT_EVENT_SOURCE_UNREGISTERED,
        EventKind::ProducerStopped => FT_EVENT_PRODUCER_STOPPED,
    }
}

/// An event as C callers see it.
pub open spec fn spec_event_to_ffi(event: Event) -> FtEvent {
    let base = FtEvent {
        kind: spec_event_kind_to_ffi(event.kind_view()),
        source_id: match event.source_id_view() {
            Some(id) => id@,
            None => 0,
        },
        track_id: match event.track_id_view() {
            Some(id) => id@,
            None => 0,
        },
        track_type: 0,
        width: 0,
        height: 0,
        pixel_format: 0,
    };
    match event.track_desc_view() {
        Some(TrackDesc::Video(video)) => FtEvent {
            track_type: FT_TRACK_TYPE_VIDEO,
            width: video.width,
            height: video.height,
            pixel_format: spec_pixel_format_to_ffi(video.pixel_format),
            ..base
        },
        None => base,
    }
}

pub fn event_to_ffi(event: &Event) -> (ffi: FtEvent)
    ensures
        ffi == spec_event_to_ffi(*event),
{
    let mut ffi = FtEvent {
        kind: event_kind_to_ffi(event.kind()),
        source_id: match event.source_id() {
            Some(id) => id.get(),
            None => 0,
        },
        track_id: match event.track_id() {
            Some(id) => id.get(),
            None => 0,
        },
        track_type: 0,
        width: 0,
        height: 0,
        pixel_format: 0,
    };
    if let Some(TrackDesc::Video(video)) = event.track_desc() {
        ffi.track_type = FT_TRACK_TYPE_VIDEO;
        ffi.width = video.width;
        ffi.height = video.height;
        ffi.pixel_format = pixel_format_to_ffi(video.pixel_format);
    }
    ffi
}

/// An event record with the given kind and ids and no track geometry.
pub open spec fn spec_plain_event(kind: u32, source_id: u64, track_id: u64) -> FtEvent {
    FtEvent { kind, source_id, track_id, track_type: 0, width: 0, height: 0, pixel_format: 0 }
}

/// The events a consumer of a daemon session replays: its source, then its
/// video track.
pub open spec fn spec_session_events(info: SessionInfo) -> Seq<FtEvent> {
    seq![
        spec_plain_event(FT_EVENT_SOURCE_REGISTERED, info.source_id, 0),
        FtEvent {
            kind: FT_EVENT_TRACK_REGISTERED,
            source_id: info.source_id,
            track_id: info.track_id,
            track_type: FT_TRACK_TYPE_VIDEO,
            width: info.width,
            height: info.height,
            pixel_format: spec_pixel_format_to_ffi(info.pixel_format),
        },
    ]
}

pub fn session_events(info: &SessionInfo) -> (events: Vec<FtEvent>)
    ensures
        events@ == spec_session_events(*info),
{
    let mut events: Vec<FtEvent> = Vec::new();
    events.push(
        FtEvent {
            kind: FT_EVENT_SOURCE_REGISTERED,
            source_id: info.source_id,
            track_id: 0,
            track_type: 0,
            width: 0,
            height: 0,
            pixel_format: 0,
        },
    );
    events.push(
        FtEvent {
            kind: FT_EVENT_TRACK_REGISTERED,
            source_id: info.source_id,
            track_id: info.track_id,
            track_type: FT_TRACK_TYPE_VIDEO,
            width: info.width,
            height: info.height,
            pixel_format: pixel_format_to_ffi(info.pixel_format),
        },
    );
    proof {
        assert(events@ =~= spec_session_events(*info));
    }
    events
}

/// The in-process producer behind the C ABI's producer handle: the session
/// registry its sources and tracks go into, and the counter that hands out
/// consumer ids.
pub struct FtProducer {
    state: SessionState,
    next_consumer_id: u64,
}

impl FtProducer {
    pub closed spec fn state_view(&self) -> SessionState {
        self.state
    }

    /// The id the last connected consumer got (0 before the first).
    pub closed spec fn last_consumer_id_view(&self) -> u64 {
        self.next_consumer_id
    }

    /// A producer with an empty session and no consumers yet.
    pub fn new() -> (producer: Self)
        ensures
            producer.state_view().wf(),
            producer.state_view().next_source_id_view() == 1,
            producer.state_view().next_track_id_view() == 1,
            producer.state_view().sources_view() == Map::<u64, SourceDesc>::empty(),
            producer.state_view().events_view() == Seq::<Event>::empty(),
            producer.last_consumer_id_view() == 0,
    {
        FtProducer { state: SessionState::new(), next_consumer_id: 0 }
    }

    /// The session registry.
    pub fn state(&self) -> (state: &SessionState)
        ensures
            *state == self.state_view(),
    {
        &self.state
    }

    /// Register a source of C kind `kind` labelled `label`; an unknown kind is
    /// an invalid argument.
    pub fn register_source(&mut self, kind: u32, label: String) -> (source_id: core::result::Result<u64, FtStatus>)
        requires
            old(self).state_view().wf(),
            old(self).state_view().next_source_id_view() < u64::MAX,
        ensures
            final(self).state_view().wf(),
            final(self).last_consumer_id_view() == old(self).last_consumer_id_view(),
            match spec_source_kind_from_ffi(kind) {
                None => source_id == Err::<u64, FtStatus>(FT_STATUS_INVALID_ARGUMENT) && final(self).state_view()
                    == old(self).state_view(),
                Some(source_kind) => {
                    let desc = SourceDesc { kind: source_kind, label };
                    &&& source_id == Ok::<u64, FtStatus>(old(self).state_view().next_source_id_view())
                    &&& final(self).state_view().sources_view() == old(self).state_view().sources_view().insert(
                        old(self).state_view().next_source_id_view(),
                        desc,
                    )
                    &&& final(self).state_view().tracks_view() == old(self).state_view().tracks_view()
                    &&& final(self).state_view().events_view().drop_last() == old(self).state_view().events_view()
                    &&& final(self).state_view().events_view().len() == old(self).state_view().events_view().len() + 1
                    &&& spec_event_to_ffi(final(self).state_view().events_view().last()) == spec_plain_event(
                        FT_EVENT_SOURCE_REGISTERED,
                        old(self).state_view().next_source_id_view(),
                        0,
                    )
                    &&& final(self).state_view().events_view().last().source_desc_view() == Some(desc)
                },
            },
    {
        let source_kind = match source_kind_from_ffi(kind) {
            Some(source_kind) => source_kind,
            None => return Err(FT_STATUS_INVALID_ARGUMENT),
        };
        match self.state.register_source(SourceDesc { kind: source_kind, label }) {
            Ok(source_id) => {
                proof {
                    broadcast use Event::lemma_make_parts;

                    assert(self.state.events_view().drop_last() =~= old(self).state.events_view());
                }
                Ok(source_id.get())
            },
            Err(_) => Err(FT_STATUS_ERROR),
        }
    }

    /// Register a video track for `source_id` from its C descriptor; a
    /// descriptor that names no track is an invalid argument, an unknown
    /// source an error.
    pub fn register_track(&mut self, source_id: u64, desc: &FtTrackDesc) -> (track_id: core::result::Result<u64, FtStatus>)
        requires
            old(self).state_view().wf(),
            old(self).state_view().next_track_id_view() < u64::MAX,
        ensures
            final(self).state_view().wf(),
            final(self).last_consumer_id_view() == old(self).last_consumer_id_view(),
            match spec_track_desc_from_ffi(*desc) {
                None => track_id == Err::<u64, FtStatus>(FT_STATUS_INVALID_ARGUMENT) && final(self).state_view()
                    == old(self).state_view(),
                Some(track) => if old(self).state_view().sources_view().contains_key(source_id) {
                    let next = old(self).state_view().next_track_id_view();
                    &&& track_id == Ok::<u64, FtStatus>(next)
                    &&& final(self).state_view().sources_view() == old(self).state_view().sources_view()
                    &&& final(self).state_view().tracks_view().contains_key(next)
                    &&& final(self).state_view().tracks_view().remove(next) == old(self).state_view().tracks_view()
                    &&& final(self).state_view().tracks_view()[next].track_id@ == next
                    &&& final(self).state_view().tracks_view()[next].source_id@ == source_id
                    &&& final(self).state_view().tracks_view()[next].desc == track
                    &&& final(self).state_view().events_view().drop_last() == old(self).state_view().events_view()
                    &&& final(self).state_view().events_view().len() == old(self).state_view().events_view().len() + 1
                    &&& spec_event_to_ffi(final(self).state_view().events_view().last()) == spec_event_to_ffi(
                        Event::spec_make(
                            EventKind::TrackRegistered,
                            Some(final(self).state_view().tracks_view()[next].source_id),
                            Some(final(self).state_view().tracks_view()[next].track_id),
                            None,
                            Some(track),
                        ),
                    )
                } else {
                    &&& track_id == Err::<u64, FtStatus>(FT_STATUS_ERROR)
                    &&& final(self).state_view().sources_view() == old(self).state_view().sources_view()
                    &&& final(self).state_view().tracks_view() == old(self).state_view().tracks_view()
                    &&& final(self).state_view().events_view() == old(self).state_view().events_view()
                },
            },
    {
        let track = match track_desc_from_ffi(desc) {
            Some(track) => track,
            None => return Err(FT_STATUS_INVALID_ARGUMENT),
        };
        match self.state.register_track(SourceId::new(source_id), track) {
            Ok(track_id) => {
                proof {
                    let next = old(self).state.next_track_id_view();
                    assert(!old(self).state.tracks_view().contains_key(next)) by {
                        old(self).state.law_next_ids_are_fresh();
                    }
                    assert(self.state.tracks_view().remove(next) =~= old(self).state.tracks_view());
                    assert(self.state.events_view().drop_last() =~= old(self).state.events_view());
                }
                Ok(track_id.get())
            },
            Err(_) => Err(FT_STATUS_ERROR),
        }
    }

    /// Hand out the next consumer id: one above the last, saturating, and
    /// never 0.
    pub fn connect_consumer(&mut self) -> (consumer_id: u64)
        ensures
            consumer_id == if old(self).last_consumer_id_view() == u64::MAX {
                u64::MAX
            } else {
                (old(self).last_consumer_id_view() + 1) as u64
            },
            consumer_id >= 1,
            final(self).last_consumer_id_view() == consumer_id,
            final(self).state_view() == old(self).state_view(),
    {
        let next = self.next_consumer_id.saturating_add(1);
        self.next_consumer_id = if next < 1 {
            1
        } else {
            next
        };
        self.next_consumer_id
    }

    /// The event a consumer whose replay cursor is `cursor` polls next, if
    /// the log reaches that far.
    pub fn event_at(&self, cursor: usize) -> (event: Option<FtEvent>)
        ensures
            event == if cursor < self.state_view().events_view().len() {
                Some(spec_event_to_ffi(self.state_view().events_view()[cursor as int]))
            } else {
                None::<FtEvent>
            },
    {
        let events = self.state.replay_events();
        if cursor < events.len() {
            Some(event_to_ffi(&events[cursor]))
        } else {
            None
        }
    }
}

/// Whether `value` can be handed to C in a buffer of `buffer_len` bytes: it
/// holds no NUL byte, and its bytes with a NUL terminator fit.
pub fn c_string_fits(value: &str, buffer_len: usize) -> (fits: bool)
    ensures
        fits == (buffer_len > 0 && !value.spec_bytes().contains(0u8) && value.spec_bytes().len() + 1 <= buffer_len),
{
    proof {
        vstd::utf8::encode_utf8_decode_utf8(value@);
    }
    let bytes = value.as_bytes();
    if buffer_len == 0 || bytes.len() >= buffer_len {
        return false;
    }
    let mut index: usize = 0;
    while index < bytes.len()
        invariant
            bytes@ == value.spec_bytes(),
            index <= bytes@.len(),
            forall|j: int| 0 <= j < index ==> bytes@[j] != 0u8,
        decreases bytes@.len() - index,
    {
        if bytes[index] == 0 {
            proof {
                assert(value.spec_bytes()[index as int] == 0u8);
            }
            return false;
        }
        index = index + 1;
    }
    proof {
        assert(!value.spec_bytes().contains(0u8));
    }
    true
}

/// Law: each C number of a pixel format, clock domain, color space, sync
/// kind or damage kind is the number the control ring stores for the same
/// value, and reading a number back gives the value it was written for;
/// event kinds are numbered 1 to 7 in declaration order.
pub proof fn law_ffi_numbers_round_trip()
    ensures
        forall|x: PixelFormat| #[trigger] spec_pixel_format_to_ffi(x) == crate::model::spec_pixel_format_code(x),
        forall|x: PixelFormat| spec_pixel_format_from_ffi(#[trigger] spec_pixel_format_to_ffi(x)) == Some(x),
        forall|n: u32| #[trigger] spec_pixel_format_from_ffi(n) matches Some(x) ==> spec_pixel_format_to_ffi(x) == n,
        forall|x: ClockDomain| #[trigger] spec_clock_domain_to_ffi(x) == crate::model::spec_clock_domain_code(x),
        forall|x: ClockDomain| spec_clock_domain_from_ffi(#[trigger] spec_clock_domain_to_ffi(x)) == Some(x),
        forall|n: u32| #[trigger] spec_clock_domain_from_ffi(n) matches Some(x) ==> spec_clock_domain_to_ffi(x) == n,
        forall|x: ColorSpace| #[trigger] spec_color_space_to_ffi(x) == crate::model::spec_color_space_code(x),
        forall|x: ColorSpace| spec_color_space_from_ffi(#[trigger] spec_color_space_to_ffi(x)) == Some(x),
        forall|n: u32| #[trigger] spec_color_space_from_ffi(n) matches Some(x) ==> spec_color_space_to_ffi(x) == n,
        forall|x: FrameSyncKind| #[trigger] spec_sync_kind_to_ffi(x) == crate::model::spec_sync_kind_code(x),
        forall|x: FrameSyncKind| spec_sync_kind_from_ffi(#[trigger] spec_sync_kind_to_ffi(x)) == Some(x),
        forall|n: u32| #[trigger] spec_sync_kind_from_ffi(n) matches Some(x) ==> spec_sync_kind_to_ffi(x) == n,
        forall|x: DamageKind| #[trigger] spec_damage_kind_to_ffi(x) == crate::model::spec_damage_kind_code(x),
        forall|x: DamageKind| spec_damage_kind_from_ffi(#[trigger] spec_damage_kind_to_ffi(x)) == Some(x),
        forall|n: u32| #[trigger] spec_damage_kind_from_ffi(n) matches Some(x) ==> spec_damage_kind_to_ffi(x) == n,
        spec_event_kind_to_ffi(EventKind::ProducerStarted) == 1,
        spec_event_kind_to_ffi(EventKind::SourceRegistered) == 2,
        spec_event_kind_to_ffi(EventKind::SourceUpdated) == 3,
        spec_event_kind_to_ffi(EventKind::TrackRegistered) == 4,
        spec_event_kind_to_ffi(EventKind::TrackUpdated) == 5,
        spec_event_kind_to_ffi(EventKind::SourceUnregistered) == 6,
        spec_event_kind_to_ffi(EventKind::ProducerStopped) == 7,
{
}

/// Law: a C event record carries the event's kind number, its source and
/// track ids (0 when it names none) and, for a video track description, the
/// track's own width, height and pixel format; and a C video track record
/// reads back as the video track it describes, with its own width and
/// height.
pub proof fn law_ffi_records_carry_values(event: Event, desc: FtTrackDesc)
    ensures
        ({
            let ffi = spec_event_to_ffi(event);
            &&& ffi.kind == spec_event_kind_to_ffi(event.kind_view())
            &&& ffi.source_id == (if event.source_id_view() is Some {
                event.source_id_view().unwrap()@
            } else {
                0
            })
            &&& ffi.track_id == (if event.track_id_view() is Some {
                event.track_id_view().unwrap()@
            } else {
                0
            })
            &&& event.track_desc_view() matches Some(TrackDesc::Video(video)) ==> {
                &&& ffi.track_type == FT_TRACK_TYPE_VIDEO
                &&& ffi.width == video.width
                &&& ffi.height == video.height
                &&& spec_pixel_format_from_ffi(ffi.pixel_format) == Some(video.pixel_format)
            }
            &&& event.track_desc_view() is None ==> ffi.track_type == 0 && ffi.width == 0 && ffi.height == 0
        }),
        spec_track_desc_from_ffi(desc) matches Some(TrackDesc::Video(video)) ==> {
            &&& desc.track_type == FT_TRACK_TYPE_VIDEO
            &&& video.width == desc.video.width
            &&& video.height == desc.video.height
            &&& spec_pixel_format_to_ffi(video.pixel_format) == desc.video.pixel_format
        },
{
}

} // verus!
