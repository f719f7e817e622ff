//! Identifiers and stream metadata shared by producers and consumers.

use vstd::prelude::*;

verus! {

/// A capture source (window, display or surface) registered with a session.
#[derive(Debug, Clone, Copy, PartialEq, Eq, Structural, Hash, PartialOrd, Ord)]
pub struct SourceId(u64);

impl View for SourceId {
    type V = u64;

    closed spec fn view(&self) -> u64 {
        self.0
    }
}

impl SourceId {
    pub fn new(value: u64) -> (id: Self)
        ensures
            id@ == value,
    {
        Self(value)
    }

    pub fn get(self) -> (value: u64)
        ensures
            value == self@,
    {
        self.0
    }

    /// Two source ids are the same id exactly when they carry the same number.
    pub broadcast proof fn lemma_view_injective(a: SourceId, b: SourceId)
        ensures
            #![trigger a@, b@]
            a@ == b@ <==> a == b,
    {
    }
}

/// A track (one media stream) belonging to a source.
#[derive(Debug, Clone, Copy, PartialEq, Eq, Structural, Hash, PartialOrd, Ord)]
pub struct TrackId(u64);

impl View for TrackId {
    type V = u64;

    closed spec fn view(&self) -> u64 {
        self.0
    }
}

impl TrackId {
    pub fn new(value: u64) -> (id: Self)
        ensures
            id@ == value,
    {
        Self(value)
    }

    pub fn get(self) -> (value: u64)
        ensures
            value == self@,
    {
        self.0
    }

    /// Two track ids are the same id exactly when they carry the same number.
    pub broadcast proof fn lemma_view_injective(a: TrackId, b: TrackId)
        ensures
            #![trigger a@, b@]
            a@ == b@ <==> a == b,
    {
    }
}

/// A capture session.
#[derive(Debug, Clone, Copy, PartialEq, Eq, Structural, Hash, PartialOrd, Ord)]
pub struct SessionId(u64);

impl View for SessionId {
    type V = u64;

    closed spec fn view(&self) -> u64 {
        self.0
    }
}

impl SessionId {
    pub fn new(value: u64) -> (id: Self)
        ensures
            id@ == value,
    {
        Self(value)
    }

    pub fn get(self) -> (value: u64)
        ensures
            value == self@,
    {
        self.0
    }
}

/// A producer frame count.
#[derive(Debug, Clone, Copy, PartialEq, Eq, Structural, Hash, PartialOrd, Ord)]
pub struct FrameSequence(u64);

impl View for FrameSequence {
    type V = u64;

    closed spec fn view(&self) -> u64 {
        self.0
    }
}

impl FrameSequence {
    pub fn new(value: u64) -> (sequence: Self)
        ensures
            sequence@ == value,
    {
        Self(value)
    }

    pub fn get(self) -> (value: u64)
        ensures
            value == self@,
    {
        self.0
    }
}

pub broadcast group group_id_views {
    SourceId::lemma_view_injective,
    TrackId::lemma_view_injective,
}

#[derive(Debug, PartialEq, Eq)]
pub struct SourceDesc {
    pub kind: SourceKind,
    pub label: String,
}

impl Clone for SourceDesc {
    fn clone(&self) -> (copy: Self)
        ensures
            copy == *self,
    {
        SourceDesc { kind: self.kind, label: self.label.clone() }
    }
}

#[derive(Debug, Clone, Copy, PartialEq, Eq, Structural)]
pub enum SourceKind {
    Window,
    Display,
    Surface,
}

#[derive(Debug, Clone, Copy, PartialEq, Eq, Structural)]
pub enum TrackDesc {
    Video(VideoTrackDesc),
}

/// The media type a track descriptor carries.
pub open spec fn spec_track_type(desc: TrackDesc) -> TrackType {
    match desc {
        TrackDesc::Video(_) => TrackType::Video,
    }
}

impl TrackDesc {
    pub fn track_type(&self) -> (kind: TrackType)
        ensures
            kind == spec_track_type(*self),
    {
        match self {
            TrackDesc::Video(_) => TrackType::Video,
        }
    }
}

#[derive(Debug, Clone, Copy, PartialEq, Eq, Structural)]
pub struct VideoTrackDesc {
    pub width: u32,
    pub height: u32,
    pub pixel_format: PixelFormat,
}

#[derive(Debug, Clone, Copy, PartialEq, Eq, Structural)]
pub enum TrackType {
    Video,
    Audio,
    AccessibilityEvents,
    Metadata,
    InputCorrelation,
}

#[derive(Debug, Clone, Copy, PartialEq, Eq, Structural)]
pub enum PayloadKind {
    CpuShm,
    IoSurface,
    DmaBuf,
    D3dSharedResource,
}

/// The wire number of a payload kind (its declaration position).
pub open spec fn spec_payload_kind_code(kind: PayloadKind) -> u32 {
    match kind {
        PayloadKind::CpuShm => 0,
        PayloadKind::IoSurface => 1,
        PayloadKind::DmaBuf => 2,
        PayloadKind::D3dSharedResource => 3,
    }
}

impl PayloadKind {
    pub fn code(self) -> (code: u32)
        ensures
            code == spec_payload_kind_code(self),
    {
        match self {
            PayloadKind::CpuShm => 0,
            PayloadKind::IoSurface => 1,
            PayloadKind::DmaBuf => 2,
            PayloadKind::D3dSharedResource => 3,
        }
    }
}

/// Pixel layouts; the wire numbers are 0, 1 and 2 in declaration order.
#[derive(Debug, Clone, Copy, PartialEq, Eq, Structural)]
pub enum PixelFormat {
    Unknown,
    Bgra8Unorm,
    Rgba8Unorm,
}

pub open spec fn spec_pixel_format_code(format: PixelFormat) -> u32 {
    match format {
        PixelFormat::Unknown => 0,
        PixelFormat::Bgra8Unorm => 1,
        PixelFormat::Rgba8Unorm => 2,
    }
}

impl PixelFormat {
    pub fn code(self) -> (code: u32)
        ensures
            code == spec_pixel_format_code(self),
    {
        match self {
            PixelFormat::Unknown => 0,
            PixelFormat::Bgra8Unorm => 1,
            PixelFormat::Rgba8Unorm => 2,
        }
    }
}

/// Color spaces; the wire numbers are 0 and 1 in declaration order.
#[derive(Debug, Clone, Copy, PartialEq, Eq, Structural)]
pub enum ColorSpace {
    Unknown,
    Srgb,
}

pub open spec fn spec_color_space_code(color_space: ColorSpace) -> u32 {
    match color_space {
        ColorSpace::Unknown => 0,
        ColorSpace::Srgb => 1,
    }
}

impl ColorSpace {
    pub fn code(self) -> (code: u32)
        ensures
            code == spec_color_space_code(self),
    {
        match self {
            ColorSpace::Unknown => 0,
            ColorSpace::Srgb => 1,
        }
    }
}

/// Timestamp clock domains; the wire numbers are 0 to 3 in declaration order.
#[derive(Debug, Clone, Copy, PartialEq, Eq, Structural)]
pub enum ClockDomain {
    Unknown,
    UnixTime,
    MediaTime,
    HostTime,
}

pub open spec fn spec_clock_domain_code(domain: ClockDomain) -> u32 {
    match domain {
        ClockDomain::Unknown => 0,
        ClockDomain::UnixTime => 1,
        ClockDomain::MediaTime => 2,
        ClockDomain::HostTime => 3,
    }
}

impl ClockDomain {
    pub fn code(self) -> (code: u32)
        ensures
            code == spec_clock_domain_code(self),
    {
        match self {
            ClockDomain::Unknown => 0,
            ClockDomain::UnixTime => 1,
            ClockDomain::MediaTime => 2,
            ClockDomain::HostTime => 3,
        }
    }
}

/// How a consumer learns a frame's pixels are complete; wire numbers 0 to 3.
#[derive(Debug, Clone, Copy, PartialEq, Eq, Structural)]
pub enum FrameSyncKind {
    Unknown,
    CpuCopyComplete,
    SckSampleReady,
    NativeTimeline,
}

pub open spec fn spec_sync_kind_code(kind: FrameSyncKind) -> u32 {
    match kind {
        FrameSyncKind::Unknown => 0,
        FrameSyncKind::CpuCopyComplete => 1,
        FrameSyncKind::SckSampleReady => 2,
        FrameSyncKind::NativeTimeline => 3,
    }
}

impl FrameSyncKind {
    pub fn code(self) -> (code: u32)
        ensures
            code == spec_sync_kind_code(self),
    {
        match self {
            FrameSyncKind::Unknown => 0,
            FrameSyncKind::CpuCopyComplete => 1,
            FrameSyncKind::SckSampleReady => 2,
            FrameSyncKind::NativeTimeline => 3,
        }
    }
}

/// What part of a frame changed; wire numbers 0 to 4 in declaration order.
#[derive(Debug, Clone, Copy, PartialEq, Eq, Structural)]
pub enum DamageKind {
    Unknown,
    FullFrame,
    Unchanged,
    InlineRects,
    SidecarRects,
}

pub open spec fn spec_damage_kind_code(kind: DamageKind) -> u32 {
    match kind {
        DamageKind::Unknown => 0,
        DamageKind::FullFrame => 1,
        DamageKind::Unchanged => 2,
        DamageKind::InlineRects => 3,
        DamageKind::SidecarRects => 4,
    }
}

impl DamageKind {
    pub fn code(self) -> (code: u32)
        ensures
            code == spec_damage_kind_code(self),
    {
        match self {
            DamageKind::Unknown => 0,
            DamageKind::FullFrame => 1,
            DamageKind::Unchanged => 2,
            DamageKind::InlineRects => 3,
            DamageKind::SidecarRects => 4,
        }
    }
}

/// Law: the wire number of each payload kind, pixel format, color space,
/// clock domain, sync kind and damage kind is its declaration position, so
/// distinct values never share a number.
pub proof fn law_wire_codes_are_declaration_positions()
    ensures
        spec_payload_kind_code(PayloadKind::CpuShm) == 0,
        spec_payload_kind_code(PayloadKind::IoSurface) == 1,
        spec_payload_kind_code(PayloadKind::DmaBuf) == 2,
        spec_payload_kind_code(PayloadKind::D3dSharedResource) == 3,
        spec_pixel_format_code(PixelFormat::Unknown) == 0,
        spec_pixel_format_code(PixelFormat::Bgra8Unorm) == 1,
        spec_pixel_format_code(PixelFormat::Rgba8Unorm) == 2,
        spec_color_space_code(ColorSpace::Unknown) == 0,
        spec_color_space_code(ColorSpace::Srgb) == 1,
        spec_clock_domain_code(ClockDomain::Unknown) == 0,
        spec_clock_domain_code(ClockDomain::UnixTime) == 1,
        spec_clock_domain_code(ClockDomain::MediaTime) == 2,
        spec_clock_domain_code(ClockDomain::HostTime) == 3,
        spec_sync_kind_code(FrameSyncKind::Unknown) == 0,
        spec_sync_kind_code(FrameSyncKind::CpuCopyComplete) == 1,
        spec_sync_kind_code(FrameSyncKind::SckSampleReady) == 2,
        spec_sync_kind_code(FrameSyncKind::NativeTimeline) == 3,
        spec_damage_kind_code(DamageKind::Unknown) == 0,
        spec_damage_kind_code(DamageKind::FullFrame) == 1,
        spec_damage_kind_code(DamageKind::Unchanged) == 2,
        spec_damage_kind_code(DamageKind::InlineRects) == 3,
        spec_damage_kind_code(DamageKind::SidecarRects) == 4,
{
}

} // verus!
