//! The native handle path's C ABI, as far as it decides: which records a
//! caller may pass, what a lease release asks for, which frame an acquire
//! hands out, and the control events a consumer polls. Pointers, handles and
//! the attach transport stay with the host's boundary code.

use vstd::prelude::*;

use crate::control_page::{spec_readable_configs, StreamConfig, VideoRingEntry, VideoRingReadError, VideoTrackControlPage};
use crate::ffi::{
    FtStatus, FT_STATUS_CLOSED, FT_STATUS_EMPTY, FT_STATUS_ERROR, FT_STATUS_INVALID_ARGUMENT, FT_STATUS_INVALID_STATE,
    FT_STATUS_OK, FT_STATUS_TIMEOUT, FT_STATUS_UNSUPPORTED,
};
use crate::native::linux::{
    spec_surface_failure, LinuxAttachGrant, LinuxAttachResponse, LinuxPoolDescriptor, LinuxSurfaceDescriptor,
};
use crate::native::lease::{
    NativeLeaseBook, NativeLeaseError, NativeLeaseIdentity, NativeLeaseRelease, ReleasedNativeLease,
};

verus! {

pub const FT_NATIVE_ATTACH_TRANSPORT_MACOS_XPC: u32 = 1;
pub const FT_NATIVE_ATTACH_TRANSPORT_UNIX_SOCKET: u32 = 2;

pub const FT_NATIVE_HANDLE_IOSURFACE: u32 = 1;
pub const FT_NATIVE_HANDLE_DMABUF: u32 = 2;
pub const FT_NATIVE_HANDLE_D3D12_RESOURCE: u32 = 3;
pub const FT_NATIVE_MAX_PLANES: usize = 4;

pub const FT_NATIVE_SYNC_NONE: u32 = 0;
pub const FT_NATIVE_SYNC_MTL_SHARED_EVENT: u32 = 1;
pub const FT_NATIVE_SYNC_DRM_SYNCOBJ_TIMELINE: u32 = 2;
pub const FT_NATIVE_SYNC_D3D12_FENCE: u32 = 3;

pub const FT_NATIVE_RELEASE_NOW: u32 = 1;
pub const FT_NATIVE_RELEASE_TIMELINE_VALUE: u32 = 2;

pub const FT_NATIVE_EVENT_POOL_ADDED: u32 = 1;
pub const FT_NATIVE_EVENT_POOL_REMOVED: u32 = 2;
pub const FT_NATIVE_EVENT_STREAM_CONFIG_CHANGED: u32 = 3;
pub const FT_NATIVE_EVENT_PRODUCER_STOPPED: u32 = 4;

pub const FT_WAIT_INFINITE: u64 = 0xffff_ffff_ffff_ffff;

/// Byte sizes of the C records, as the ABI lays them out.
pub const FT_NATIVE_PLANE_SIZE: u32 = 12;
pub const FT_NATIVE_FRAME_SIZE: u32 = 80;
pub const FT_NATIVE_RELEASE_SIZE: u32 = 32;
pub const FT_NATIVE_EVENT_SIZE: u32 = 24;
pub const FT_NATIVE_ATTACH_DESCRIPTOR_SIZE: u32 = 40;
pub const FT_NATIVE_SURFACE_SIZE: u32 = 88;
pub const FT_NATIVE_SYNC_SIZE: u32 = 24;
pub const FT_NATIVE_POOL_SIZE: u32 = 24;
pub const FT_NATIVE_GRANT_SIZE: u32 = 56;

#[derive(Debug, Clone, Copy, PartialEq, Eq, Structural)]
pub struct FtNativePlane {
    pub fd: i32,
    pub offset: u32,
    pub stride: u32,
}

#[derive(Debug, Clone, Copy, PartialEq, Eq, Structural)]
pub struct FtNativeFrame {
    pub struct_size: u32,
    pub flags: u32,
    pub lease_id: u64,
    pub cursor: u64,
    pub sequence: u64,
    pub timestamp_ns: u64,
    pub pool_id: u64,
    pub slot_id: u32,
    pub width: u32,
    pub height: u32,
    pub pixel_format: u32,
    pub producer_sync_id: u64,
    pub producer_sync_value: u64,
}

#[derive(Debug, Clone, Copy, PartialEq, Eq, Structural)]
pub struct FtNativeRelease {
    pub struct_size: u32,
    pub release_kind: u32,
    pub lease_id: u64,
    pub release_sync_id: u64,
    pub release_value: u64,
}

#[derive(Debug, Clone, Copy, PartialEq, Eq, Structural)]
pub struct FtNativeEvent {
    pub struct_size: u32,
    pub kind: u32,
    pub pool_id: u64,
    pub config_generation: u64,
}

/// Whether a caller-declared record size covers the record the library
/// writes or reads (callers built against a larger, newer record pass).
pub fn valid_struct_size(size: u32, required: u32) -> (valid: bool)
    ensures
        valid == (size >= required),
{
    size >= required
}

/// The lease release a C release record asks for, if its kind is known.
pub open spec fn spec_release_from_ffi(release: FtNativeRelease) -> Option<NativeLeaseRelease> {
    if release.release_kind == FT_NATIVE_RELEASE_NOW {
        Some(NativeLeaseRelease::Now)
    } else if release.release_kind == FT_NATIVE_RELEASE_TIMELINE_VALUE {
        Some(
            NativeLeaseRelease::TimelineValue {
                release_sync_id: release.release_sync_id,
                value: release.release_value,
            },
        )
    } else {
        None
    }
}

pub fn release_from_ffi(release: &FtNativeRelease) -> (parsed: Option<NativeLeaseRelease>)
    ensures
        parsed == spec_release_from_ffi(*release),
{
    match release.release_kind {
        FT_NATIVE_RELEASE_NOW => Some(NativeLeaseRelease::Now),
        FT_NATIVE_RELEASE_TIMELINE_VALUE => Some(
            NativeLeaseRelease::TimelineValue {
                release_sync_id: release.release_sync_id,
                value: release.release_value,
            },
        ),
        _ => None,
    }
}

/// What an acquire of the newest frame above a cursor does.
#[derive(Debug, Clone, Copy, PartialEq, Eq, Structural)]
pub enum AcquireChoice {
    /// Take a lease on this frame; `frame` lacks only the lease id.
    Lease { identity: NativeLeaseIdentity, frame: FtNativeFrame },
    /// Nothing newer: report `FT_STATUS_EMPTY`, or `FT_STATUS_CLOSED` once
    /// the producer stopped.
    NothingNewer,
    /// The ring could not be read.
    Failed,
}

/// The C frame record of `entry` under lease `lease_id`.
pub open spec fn spec_frame_of(entry: VideoRingEntry, lease_id: u64) -> FtNativeFrame {
    FtNativeFrame {
        struct_size: FT_NATIVE_FRAME_SIZE,
        flags: entry.flags,
        lease_id,
        cursor: entry.cursor,
        sequence: entry.sequence,
        timestamp_ns: entry.timestamp_ns,
        pool_id: entry.pool_id,
        slot_id: entry.slot_id,
        width: entry.width,
        height: entry.height,
        pixel_format: entry.pixel_format,
        producer_sync_id: entry.fence_id,
        producer_sync_value: entry.fence_value,
    }
}

/// The lease identity of `entry`.
pub open spec fn spec_identity_of(entry: VideoRingEntry) -> NativeLeaseIdentity {
    NativeLeaseIdentity { cursor: entry.cursor, sequence: entry.sequence, pool_id: entry.pool_id, slot_id: entry.slot_id }
}

/// Choose what to hand out from the ring's newest entry, given that the
/// caller already holds everything up to `min_cursor`.
pub fn choose_latest(
    latest: core::result::Result<Option<VideoRingEntry>, VideoRingReadError>,
    min_cursor: u64,
) -> (choice: AcquireChoice)
    ensures
        choice == (match latest {
            Ok(Some(entry)) => if entry.cursor > min_cursor {
                AcquireChoice::Lease { identity: spec_identity_of(entry), frame: spec_frame_of(entry, 0) }
            } else {
                AcquireChoice::NothingNewer
            },
            Ok(None) => AcquireChoice::NothingNewer,
            Err(_) => AcquireChoice::Failed,
        }),
        choice matches AcquireChoice::Lease { identity, frame } ==> latest matches Ok(Some(entry)) && {
            &&& entry.cursor > min_cursor
            &&& frame.struct_size == FT_NATIVE_FRAME_SIZE
            &&& frame.lease_id == 0
            &&& frame.flags == entry.flags
            &&& frame.cursor == entry.cursor
            &&& frame.sequence == entry.sequence
            &&& frame.timestamp_ns == entry.timestamp_ns
            &&& frame.pool_id == entry.pool_id
            &&& frame.slot_id == entry.slot_id
            &&& frame.width == entry.width
            &&& frame.height == entry.height
            &&& frame.pixel_format == entry.pixel_format
            &&& frame.producer_sync_id == entry.fence_id
            &&& frame.producer_sync_value == entry.fence_value
            &&& identity.cursor == entry.cursor
            &&& identity.sequence == entry.sequence
            &&& identity.pool_id == entry.pool_id
            &&& identity.slot_id == entry.slot_id
        },
{
    match latest {
        Ok(Some(entry)) => if entry.cursor > min_cursor {
            AcquireChoice::Lease {
                identity: NativeLeaseIdentity {
                    cursor: entry.cursor,
                    sequence: entry.sequence,
                    pool_id: entry.pool_id,
                    slot_id: entry.slot_id,
                },
                frame: FtNativeFrame {
                    struct_size: FT_NATIVE_FRAME_SIZE,
                    flags: entry.flags,
                    lease_id: 0,
                    cursor: entry.cursor,
                    sequence: entry.sequence,
                    timestamp_ns: entry.timestamp_ns,
                    pool_id: entry.pool_id,
                    slot_id: entry.slot_id,
                    width: entry.width,
                    height: entry.height,
                    pixel_format: entry.pixel_format,
                    producer_sync_id: entry.fence_id,
                    producer_sync_value: entry.fence_value,
                },
            }
        } else {
            AcquireChoice::NothingNewer
        },
        Ok(None) => AcquireChoice::NothingNewer,
        Err(_) => AcquireChoice::Failed,
    }
}

/// The status an acquire that found nothing newer reports.
pub fn nothing_newer_status(producer_stopped: bool) -> (status: FtStatus)
    ensures
        status == if producer_stopped {
            FT_STATUS_CLOSED
        } else {
            FT_STATUS_EMPTY
        },
{
    if producer_stopped {
        FT_STATUS_CLOSED
    } else {
        FT_STATUS_EMPTY
    }
}

/// The step a poll of the control events takes.
#[derive(Debug, Clone, Copy, PartialEq, Eq, Structural)]
pub enum PollStep {
    /// Hand this event out (`FT_STATUS_OK`).
    Deliver(FtNativeEvent),
    /// No event (`FT_STATUS_EMPTY`).
    Empty,
    /// The newest generation names a pool the consumer has not imported:
    /// import it, then report `pool_imported`.
    ImportPool { pool_id: u64, generation: u64 },
}

/// The control events a native consumer polls: a pending queue, the last
/// generation and pool reported, and whether the producer's stop was told.
#[derive(Debug)]
pub struct NativeEventQueue {
    pending: Vec<FtNativeEvent>,
    last_config_generation: u64,
    last_pool_id: u64,
    stopped_event_emitted: bool,
}

/// No queued event of `queue` reports the producer's stop.
pub open spec fn spec_no_stop_pending(queue: NativeEventQueue) -> bool {
    forall|i: int|
        0 <= i < queue.pending_view().len() ==> (#[trigger] queue.pending_view()[i]).kind
            != FT_NATIVE_EVENT_PRODUCER_STOPPED
}

/// `step` hands out the producer's stop.
pub open spec fn spec_is_stop_delivery(step: PollStep) -> bool {
    step matches PollStep::Deliver(event) && event.kind == FT_NATIVE_EVENT_PRODUCER_STOPPED
}

/// How one poll moves the queue: the reported generation never goes back,
/// the stop once told stays told, stop events never enter the queue, and
/// the stop is handed out only by the poll that first tells it.
pub open spec fn spec_queue_step(before: NativeEventQueue, after: NativeEventQueue, step: PollStep) -> bool {
    &&& after.last_config_generation_view() >= before.last_config_generation_view()
    &&& before.stopped_event_emitted_view() ==> after.stopped_event_emitted_view()
    &&& spec_no_stop_pending(before) ==> spec_no_stop_pending(after)
    &&& spec_no_stop_pending(before) && spec_is_stop_delivery(step) ==> !before.stopped_event_emitted_view()
        && after.stopped_event_emitted_view()
}

pub open spec fn spec_event(kind: u32, pool_id: u64, generation: u64) -> FtNativeEvent {
    FtNativeEvent { struct_size: FT_NATIVE_EVENT_SIZE, kind, pool_id, config_generation: generation }
}

impl NativeEventQueue {
    pub closed spec fn pending_view(&self) -> Seq<FtNativeEvent> {
        self.pending@
    }

    pub closed spec fn last_config_generation_view(&self) -> u64 {
        self.last_config_generation
    }

    pub closed spec fn last_pool_id_view(&self) -> u64 {
        self.last_pool_id
    }

    pub closed spec fn stopped_event_emitted_view(&self) -> bool {
        self.stopped_event_emitted
    }

    /// A queue for a consumer that attached while generation
    /// `config_generation` of pool `pool_id` was current.
    pub fn new(config_generation: u64, pool_id: u64) -> (queue: Self)
        ensures
            queue.pending_view() == Seq::<FtNativeEvent>::empty(),
            queue.last_config_generation_view() == config_generation,
            queue.last_pool_id_view() == pool_id,
            !queue.stopped_event_emitted_view(),
    {
        NativeEventQueue {
            pending: Vec::new(),
            last_config_generation: config_generation,
            last_pool_id: pool_id,
            stopped_event_emitted: false,
        }
    }

    /// The next step of a poll: queued events first, then the producer's
    /// stop (told once), then a newer stream configuration.
    pub fn poll(&mut self, producer_stopped: bool, latest: Option<(u64, u64)>, pool_known: bool) -> (step: PollStep)
        ensures
            spec_queue_step(*old(self), *final(self), step),
            final(self).last_config_generation_view() >= old(self).last_config_generation_view(),
            old(self).stopped_event_emitted_view() ==> final(self).stopped_event_emitted_view(),
            old(self).pending_view().len() > 0 ==> {
                &&& step == PollStep::Deliver(old(self).pending_view()[0])
                &&& final(self).pending_view() == old(self).pending_view().drop_first()
                &&& final(self).last_config_generation_view() == old(self).last_config_generation_view()
                &&& final(self).last_pool_id_view() == old(self).last_pool_id_view()
                &&& final(self).stopped_event_emitted_view() == old(self).stopped_event_emitted_view()
            },
            old(self).pending_view().len() == 0 && producer_stopped && !old(self).stopped_event_emitted_view() ==> {
                &&& step == PollStep::Deliver(
                    spec_event(FT_NATIVE_EVENT_PRODUCER_STOPPED, 0, old(self).last_config_generation_view()),
                )
                &&& final(self).stopped_event_emitted_view()
                &&& final(self).pending_view() == old(self).pending_view()
                &&& final(self).last_config_generation_view() == old(self).last_config_generation_view()
                &&& final(self).last_pool_id_view() == old(self).last_pool_id_view()
            },
            old(self).pending_view().len() == 0 && !(producer_stopped && !old(self).stopped_event_emitted_view())
                ==> {
                &&& final(self).stopped_event_emitted_view() == old(self).stopped_event_emitted_view()
                &&& match latest {
                    Some((pool_id, generation)) if generation != 0 && generation
                        > old(self).last_config_generation_view() => if pool_known {
                        let previous = old(self).last_pool_id_view();
                        &&& step == PollStep::Deliver(
                            spec_event(FT_NATIVE_EVENT_STREAM_CONFIG_CHANGED, pool_id, generation),
                        )
                        &&& final(self).last_config_generation_view() == generation
                        &&& final(self).last_pool_id_view() == pool_id
                        &&& final(self).pending_view() == if previous != 0 && previous != pool_id {
                            seq![spec_event(FT_NATIVE_EVENT_POOL_REMOVED, previous, generation)]
                        } else {
                            Seq::<FtNativeEvent>::empty()
                        }
                    } else {
                        &&& step == PollStep::ImportPool { pool_id, generation }
                        &&& *final(self) == *old(self)
                    },
                    _ => {
                        &&& step == PollStep::Empty
                        &&& *final(self) == *old(self)
                    },
                }
            },
    {
        if self.pending.len() > 0 {
            let event = self.pending.remove(0);
            return PollStep::Deliver(event);
        }
        if producer_stopped && !self.stopped_event_emitted {
            self.stopped_event_emitted = true;
            return PollStep::Deliver(
                FtNativeEvent {
                    struct_size: FT_NATIVE_EVENT_SIZE,
                    kind: FT_NATIVE_EVENT_PRODUCER_STOPPED,
                    pool_id: 0,
                    config_generation: self.last_config_generation,
                },
            );
        }
        let (pool_id, generation) = match latest {
            Some(latest) => latest,
            None => return PollStep::Empty,
        };
        if generation == 0 || generation <= self.last_config_generation {
            return PollStep::Empty;
        }
        if !pool_known {
            return PollStep::ImportPool { pool_id, generation };
        }
        let previous = self.last_pool_id;
        self.last_config_generation = generation;
        self.last_pool_id = pool_id;
        if previous != 0 && previous != pool_id {
            self.pending.push(
                FtNativeEvent {
                    struct_size: FT_NATIVE_EVENT_SIZE,
                    kind: FT_NATIVE_EVENT_POOL_REMOVED,
                    pool_id: previous,
                    config_generation: generation,
                },
            );
        }
        PollStep::Deliver(
            FtNativeEvent {
                struct_size: FT_NATIVE_EVENT_SIZE,
                kind: FT_NATIVE_EVENT_STREAM_CONFIG_CHANGED,
                pool_id,
                config_generation: generation,
            },
        )
    }

    /// The pool a poll asked for is imported: announce it, then the new
    /// configuration, then the removal of the pool it replaces.
    pub fn pool_imported(&mut self, pool_id: u64, generation: u64) -> (event: FtNativeEvent)
        ensures
            event == spec_event(FT_NATIVE_EVENT_POOL_ADDED, pool_id, generation),
            final(self).last_config_generation_view() == generation,
            final(self).last_pool_id_view() == pool_id,
            final(self).stopped_event_emitted_view() == old(self).stopped_event_emitted_view(),
            final(self).pending_view() == old(self).pending_view().push(
                spec_event(FT_NATIVE_EVENT_STREAM_CONFIG_CHANGED, pool_id, generation),
            ) + if old(self).last_pool_id_view() != 0 && old(self).last_pool_id_view() != pool_id {
                seq![spec_event(FT_NATIVE_EVENT_POOL_REMOVED, old(self).last_pool_id_view(), generation)]
            } else {
                Seq::<FtNativeEvent>::empty()
            },
    {
        let previous = self.last_pool_id;
        self.last_config_generation = generation;
        self.last_pool_id = pool_id;
        let ghost before = self.pending@;
        self.pending.push(
            FtNativeEvent {
                struct_size: FT_NATIVE_EVENT_SIZE,
                kind: FT_NATIVE_EVENT_STREAM_CONFIG_CHANGED,
                pool_id,
                config_generation: generation,
            },
        );
        if previous != 0 && previous != pool_id {
            self.pending.push(
                FtNativeEvent {
                    struct_size: FT_NATIVE_EVENT_SIZE,
                    kind: FT_NATIVE_EVENT_POOL_REMOVED,
                    pool_id: previous,
                    config_generation: generation,
                },
            );
        }
        proof {
            if previous != 0 && previous != pool_id {
                assert(self.pending@ =~= before.push(
                    spec_event(FT_NATIVE_EVENT_STREAM_CONFIG_CHANGED, pool_id, generation),
                ) + seq![spec_event(FT_NATIVE_EVENT_POOL_REMOVED, previous, generation)]);
            } else {
                assert(self.pending@ =~= before.push(
                    spec_event(FT_NATIVE_EVENT_STREAM_CONFIG_CHANGED, pool_id, generation),
                ) + Seq::<FtNativeEvent>::empty());
            }
        }
        FtNativeEvent {
            struct_size: FT_NATIVE_EVENT_SIZE,
            kind: FT_NATIVE_EVENT_POOL_ADDED,
            pool_id,
            config_generation: generation,
        }
    }
}

/// What an attach descriptor's plain fields decide before any transport is
/// touched: `Some(status)` to fail with, or `None` to go on and read its
/// strings. The record must be large enough and name an endpoint; no flag
/// is defined yet.
pub fn attach_descriptor_status(struct_size: u32, has_endpoint: bool, flags: u32) -> (status: Option<FtStatus>)
    ensures
        status == if struct_size < FT_NATIVE_ATTACH_DESCRIPTOR_SIZE || !has_endpoint {
            Some(FT_STATUS_INVALID_ARGUMENT)
        } else if flags != 0 {
            Some(FT_STATUS_UNSUPPORTED)
        } else {
            None::<FtStatus>
        },
{
    if !valid_struct_size(struct_size, FT_NATIVE_ATTACH_DESCRIPTOR_SIZE) || !has_endpoint {
        return Some(FT_STATUS_INVALID_ARGUMENT);
    }
    if flags != 0 {
        return Some(FT_STATUS_UNSUPPORTED);
    }
    None
}

/// Whether the host can attach over transport `transport_kind`: XPC only on
/// macOS, a Unix socket only on Linux; any other transport is unsupported.
pub fn attach_transport_supported(transport_kind: u32, on_macos: bool, on_linux: bool) -> (supported: bool)
    ensures
        supported == ((transport_kind == FT_NATIVE_ATTACH_TRANSPORT_MACOS_XPC && on_macos) || (transport_kind
            == FT_NATIVE_ATTACH_TRANSPORT_UNIX_SOCKET && on_linux)),
{
    (transport_kind == FT_NATIVE_ATTACH_TRANSPORT_MACOS_XPC && on_macos) || (transport_kind
        == FT_NATIVE_ATTACH_TRANSPORT_UNIX_SOCKET && on_linux)
}

/// What registering a consumer release timeline decides before the
/// transport: `Some(status)` to fail with, or `None` to send it. Only the
/// Unix-socket transport takes release timelines, and only DRM syncobj
/// timelines with a valid descriptor.
pub fn release_sync_status(struct_size: u32, sync_kind: u32, unix_socket_transport: bool, fd: i32) -> (status: Option<
    FtStatus,
>)
    ensures
        status == if struct_size < FT_NATIVE_SYNC_SIZE {
            Some(FT_STATUS_INVALID_ARGUMENT)
        } else if sync_kind == FT_NATIVE_SYNC_NONE || !unix_socket_transport || sync_kind
            != FT_NATIVE_SYNC_DRM_SYNCOBJ_TIMELINE {
            Some(FT_STATUS_UNSUPPORTED)
        } else if fd < 0 {
            Some(FT_STATUS_INVALID_ARGUMENT)
        } else {
            None::<FtStatus>
        },
{
    if !valid_struct_size(struct_size, FT_NATIVE_SYNC_SIZE) {
        return Some(FT_STATUS_INVALID_ARGUMENT);
    }
    if sync_kind == FT_NATIVE_SYNC_NONE {
        return Some(FT_STATUS_UNSUPPORTED);
    }
    if !unix_socket_transport {
        return Some(FT_STATUS_UNSUPPORTED);
    }
    if sync_kind != FT_NATIVE_SYNC_DRM_SYNCOBJ_TIMELINE {
        return Some(FT_STATUS_UNSUPPORTED);
    }
    if fd < 0 {
        return Some(FT_STATUS_INVALID_ARGUMENT);
    }
    None
}

/// The status a release answered by the consumer's own lease book reports.
pub fn local_release_status(released: &Result<ReleasedNativeLease, NativeLeaseError>) -> (status: FtStatus)
    ensures
        status == if released is Ok {
            FT_STATUS_OK
        } else {
            FT_STATUS_INVALID_STATE
        },
{
    match released {
        Ok(_) => FT_STATUS_OK,
        Err(_) => FT_STATUS_INVALID_STATE,
    }
}

/// The newest stream configuration generation among `configs`, oldest
/// first; 0 when there is none.
pub open spec fn spec_latest_config_generation(configs: Seq<StreamConfig>) -> u64 {
    if configs.len() == 0 {
        0
    } else {
        configs.last().config_generation
    }
}

/// The newest configuration generation the page still holds; a consumer's
/// event queue starts from it.
pub fn latest_config_generation(page: &VideoTrackControlPage) -> (generation: u64)
    requires
        page.wf(),
    ensures
        generation == spec_latest_config_generation(
            spec_readable_configs(*page, page.oldest_config() as u64, page.live_config_count()),
        ),
{
    let configs = page.config_snapshot();
    if configs.len() == 0 {
        0
    } else {
        configs[configs.len() - 1].config_generation
    }
}

/// The pool and configuration generation of the page's newest entry, when
/// there is one and it reads cleanly.
pub open spec fn spec_latest_pool_and_generation(page: VideoTrackControlPage) -> Option<(u64, u64)> {
    if page.latest() == 0 {
        None
    } else {
        match page.spec_read_entry(page.latest()) {
            Ok(entry) => Some((entry.pool_id, entry.config_generation)),
            Err(_) => None,
        }
    }
}

pub fn latest_entry_pool_and_generation(page: &VideoTrackControlPage) -> (latest: Option<(u64, u64)>)
    requires
        page.wf(),
    ensures
        latest == spec_latest_pool_and_generation(*page),
{
    match page.read_latest_lossy_entry() {
        Ok(Some(entry)) => Some((entry.pool_id, entry.config_generation)),
        _ => None,
    }
}

/// The pool a consumer's event queue starts from: the grant's first pool,
/// else the pool of the page's newest entry, else none (0).
pub fn initial_event_pool(first_granted_pool: Option<u64>, page: &VideoTrackControlPage) -> (pool_id: u64)
    requires
        page.wf(),
    ensures
        pool_id == match first_granted_pool {
            Some(pool_id) => pool_id,
            None => match spec_latest_pool_and_generation(*page) {
                Some((pool_id, _)) => pool_id,
                None => 0,
            },
        },
{
    match first_granted_pool {
        Some(pool_id) => pool_id,
        None => match latest_entry_pool_and_generation(page) {
            Some((pool_id, _)) => pool_id,
            None => 0,
        },
    }
}

/// What one look at the ring tells a waiting consumer.
#[derive(Debug, Clone, Copy, PartialEq, Eq, Structural)]
pub enum WaitLook {
    /// A frame above the cursor is published at `cursor` (`FT_STATUS_OK`).
    Ready { cursor: u64 },
    /// The ring could not be read (`FT_STATUS_ERROR`).
    Failed,
    /// Nothing above the cursor yet; the ring's newest cursor is `cursor`
    /// (0 when empty), which the caller reports.
    Pending { cursor: u64 },
}

pub fn wait_look(latest: core::result::Result<Option<VideoRingEntry>, VideoRingReadError>, min_cursor: u64) -> (look:
    WaitLook)
    ensures
        look == match latest {
            Ok(Some(entry)) => if entry.cursor > min_cursor {
                WaitLook::Ready { cursor: entry.cursor }
            } else {
                WaitLook::Pending { cursor: entry.cursor }
            },
            Ok(None) => WaitLook::Pending { cursor: 0 },
            Err(_) => WaitLook::Failed,
        },
{
    match latest {
        Ok(Some(entry)) => if entry.cursor > min_cursor {
            WaitLook::Ready { cursor: entry.cursor }
        } else {
            WaitLook::Pending { cursor: entry.cursor }
        },
        Ok(None) => WaitLook::Pending { cursor: 0 },
        Err(_) => WaitLook::Failed,
    }
}

/// How long a waiting consumer sleeps between looks at most: 1 ms.
pub const WAIT_POLL_INTERVAL_NS: u64 = 1_000_000;

/// What a waiting consumer does after a look found nothing newer.
#[derive(Debug, Clone, Copy, PartialEq, Eq, Structural)]
pub enum WaitNext {
    /// The producer stopped (`FT_STATUS_CLOSED`).
    Closed,
    /// The deadline passed (`FT_STATUS_TIMEOUT`).
    TimedOut,
    /// Sleep this long, then look again.
    Sleep { sleep_ns: u64 },
}

/// Decide after a pending look, given whether the producer stopped and the
/// time left before the deadline (`None` waits forever).
pub fn wait_next(producer_stopped: bool, remaining_ns: Option<u64>) -> (next: WaitNext)
    ensures
        next == if producer_stopped {
            WaitNext::Closed
        } else {
            match remaining_ns {
                None => WaitNext::Sleep { sleep_ns: WAIT_POLL_INTERVAL_NS },
                Some(remaining) => if remaining == 0 {
                    WaitNext::TimedOut
                } else if remaining < WAIT_POLL_INTERVAL_NS {
                    WaitNext::Sleep { sleep_ns: remaining }
                } else {
                    WaitNext::Sleep { sleep_ns: WAIT_POLL_INTERVAL_NS }
                },
            }
        },
{
    if producer_stopped {
        return WaitNext::Closed;
    }
    match remaining_ns {
        None => WaitNext::Sleep { sleep_ns: WAIT_POLL_INTERVAL_NS },
        Some(remaining) => {
            if remaining == 0 {
                WaitNext::TimedOut
            } else if remaining < WAIT_POLL_INTERVAL_NS {
                WaitNext::Sleep { sleep_ns: remaining }
            } else {
                WaitNext::Sleep { sleep_ns: WAIT_POLL_INTERVAL_NS }
            }
        },
    }
}

/// The status each end of a wait reports.
pub fn wait_status(look: WaitLook, next: WaitNext) -> (status: Option<FtStatus>)
    ensures
        status == match look {
            WaitLook::Ready { .. } => Some(FT_STATUS_OK),
            WaitLook::Failed => Some(FT_STATUS_ERROR),
            WaitLook::Pending { .. } => match next {
                WaitNext::Closed => Some(FT_STATUS_CLOSED),
                WaitNext::TimedOut => Some(FT_STATUS_TIMEOUT),
                WaitNext::Sleep { .. } => None::<FtStatus>,
            },
        },
{
    match look {
        WaitLook::Ready { .. } => Some(FT_STATUS_OK),
        WaitLook::Failed => Some(FT_STATUS_ERROR),
        WaitLook::Pending { .. } => match next {
            WaitNext::Closed => Some(FT_STATUS_CLOSED),
            WaitNext::TimedOut => Some(FT_STATUS_TIMEOUT),
            WaitNext::Sleep { .. } => None,
        },
    }
}

/// Take the lease an acquire chose in the consumer's own lease book (the
/// transport with no producer-side lease service), and hand out its frame
/// under the new lease id.
pub fn lease_locally(book: &mut NativeLeaseBook, choice: AcquireChoice) -> (frame: Option<FtNativeFrame>)
    requires
        old(book).wf(),
    ensures
        final(book).wf(),
        match choice {
            AcquireChoice::Lease { identity, frame: chosen } => {
                &&& frame == Some(FtNativeFrame { lease_id: old(book).next_lease_id_view(), ..chosen })
                &&& final(book).leases_view() == old(book).leases_view().insert(
                    old(book).next_lease_id_view(),
                    (identity, None::<(u64, u64)>),
                )
                &&& final(book).release_syncs_view() == old(book).release_syncs_view()
            },
            _ => frame is None && *final(book) == *old(book),
        },
{
    match choice {
        AcquireChoice::Lease { identity, frame } => {
            let lease_id = book.acquire(identity);
            Some(FtNativeFrame { lease_id, ..frame })
        },
        _ => None,
    }
}

/// A Linux pool surface as the native C ABI describes it (its object
/// pointer is null: dma-bufs travel as plane descriptors).
#[derive(Debug, Clone, PartialEq, Eq)]
pub struct FtNativeSurfaceRecord {
    pub struct_size: u32,
    pub handle_kind: u32,
    pub plane_count: u32,
    pub width: u32,
    pub height: u32,
    pub pixel_format: u32,
    pub modifier: u64,
    pub planes: Vec<FtNativePlane>,
}

/// What a Linux pool surface is refused with, if anything: unsound
/// descriptor indices, a surface that is no dma-buf, an empty size, or a
/// plane without a stride.
pub open spec fn spec_surface_status(surface: LinuxSurfaceDescriptor, fd_count: nat) -> Option<FtStatus> {
    if spec_surface_failure(surface, fd_count) is Some {
        Some(FT_STATUS_INVALID_ARGUMENT)
    } else if surface.handle_kind != FT_NATIVE_HANDLE_DMABUF {
        Some(FT_STATUS_UNSUPPORTED)
    } else if surface.width == 0 || surface.height == 0 {
        Some(FT_STATUS_INVALID_ARGUMENT)
    } else if exists|i: int| 0 <= i < surface.planes@.len() && #[trigger] surface.planes@[i].stride == 0 {
        Some(FT_STATUS_INVALID_ARGUMENT)
    } else {
        None
    }
}

/// The C record of a sound surface, its planes' descriptors taken from `fds`.
pub open spec fn spec_surface_record_matches(surface: LinuxSurfaceDescriptor, fds: Seq<i32>, record: FtNativeSurfaceRecord) -> bool {
    &&& record.struct_size == FT_NATIVE_SURFACE_SIZE
    &&& record.handle_kind == surface.handle_kind
    &&& record.plane_count == surface.planes@.len()
    &&& record.width == surface.width
    &&& record.height == surface.height
    &&& record.pixel_format == surface.pixel_format
    &&& record.modifier == surface.modifier
    &&& record.planes@.len() == surface.planes@.len()
    &&& forall|i: int|
        0 <= i < surface.planes@.len() ==> #[trigger] record.planes@[i] == (FtNativePlane {
            fd: fds[surface.planes@[i].fd_index as int],
            offset: surface.planes@[i].offset,
            stride: surface.planes@[i].stride,
        })
}

fn linux_surface_record(surface: &LinuxSurfaceDescriptor, fds: &[i32]) -> (record: core::result::Result<
    FtNativeSurfaceRecord,
    FtStatus,
>)
    ensures
        match record {
            Ok(record) => spec_surface_status(*surface, fds@.len()) is None && spec_surface_record_matches(
                *surface,
                fds@,
                record,
            ),
            Err(status) => spec_surface_status(*surface, fds@.len()) == Some(status),
        },
{
    if surface.validate_fd_indices(fds.len()).is_err() {
        return Err(FT_STATUS_INVALID_ARGUMENT);
    }
    if surface.handle_kind != FT_NATIVE_HANDLE_DMABUF {
        return Err(FT_STATUS_UNSUPPORTED);
    }
    if surface.width == 0 || surface.height == 0 {
        return Err(FT_STATUS_INVALID_ARGUMENT);
    }
    let mut planes: Vec<FtNativePlane> = Vec::new();
    let mut index: usize = 0;
    while index < surface.planes.len()
        invariant
            spec_surface_failure(*surface, fds@.len()) is None,
            surface.handle_kind == FT_NATIVE_HANDLE_DMABUF,
            surface.width != 0 && surface.height != 0,
            index <= surface.planes@.len(),
            planes@.len() == index,
            forall|j: int| 0 <= j < index ==> #[trigger] surface.planes@[j].stride != 0,
            forall|j: int|
                0 <= j < index ==> #[trigger] planes@[j] == (FtNativePlane {
                    fd: fds@[surface.planes@[j].fd_index as int],
                    offset: surface.planes@[j].offset,
                    stride: surface.planes@[j].stride,
                }),
        decreases surface.planes@.len() - index,
    {
        let plane = surface.planes[index];
        if plane.stride == 0 {
            proof {
                assert(surface.planes@[index as int].stride == 0);
            }
            return Err(FT_STATUS_INVALID_ARGUMENT);
        }
        proof {
            assert(!(exists|i: int| 0 <= i < surface.planes@.len() && surface.planes@[i].fd_index >= fds@.len()));
            assert(plane.fd_index < fds@.len());
        }
        planes.push(FtNativePlane { fd: fds[plane.fd_index as usize], offset: plane.offset, stride: plane.stride });
        index = index + 1;
    }
    Ok(
        FtNativeSurfaceRecord {
            struct_size: FT_NATIVE_SURFACE_SIZE,
            handle_kind: surface.handle_kind,
            plane_count: surface.planes.len() as u32,
            width: surface.width,
            height: surface.height,
            pixel_format: surface.pixel_format,
            modifier: surface.modifier,
            planes,
        },
    )
}

/// The C records of a Linux pool's surfaces, in order, or the status of the
/// first surface that is refused.
pub fn linux_pool_surfaces(pool: &LinuxPoolDescriptor, fds: &[i32]) -> (surfaces: core::result::Result<
    Vec<FtNativeSurfaceRecord>,
    FtStatus,
>)
    ensures
        match surfaces {
            Ok(records) => {
                &&& records@.len() == pool.surfaces@.len()
                &&& forall|k: int|
                    0 <= k < pool.surfaces@.len() ==> spec_surface_status(
                        #[trigger] pool.surfaces@[k],
                        fds@.len(),
                    ) is None && spec_surface_record_matches(pool.surfaces@[k], fds@, records@[k])
            },
            Err(status) => exists|k: int|
                0 <= k < pool.surfaces@.len() && spec_surface_status(#[trigger] pool.surfaces@[k], fds@.len())
                    == Some(status) && forall|j: int|
                    0 <= j < k ==> spec_surface_status(#[trigger] pool.surfaces@[j], fds@.len()) is None,
        },
{
    let mut records: Vec<FtNativeSurfaceRecord> = Vec::new();
    let mut k: usize = 0;
    while k < pool.surfaces.len()
        invariant
            k <= pool.surfaces@.len(),
            records@.len() == k,
            forall|j: int|
                0 <= j < k ==> spec_surface_status(#[trigger] pool.surfaces@[j], fds@.len()) is None
                    && spec_surface_record_matches(pool.surfaces@[j], fds@, records@[j]),
        decreases pool.surfaces@.len() - k,
    {
        match linux_surface_record(&pool.surfaces[k], fds) {
            Ok(record) => records.push(record),
            Err(status) => {
                proof {
                    assert(spec_surface_status(pool.surfaces@[k as int], fds@.len()) == Some(status));
                }
                return Err(status);
            },
        }
        k = k + 1;
    }
    Ok(records)
}

/// The status an answer to `Authorize` leaves: none when authorized, an
/// error when refused, an invalid state for any other answer.
pub fn authorize_reply_status(reply: &LinuxAttachResponse) -> (status: Option<FtStatus>)
    ensures
        status == match reply {
            LinuxAttachResponse::Authorized => None::<FtStatus>,
            LinuxAttachResponse::Error { .. } => Some(FT_STATUS_ERROR),
            _ => Some(FT_STATUS_INVALID_STATE),
        },
{
    match reply {
        LinuxAttachResponse::Authorized => None,
        LinuxAttachResponse::Error { .. } => Some(FT_STATUS_ERROR),
        _ => Some(FT_STATUS_INVALID_STATE),
    }
}

/// The grant an answer to `Attach` carries, or the status it fails with.
pub fn granted_reply(reply: LinuxAttachResponse) -> (grant: core::result::Result<LinuxAttachGrant, FtStatus>)
    ensures
        grant == match reply {
            LinuxAttachResponse::Granted { grant } => Ok(grant),
            LinuxAttachResponse::Error { .. } => Err(FT_STATUS_ERROR),
            _ => Err::<LinuxAttachGrant, FtStatus>(FT_STATUS_INVALID_STATE),
        },
{
    match reply {
        LinuxAttachResponse::Granted { grant } => Ok(grant),
        LinuxAttachResponse::Error { .. } => Err(FT_STATUS_ERROR),
        _ => Err(FT_STATUS_INVALID_STATE),
    }
}

/// The pool an answer to `GetPool { pool_id }` carries; a pool with
/// another id, a refusal or any other answer is an invalid state.
pub fn pool_reply(reply: LinuxAttachResponse, pool_id: u64) -> (pool: core::result::Result<LinuxPoolDescriptor, FtStatus>)
    ensures
        pool == match reply {
            LinuxAttachResponse::Pool { pool } => if pool.pool_id == pool_id {
                Ok(pool)
            } else {
                Err(FT_STATUS_INVALID_STATE)
            },
            _ => Err::<LinuxPoolDescriptor, FtStatus>(FT_STATUS_INVALID_STATE),
        },
{
    match reply {
        LinuxAttachResponse::Pool { pool } => if pool.pool_id == pool_id {
            Ok(pool)
        } else {
            Err(FT_STATUS_INVALID_STATE)
        },
        _ => Err(FT_STATUS_INVALID_STATE),
    }
}

/// The lease id an answer to `AcquireLease` carries; anything else is an
/// invalid state.
pub fn lease_reply(reply: &LinuxAttachResponse) -> (lease_id: core::result::Result<u64, FtStatus>)
    ensures
        lease_id == match reply {
            LinuxAttachResponse::LeaseAcquired { lease_id } => Ok(*lease_id),
            _ => Err::<u64, FtStatus>(FT_STATUS_INVALID_STATE),
        },
{
    match reply {
        LinuxAttachResponse::LeaseAcquired { lease_id } => Ok(*lease_id),
        _ => Err(FT_STATUS_INVALID_STATE),
    }
}

/// The release-timeline id an answer to `RegisterReleaseSync` carries, or
/// the status it fails with.
pub fn release_sync_reply(reply: &LinuxAttachResponse) -> (release_sync_id: core::result::Result<u64, FtStatus>)
    ensures
        release_sync_id == match reply {
            LinuxAttachResponse::ReleaseSyncRegistered { release_sync_id } => Ok(*release_sync_id),
            LinuxAttachResponse::Error { .. } => Err(FT_STATUS_ERROR),
            _ => Err::<u64, FtStatus>(FT_STATUS_INVALID_STATE),
        },
{
    match reply {
        LinuxAttachResponse::ReleaseSyncRegistered { release_sync_id } => Ok(*release_sync_id),
        LinuxAttachResponse::Error { .. } => Err(FT_STATUS_ERROR),
        _ => Err(FT_STATUS_INVALID_STATE),
    }
}

/// The status an answer to `ReleaseFrame` reports.
pub fn release_reply_status(reply: &LinuxAttachResponse) -> (status: FtStatus)
    ensures
        status == match reply {
            LinuxAttachResponse::FrameReleased => FT_STATUS_OK,
            _ => FT_STATUS_INVALID_STATE,
        },
{
    match reply {
        LinuxAttachResponse::FrameReleased => FT_STATUS_OK,
        _ => FT_STATUS_INVALID_STATE,
    }
}

/// Law: over a run of polls of a queue that starts with no stop queued (as
/// `new` leaves it), the producer's stop is handed out at most once, and the
/// reported configuration generation only grows.
pub proof fn law_polls_report_stop_once(queues: Seq<NativeEventQueue>, steps: Seq<PollStep>, i: int, j: int)
    requires
        queues.len() == steps.len() + 1,
        forall|k: int| 0 <= k < steps.len() ==> #[trigger] spec_queue_step(queues[k], queues[k + 1], steps[k]),
        spec_no_stop_pending(queues[0]),
        0 <= i < j < steps.len(),
    ensures
        !(spec_is_stop_delivery(steps[i]) && spec_is_stop_delivery(steps[j])),
        queues[j].last_config_generation_view() >= queues[i].last_config_generation_view(),
{
    lemma_queue_run(queues, steps, 0, i);
    lemma_queue_run(queues, steps, i + 1, j);
    assert(spec_queue_step(queues[i], queues[i + 1], steps[i]));
    assert(spec_queue_step(queues[j], queues[j + 1], steps[j]));
    lemma_queue_run(queues, steps, i, j);
}

proof fn lemma_queue_run(queues: Seq<NativeEventQueue>, steps: Seq<PollStep>, i: int, j: int)
    requires
        queues.len() == steps.len() + 1,
        forall|k: int| 0 <= k < steps.len() ==> #[trigger] spec_queue_step(queues[k], queues[k + 1], steps[k]),
        0 <= i <= j <= steps.len(),
    ensures
        queues[j].last_config_generation_view() >= queues[i].last_config_generation_view(),
        queues[i].stopped_event_emitted_view() ==> queues[j].stopped_event_emitted_view(),
        spec_no_stop_pending(queues[i]) ==> spec_no_stop_pending(queues[j]),
    decreases j - i,
{
    if i < j {
        lemma_queue_run(queues, steps, i, j - 1);
        assert(spec_queue_step(queues[j - 1], queues[(j - 1) + 1], steps[j - 1]));
    }
}

/// Law: the frame record handed to a C caller for a ring entry carries the
/// entry's own values, geometry included, and the lease it was handed out
/// under; the lease identity names the entry's cursor, sequence, pool and
/// slot.
pub proof fn law_frame_record_carries_entry(entry: VideoRingEntry, lease_id: u64)
    ensures
        ({
            let frame = spec_frame_of(entry, lease_id);
            &&& frame.struct_size == FT_NATIVE_FRAME_SIZE
            &&& frame.lease_id == lease_id
            &&& frame.flags == entry.flags
            &&& frame.cursor == entry.cursor
            &&& frame.sequence == entry.sequence
            &&& frame.timestamp_ns == entry.timestamp_ns
            &&& frame.pool_id == entry.pool_id
            &&& frame.slot_id == entry.slot_id
            &&& frame.width == entry.width
            &&& frame.height == entry.height
            &&& frame.pixel_format == entry.pixel_format
            &&& frame.producer_sync_id == entry.fence_id
            &&& frame.producer_sync_value == entry.fence_value
        }),
        spec_identity_of(entry) == (NativeLeaseIdentity {
            cursor: entry.cursor,
            sequence: entry.sequence,
            pool_id: entry.pool_id,
            slot_id: entry.slot_id,
        }),
{
}

} // verus!
