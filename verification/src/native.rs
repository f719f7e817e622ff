//! The native handle path: frames are OS-native surfaces published by
//! reference through the control ring, never by copying pixels.
//!
//! A native frame in the ring is only a descriptor: `(pool_id, slot_id)`
//! names a surface of a pool introduced over the setup channel, and
//! `fence_value` is the point on the stream's timeline fence a consumer waits
//! for before sampling. Surface reuse is prevented, not detected: the core
//! excludes slots still named by live ring entries, then asks the backend to
//! claim one of the remaining candidates.

pub mod attach;
pub mod fake;
pub mod lease;
pub mod linux;
pub mod macos;

use vstd::prelude::*;
use vstd::string::*;

use crate::control_page::{
    spec_first_with_id, spec_has_id, spec_is_page_error, spec_layout_fits, spec_pushed, spec_registered_entry,
    spec_ring_capacity, PendingVideoRingEntry, VideoConsumerCursorEntry, VideoTrackControlPage,
};
use crate::native::attach::{AttachGrant, AttachPool};
use crate::error::{CaptureTransferError, Result as CaptureResult};
use crate::model::{
    spec_clock_domain_code, spec_color_space_code, spec_damage_kind_code, spec_payload_kind_code,
    spec_pixel_format_code, spec_sync_kind_code, ClockDomain, ColorSpace, DamageKind, FrameSyncKind, PayloadKind,
    PixelFormat,
};
use crate::text::{decimal_string, spec_decimal};

verus! {

/// Stream-level parameters of a native track. A change (resize, format
/// switch) means a new pool and a new config generation.
#[derive(Debug, Clone, Copy, PartialEq, Eq, Structural)]
pub struct NativeStreamParams {
    pub width: u32,
    pub height: u32,
    pub pixel_format: PixelFormat,
    pub color_space: ColorSpace,
    pub clock_domain: ClockDomain,
    /// Format modifier (e.g. a dmabuf modifier); 0 / linear for IOSurface.
    pub modifier: u64,
}

/// What the producer does when no surface is eligible for staging. Never a
/// silent overwrite.
#[derive(Debug, Clone, Copy, PartialEq, Eq, Structural)]
pub enum PoolExhaustionPolicy {
    /// Drop the frame and account for it: its sequence number is consumed and
    /// the next published frame carries the gap in `dropped_before_publish`.
    DropFrame,
    /// Fail the publish without consuming the frame's sequence number; the
    /// caller may retry the same frame.
    Fail,
}

impl Default for PoolExhaustionPolicy {
    /// Dropping is the default: blocking a latest-wins producer is the worst
    /// outcome.
    fn default() -> (policy: Self)
        ensures
            policy == PoolExhaustionPolicy::DropFrame,
    {
        PoolExhaustionPolicy::DropFrame
    }
}

/// The result of a publish.
#[derive(Debug, Clone, Copy, PartialEq, Eq, Structural)]
pub enum PublishOutcome {
    Published { cursor: u64 },
    /// The frame was dropped under `PoolExhaustionPolicy::DropFrame`.
    Dropped,
}

impl PublishOutcome {
    /// The cursor a published frame landed at.
    pub fn cursor(self) -> (cursor: Option<u64>)
        ensures
            cursor == (match self {
                PublishOutcome::Published { cursor } => Some(cursor),
                PublishOutcome::Dropped => None,
            }),
    {
        match self {
            PublishOutcome::Published { cursor } => Some(cursor),
            PublishOutcome::Dropped => None,
        }
    }
}

/// A pool slot that has left the ring's live window and may be reusable if
/// the backend's native lifetime source agrees.
#[derive(Debug, Clone, Copy, PartialEq, Eq, Structural)]
pub struct SlotReuseCandidate {
    pub slot_id: u32,
    pub last_cursor: u64,
}

/// A backend's answer to a reusable-slot claim.
#[derive(Debug, Clone, Copy, PartialEq, Eq, Structural)]
pub enum SlotClaim {
    Ready { slot_id: u32 },
    WouldBlock,
}

/// The platform seam of the native handle path. Implementations own the
/// process-local surface and fence objects; what crosses a process boundary
/// is a plain id in ring slots or a handle the setup channel transfers.
pub trait NativeFrameBackend {
    /// A frame as captured from the platform source.
    type CapturedFrame;
    /// A pool of fixed-size surfaces frames are staged into.
    type SurfacePool;
    /// The stream's timeline fence.
    type Fence;
    /// One pool surface as the setup channel transfers it.
    type SurfaceHandle;
    /// The fence as the setup channel transfers it.
    type SyncHandle;

    /// The payload kind frames of this backend publish as.
    spec fn spec_payload_kind(&self) -> PayloadKind;

    /// The transferable id of `pool`.
    spec fn spec_pool_id(&self, pool: Self::SurfacePool) -> u64;

    /// The transferable id of `fence`.
    spec fn spec_fence_id(&self, fence: Self::Fence) -> u64;

    /// The pool slot the capture API delivered `frame` in, when it says.
    spec fn spec_frame_slot_hint(&self, frame: Self::CapturedFrame) -> Option<u32>;

    /// The backend may go from `self` to `after` when asked for a pool of
    /// `slot_count` surfaces for `params`, answering `pool`.
    spec fn spec_allocate_step(
        &self,
        after: &Self,
        params: NativeStreamParams,
        slot_count: u32,
        pool: CaptureResult<Self::SurfacePool>,
    ) -> bool;

    /// The backend may go from `self` to `after` when asked for the stream's
    /// timeline fence, answering `fence`.
    spec fn spec_create_fence_step(&self, after: &Self, fence: CaptureResult<Self::Fence>) -> bool;

    /// The backend may go from `self` to `after` when asked to claim one of
    /// `candidates` in pool `pool_id`, answering `claim`.
    spec fn spec_claim_step(
        &self,
        after: &Self,
        pool_id: u64,
        candidates: Seq<SlotReuseCandidate>,
        claim: CaptureResult<SlotClaim>,
    ) -> bool;

    /// The backend may go from `self` to `after` when asked to stage `frame`
    /// into surface `slot_id` of pool `pool_id`, answering `staged`.
    spec fn spec_stage_step(
        &self,
        after: &Self,
        pool_id: u64,
        slot_id: u32,
        frame: Self::CapturedFrame,
        staged: CaptureResult<()>,
    ) -> bool;

    /// The backend may go from `self` to `after` when asked to move fence
    /// `fence_id` to `value`, answering `signaled`.
    spec fn spec_signal_step(&self, after: &Self, fence_id: u64, value: u64, signaled: CaptureResult<()>) -> bool;

    /// The backend may answer a request for `pool`'s transferable surface
    /// handles with `handles`.
    spec fn spec_export_surfaces_step(
        &self,
        pool: Self::SurfacePool,
        handles: CaptureResult<Vec<Self::SurfaceHandle>>,
    ) -> bool;

    /// The backend may answer a request for `fence`'s transferable handle
    /// with `handle`.
    spec fn spec_export_sync_step(&self, fence: Self::Fence, handle: CaptureResult<Self::SyncHandle>) -> bool;

    fn payload_kind(&self) -> (kind: PayloadKind)
        ensures
            kind == self.spec_payload_kind(),
    ;

    /// Allocate a pool of `slot_count` surfaces matching `params`. Pool ids
    /// are unique forever.
    fn allocate_surface_pool(&mut self, params: &NativeStreamParams, slot_count: u32) -> (pool: CaptureResult<
        Self::SurfacePool,
    >)
        ensures
            old(self).spec_allocate_step(&*final(self), *params, slot_count, pool),
    ;

    fn pool_id(&self, pool: &Self::SurfacePool) -> (id: u64)
        ensures
            id == self.spec_pool_id(*pool),
    ;

    /// Claim one reusable staging slot among the ring-eligible candidates;
    /// `WouldBlock` means none is currently safe to reuse.
    fn claim_reusable_slot(&mut self, pool: &mut Self::SurfacePool, candidates: &[SlotReuseCandidate]) -> (claim:
        CaptureResult<SlotClaim>)
        ensures
            final(self).spec_pool_id(*final(pool)) == old(self).spec_pool_id(*old(pool)),
            final(self).spec_payload_kind() == old(self).spec_payload_kind(),
            forall|fence: Self::Fence| #[trigger] final(self).spec_fence_id(fence) == old(self).spec_fence_id(fence),
            claim matches Ok(SlotClaim::Ready { slot_id }) ==> exists|i: int|
                0 <= i < candidates@.len() && (#[trigger] candidates@[i]).slot_id == slot_id,
            old(self).spec_claim_step(&*final(self), old(self).spec_pool_id(*old(pool)), candidates@, claim),
    ;

    /// Bind a captured frame to pool surface `slot_id`, which the caller has
    /// chosen outside the ring's live window.
    fn stage_frame(&mut self, pool: &mut Self::SurfacePool, slot_id: u32, frame: &Self::CapturedFrame) -> (staged: CaptureResult<()>)
        ensures
            final(self).spec_pool_id(*final(pool)) == old(self).spec_pool_id(*old(pool)),
            final(self).spec_payload_kind() == old(self).spec_payload_kind(),
            forall|fence: Self::Fence| #[trigger] final(self).spec_fence_id(fence) == old(self).spec_fence_id(fence),
            old(self).spec_stage_step(&*final(self), old(self).spec_pool_id(*old(pool)), slot_id, *frame, staged),
    ;

    /// The pool slot a capture API delivered the frame in, for negotiated
    /// pools; `None` for backends that stage into their own surfaces.
    fn frame_slot_hint(&self, frame: &Self::CapturedFrame) -> (hint: Option<u32>)
        ensures
            hint is None || hint == self.spec_frame_slot_hint(*frame),
        default_ensures
            hint is None,
    {
        None
    }

    /// One transferable handle per pool slot, indexed by `slot_id`.
    fn export_surface_handles(&self, pool: &Self::SurfacePool) -> (handles: CaptureResult<Vec<Self::SurfaceHandle>>)
        ensures
            self.spec_export_surfaces_step(*pool, handles),
    ;

    /// Create the stream's timeline fence.
    fn create_fence(&mut self) -> (fence: CaptureResult<Self::Fence>)
        ensures
            old(self).spec_create_fence_step(&*final(self), fence),
    ;

    fn fence_id(&self, fence: &Self::Fence) -> (id: u64)
        ensures
            id == self.spec_fence_id(*fence),
    ;

    /// Signal the timeline to `value`; values must be monotonic.
    fn signal_fence(&mut self, fence: &mut Self::Fence, value: u64) -> (signaled: CaptureResult<()>)
        ensures
            final(self).spec_fence_id(*final(fence)) == old(self).spec_fence_id(*old(fence)),
            final(self).spec_payload_kind() == old(self).spec_payload_kind(),
            forall|pool: Self::SurfacePool| #[trigger] final(self).spec_pool_id(pool) == old(self).spec_pool_id(pool),
            old(self).spec_signal_step(&*final(self), old(self).spec_fence_id(*old(fence)), value, signaled),
    ;

    /// The fence as the setup channel transfers it.
    fn export_sync_handle(&self, fence: &Self::Fence) -> (handle: CaptureResult<Self::SyncHandle>)
        ensures
            self.spec_export_sync_step(*fence, handle),
    ;
}

/// `value + 1`, saturating at `u64::MAX`.
pub open spec fn spec_saturating_inc(value: u64) -> u64 {
    if value == u64::MAX {
        u64::MAX
    } else {
        (value + 1) as u64
    }
}

/// `value + 1`, saturating at `u32::MAX`.
pub open spec fn spec_saturating_inc32(value: u32) -> u32 {
    if value == u32::MAX {
        u32::MAX
    } else {
        (value + 1) as u32
    }
}

/// The oldest cursor of a ring of `capacity` whose latest cursor is `last`.
pub open spec fn spec_oldest_live(last: u64, capacity: nat) -> int {
    let live = if last < capacity {
        last as int
    } else {
        capacity as int
    };
    last - live + 1
}

/// A slot last published at `published_at` is still named by a live ring
/// entry (0 means it was never published).
pub open spec fn spec_reachable(published_at: u64, last: u64, capacity: nat) -> bool {
    published_at != 0 && published_at >= spec_oldest_live(last, capacity)
}

/// The ring entry a native frame is published as.
pub open spec fn spec_native_entry(
    params: NativeStreamParams,
    sequence: u64,
    timestamp_ns: u64,
    pool_id: u64,
    slot_id: u32,
    dropped_before_publish: u32,
    producer_drop_count: u64,
    payload_kind: PayloadKind,
    fence_id: u64,
    fence_value: u64,
) -> PendingVideoRingEntry {
    PendingVideoRingEntry {
        sequence,
        timestamp_ns,
        width: params.width,
        height: params.height,
        stride: 0,
        pixel_format: spec_pixel_format_code(params.pixel_format),
        pool_id,
        slot_id,
        payload_offset: 0,
        payload_len: 0,
        clock_domain: spec_clock_domain_code(params.clock_domain),
        color_space: spec_color_space_code(params.color_space),
        sync_kind: spec_sync_kind_code(FrameSyncKind::NativeTimeline),
        damage_kind: spec_damage_kind_code(DamageKind::FullFrame),
        damage_base_sequence: sequence,
        dropped_before_publish,
        producer_drop_count,
        payload_kind: spec_payload_kind_code(payload_kind),
        modifier: params.modifier,
        fence_id,
        fence_value,
        flags: 0,
    }
}

/// The message of a pool that cannot escape the ring's live window.
pub open spec fn spec_pool_too_small_message(pool_slot_count: u32, capacity: nat) -> Seq<char> {
    "surface pool ("@ + spec_decimal(pool_slot_count as nat) + " slots) must exceed the rounded ring capacity ("@
        + spec_decimal(capacity) + ")"@
}

fn pool_too_small_message(pool_slot_count: u32, capacity: usize) -> (message: String)
    ensures
        message@ == spec_pool_too_small_message(pool_slot_count, capacity as nat),
{
    let mut message = String::from_str("surface pool (");
    let count = decimal_string(pool_slot_count as u64);
    message.append(count.as_str());
    message.append(" slots) must exceed the rounded ring capacity (");
    let rounded = decimal_string(capacity as u64);
    message.append(rounded.as_str());
    message.append(")");
    message
}

/// Publishes native frames from a backend through the control ring, gating
/// surface reuse on the ring's live window and the backend's reuse policy.
pub struct NativeTrackProducer<B: NativeFrameBackend> {
    backend: B,
    params: NativeStreamParams,
    page: VideoTrackControlPage,
    pool: B::SurfacePool,
    pool_slot_count: u32,
    fence: B::Fence,
    exhaustion_policy: PoolExhaustionPolicy,
    /// Cursor each pool slot was last published at (0 = never).
    slot_cursors: Vec<u64>,
    next_slot_hint: u32,
    last_cursor: u64,
    sequence: u64,
    fence_value: u64,
    pending_dropped: u32,
    producer_drop_count: u64,
    /// Counter behind consumer ids the attach endpoint assigns. It belongs
    /// to this producer: ids assigned by two producers may coincide, so a
    /// host that serves several producers from one endpoint must keep their
    /// consumers apart itself.
    next_assigned_consumer_id: u64,
    /// The first cursor published from the current pool.
    pool_start: Ghost<nat>,
}

impl<B: NativeFrameBackend> NativeTrackProducer<B> {
    pub closed spec fn backend_view(&self) -> B {
        self.backend
    }

    pub closed spec fn params_view(&self) -> NativeStreamParams {
        self.params
    }

    pub closed spec fn page_view(&self) -> VideoTrackControlPage {
        self.page
    }

    pub closed spec fn pool_view(&self) -> B::SurfacePool {
        self.pool
    }

    pub closed spec fn fence_view(&self) -> B::Fence {
        self.fence
    }

    pub closed spec fn pool_slot_count_view(&self) -> u32 {
        self.pool_slot_count
    }

    pub closed spec fn policy_view(&self) -> PoolExhaustionPolicy {
        self.exhaustion_policy
    }

    /// Cursor each pool slot was last published at (0 = never).
    pub closed spec fn slot_cursors_view(&self) -> Seq<u64> {
        self.slot_cursors@
    }

    pub closed spec fn next_slot_hint_view(&self) -> u32 {
        self.next_slot_hint
    }

    pub closed spec fn last_cursor_view(&self) -> u64 {
        self.last_cursor
    }

    /// Frames captured so far, published or dropped.
    pub closed spec fn sequence_view(&self) -> u64 {
        self.sequence
    }

    pub closed spec fn fence_value_view(&self) -> u64 {
        self.fence_value
    }

    /// Frames dropped since the last publish.
    pub closed spec fn pending_dropped_view(&self) -> u32 {
        self.pending_dropped
    }

    /// Frames dropped over the producer's life.
    pub closed spec fn producer_drop_count_view(&self) -> u64 {
        self.producer_drop_count
    }

    pub closed spec fn next_assigned_consumer_id_view(&self) -> u64 {
        self.next_assigned_consumer_id
    }

    /// The first cursor published from the current pool.
    pub closed spec fn pool_start_view(&self) -> nat {
        self.pool_start@
    }

    /// The pool slot the ring entry at `cursor` names.
    pub open spec fn spec_slot_at(&self, cursor: u64) -> u32 {
        self.page_view().slots_view()[self.page_view().slot_index(cursor)].slot_id
    }

    /// Whether the ring entry at live cursor `cursor` names pool slot `slot`.
    pub open spec fn spec_entry_names_slot(&self, cursor: u64, slot: u32) -> bool {
        self.page_view().slots_view()[self.page_view().slot_index(cursor)].slot_id == slot
    }

    pub closed spec fn wf(&self) -> bool {
        &&& self.page.wf()
        &&& self.slot_cursors@.len() == self.pool_slot_count
        &&& self.pool_slot_count > self.page.capacity()
        &&& self.last_cursor == self.page.latest()
        &&& self.next_slot_hint < self.pool_slot_count
        &&& forall|s: int| 0 <= s < self.slot_cursors@.len() ==> #[trigger] self.slot_cursors@[s] <= self.last_cursor
        &&& 1 <= self.pool_start@ <= self.last_cursor + 1
        &&& forall|cursor: u64|
            #![trigger self.page.slots_view()[self.page.slot_index(cursor)]]
            self.page.is_live(cursor) && cursor >= self.pool_start@ ==> {
                let slot = self.page.slots_view()[self.page.slot_index(cursor)].slot_id;
                &&& slot < self.pool_slot_count
                &&& self.slot_cursors@[slot as int] == cursor
            }
    }

    /// Whether a publish may push: the ring cursor and the config generation
    /// both stay within their fields.
    pub open spec fn spec_publish_fits(&self) -> bool {
        &&& self.page_view().latest() < u64::MAX - 1
        &&& self.page_view().header_view().config_cursor < u32::MAX
    }

    /// The counters a failed or dropped publish leaves alone.
    pub open spec fn spec_ring_unchanged(&self, other: &Self) -> bool {
        &&& other.page_view() == self.page_view()
        &&& other.slot_cursors_view() == self.slot_cursors_view()
        &&& other.last_cursor_view() == self.last_cursor_view()
        &&& other.next_slot_hint_view() == self.next_slot_hint_view()
        &&& other.params_view() == self.params_view()
        &&& other.pool_slot_count_view() == self.pool_slot_count_view()
        &&& other.policy_view() == self.policy_view()
        &&& other.next_assigned_consumer_id_view() == self.next_assigned_consumer_id_view()
        &&& other.pool_start_view() == self.pool_start_view()
    }
}

/// The producer state `new` after publishing a frame taken at `timestamp_ns`
/// into pool slot `slot` at `cursor`, from state `old`.
pub open spec fn spec_published<B: NativeFrameBackend>(
    old: NativeTrackProducer<B>,
    new: NativeTrackProducer<B>,
    timestamp_ns: u64,
    slot: u32,
    cursor: u64,
) -> bool {
    let capacity = old.page_view().capacity();
    &&& slot < old.pool_slot_count_view()
    &&& !spec_reachable(old.slot_cursors_view()[slot as int], old.last_cursor_view(), capacity)
    &&& forall|live: u64|
        old.page_view().is_live(live) && live >= old.pool_start_view() ==> !#[trigger] old.spec_entry_names_slot(
            live,
            slot,
        )
    &&& new.sequence_view() == spec_saturating_inc(old.sequence_view())
    &&& new.fence_value_view() == spec_saturating_inc(old.fence_value_view())
    &&& spec_pushed(
        old.page_view(),
        spec_native_entry(
            old.params_view(),
            new.sequence_view(),
            timestamp_ns,
            old.backend_view().spec_pool_id(old.pool_view()),
            slot,
            old.pending_dropped_view(),
            old.producer_drop_count_view(),
            old.backend_view().spec_payload_kind(),
            old.backend_view().spec_fence_id(old.fence_view()),
            new.fence_value_view(),
        ),
        new.page_view(),
        cursor,
    )
    &&& new.last_cursor_view() == cursor
    &&& new.slot_cursors_view() == old.slot_cursors_view().update(slot as int, cursor)
    &&& new.next_slot_hint_view() == (slot + 1) % (old.pool_slot_count_view() as int)
    &&& new.pending_dropped_view() == 0
    &&& new.producer_drop_count_view() == old.producer_drop_count_view()
    &&& new.params_view() == old.params_view()
    &&& new.pool_slot_count_view() == old.pool_slot_count_view()
    &&& new.policy_view() == old.policy_view()
    &&& new.next_assigned_consumer_id_view() == old.next_assigned_consumer_id_view()
    &&& new.pool_start_view() == old.pool_start_view()
}

/// The backend calls of a publish of `frame` from producer state `old`
/// that got as far as the fence: a claim that named `slot`, leaving the
/// backend at `claimed`; `frame` staged into that slot, leaving it at
/// `staged`; then the fence moved to `value`, answering `signaled` and
/// leaving the backend at `last`.
pub open spec fn spec_publish_calls<B: NativeFrameBackend>(
    old: NativeTrackProducer<B>,
    frame: B::CapturedFrame,
    claimed: B,
    staged: B,
    last: B,
    slot: u32,
    value: u64,
    stage_answer: CaptureResult<()>,
    signaled: CaptureResult<()>,
) -> bool {
    let pool_id = old.backend_view().spec_pool_id(old.pool_view());
    &&& old.spec_claimed(frame, claimed, Ok(SlotClaim::Ready { slot_id: slot }))
    &&& stage_answer is Ok
    &&& claimed.spec_stage_step(&staged, pool_id, slot, frame, stage_answer)
    &&& staged.spec_signal_step(&last, old.backend_view().spec_fence_id(old.fence_view()), value, signaled)
}

/// A publish of `frame` from `old` got as far as the fence: the backend
/// claimed `slot`, the frame was staged there, and the fence was moved to
/// `value`, answering `signaled` and leaving the backend at `last`.
pub open spec fn spec_publish_reached_fence<B: NativeFrameBackend>(
    old: NativeTrackProducer<B>,
    frame: B::CapturedFrame,
    last: B,
    slot: u32,
    value: u64,
    signaled: CaptureResult<()>,
) -> bool {
    exists|claimed: B, staged: B, stage_answer: CaptureResult<()>|
        #[trigger] spec_publish_calls(old, frame, claimed, staged, last, slot, value, stage_answer, signaled)
}

/// A publish of `frame` from `old` went through: the backend claimed `slot`,
/// the frame was staged there, and the fence was moved to `value`, leaving
/// the backend at `last`.
pub open spec fn spec_publish_completed<B: NativeFrameBackend>(
    old: NativeTrackProducer<B>,
    frame: B::CapturedFrame,
    last: B,
    slot: u32,
    value: u64,
) -> bool {
    exists|claimed: B, staged: B, stage_answer: CaptureResult<()>, signaled: CaptureResult<()>|
        signaled is Ok && #[trigger] spec_publish_calls(old, frame, claimed, staged, last, slot, value, stage_answer, signaled)
}

/// The producer state `new` after dropping a frame for want of a surface,
/// from state `old`.
pub open spec fn spec_dropped<B: NativeFrameBackend>(old: NativeTrackProducer<B>, new: NativeTrackProducer<B>) -> bool {
    &&& old.policy_view() == PoolExhaustionPolicy::DropFrame
    &&& old.spec_ring_unchanged(&new)
    &&& new.sequence_view() == spec_saturating_inc(old.sequence_view())
    &&& new.fence_value_view() == old.fence_value_view()
    &&& new.pending_dropped_view() == spec_saturating_inc32(old.pending_dropped_view())
    &&& new.producer_drop_count_view() == spec_saturating_inc(old.producer_drop_count_view())
}

/// Building a producer from `backend` failed with `error`: the backend
/// refused the pool, or the fence after the pool, or both were allocated and
/// the pool does not exceed the rounded ring capacity.
pub open spec fn spec_new_failed<B: NativeFrameBackend>(
    backend: B,
    params: NativeStreamParams,
    ring_capacity: usize,
    pool_slot_count: u32,
    error: CaptureTransferError,
) -> bool {
    ||| exists|allocated: B| #[trigger] backend.spec_allocate_step(&allocated, params, pool_slot_count, Err(error))
    ||| exists|allocated: B, pool: B::SurfacePool, fenced: B|
        #![trigger backend.spec_allocate_step(&allocated, params, pool_slot_count, Ok(pool)), allocated.spec_create_fence_step(&fenced, Err(error))]
        backend.spec_allocate_step(&allocated, params, pool_slot_count, Ok(pool)) && allocated.spec_create_fence_step(
            &fenced,
            Err(error),
        )
    ||| exists|allocated: B, pool: B::SurfacePool, fenced: B, fence: B::Fence|
        #![trigger backend.spec_allocate_step(&allocated, params, pool_slot_count, Ok(pool)), allocated.spec_create_fence_step(&fenced, Ok(fence))]
        {
            &&& backend.spec_allocate_step(&allocated, params, pool_slot_count, Ok(pool))
            &&& allocated.spec_create_fence_step(&fenced, Ok(fence))
            &&& pool_slot_count <= spec_ring_capacity(ring_capacity as nat)
            &&& error matches CaptureTransferError::NativeBackend { operation, message }
            &&& operation@ == "create-native-producer"@
            &&& message@ == spec_pool_too_small_message(pool_slot_count, spec_ring_capacity(ring_capacity as nat))
        }
}

impl<B: NativeFrameBackend> NativeTrackProducer<B> {
    /// Build a producer around a pool and fence allocated before it exists.
    /// The pool must exceed the ring capacity rounded up to a power of two,
    /// so live entries alone can never pin every surface.
    pub fn from_allocated_parts(
        backend: B,
        params: NativeStreamParams,
        ring_capacity: usize,
        pool_slot_count: u32,
        pool: B::SurfacePool,
        fence: B::Fence,
        exhaustion_policy: PoolExhaustionPolicy,
    ) -> (producer: CaptureResult<Self>)
        requires
            spec_layout_fits(spec_ring_capacity(ring_capacity as nat)),
        ensures
            match producer {
                Ok(producer) => {
                    &&& pool_slot_count > spec_ring_capacity(ring_capacity as nat)
                    &&& producer.wf()
                    &&& producer.backend_view() == backend
                    &&& producer.pool_view() == pool
                    &&& producer.fence_view() == fence
                    &&& producer.params_view() == params
                    &&& producer.policy_view() == exhaustion_policy
                    &&& producer.pool_slot_count_view() == pool_slot_count
                    &&& producer.page_view().capacity() == spec_ring_capacity(ring_capacity as nat)
                    &&& producer.page_view().latest() == 0
                    &&& producer.page_view().header_view().config_cursor == 0
                    &&& producer.slot_cursors_view() == Seq::new(pool_slot_count as nat, |i: int| 0u64)
                    &&& producer.next_slot_hint_view() == 0
                    &&& producer.last_cursor_view() == 0
                    &&& producer.sequence_view() == 0
                    &&& producer.fence_value_view() == 0
                    &&& producer.pending_dropped_view() == 0
                    &&& producer.producer_drop_count_view() == 0
                    &&& producer.next_assigned_consumer_id_view() == 1
                },
                Err(error) => {
                    &&& pool_slot_count <= spec_ring_capacity(ring_capacity as nat)
                    &&& error matches CaptureTransferError::NativeBackend { operation, message }
                    &&& operation@ == "create-native-producer"@
                    &&& message@ == spec_pool_too_small_message(
                        pool_slot_count,
                        spec_ring_capacity(ring_capacity as nat),
                    )
                },
            },
    {
        let page = VideoTrackControlPage::new(ring_capacity);
        let rounded_capacity = page.layout().slot_capacity;
        if pool_slot_count as usize <= rounded_capacity {
            return Err(
                CaptureTransferError::NativeBackend {
                    operation: "create-native-producer",
                    message: pool_too_small_message(pool_slot_count, rounded_capacity),
                },
            );
        }
        let slot_cursors = zeroed_cursors(pool_slot_count);
        let producer = NativeTrackProducer {
            backend,
            params,
            page,
            pool,
            pool_slot_count,
            fence,
            exhaustion_policy,
            slot_cursors,
            next_slot_hint: 0,
            last_cursor: 0,
            sequence: 0,
            fence_value: 0,
            pending_dropped: 0,
            producer_drop_count: 0,
            next_assigned_consumer_id: 1,
            pool_start: Ghost(1nat),
        };
        proof {
            assert(producer.slot_cursors@ =~= Seq::new(pool_slot_count as nat, |i: int| 0u64));
        }
        Ok(producer)
    }

    /// Allocate a pool and a fence from `backend`, then build the producer.
    pub fn new(
        backend: B,
        params: NativeStreamParams,
        ring_capacity: usize,
        pool_slot_count: u32,
        exhaustion_policy: PoolExhaustionPolicy,
    ) -> (producer: CaptureResult<Self>)
        requires
            spec_layout_fits(spec_ring_capacity(ring_capacity as nat)),
        ensures
            producer matches Ok(producer) ==> {
                &&& pool_slot_count > spec_ring_capacity(ring_capacity as nat)
                &&& producer.wf()
                &&& producer.params_view() == params
                &&& producer.policy_view() == exhaustion_policy
                &&& producer.pool_slot_count_view() == pool_slot_count
                &&& producer.page_view().capacity() == spec_ring_capacity(ring_capacity as nat)
                &&& producer.page_view().latest() == 0
                &&& producer.page_view().header_view().config_cursor == 0
                &&& producer.slot_cursors_view() == Seq::new(pool_slot_count as nat, |i: int| 0u64)
                &&& producer.next_slot_hint_view() == 0
                &&& producer.sequence_view() == 0
                &&& producer.fence_value_view() == 0
                &&& producer.pending_dropped_view() == 0
                &&& producer.producer_drop_count_view() == 0
                &&& producer.next_assigned_consumer_id_view() == 1
            },
            pool_slot_count <= spec_ring_capacity(ring_capacity as nat) ==> producer is Err,
            producer matches Ok(producer) ==> exists|allocated: B|
                #[trigger] backend.spec_allocate_step(&allocated, params, pool_slot_count, Ok(producer.pool_view()))
                    && allocated.spec_create_fence_step(&producer.backend_view(), Ok(producer.fence_view())),
            producer matches Err(error) ==> spec_new_failed(backend, params, ring_capacity, pool_slot_count, error),
    {
        let mut backend = backend;
        let ghost given = backend;
        let allocation = backend.allocate_surface_pool(&params, pool_slot_count);
        let ghost allocated = backend;
        let pool = match allocation {
            Ok(pool) => pool,
            Err(error) => {
                proof {
                    assert(given.spec_allocate_step(&allocated, params, pool_slot_count, Err(error)));
                }
                return Err(error);
            },
        };
        let creation = backend.create_fence();
        let ghost fenced = backend;
        proof {
            assert(given.spec_allocate_step(&allocated, params, pool_slot_count, Ok(pool)));
        }
        let fence = match creation {
            Ok(fence) => fence,
            Err(error) => {
                proof {
                    assert(allocated.spec_create_fence_step(&fenced, Err(error)));
                    assert(spec_new_failed(given, params, ring_capacity, pool_slot_count, error));
                }
                return Err(error);
            },
        };
        proof {
            assert(allocated.spec_create_fence_step(&fenced, Ok(fence)));
        }
        let built = Self::from_allocated_parts(backend, params, ring_capacity, pool_slot_count, pool, fence, exhaustion_policy);
        proof {
            if built is Err {
                assert(spec_new_failed(given, params, ring_capacity, pool_slot_count, built->Err_0));
            }
        }
        built
    }
}

impl<B: NativeFrameBackend> NativeTrackProducer<B> {
    /// The counters only a publish or a drop moves are as in `other`.
    pub open spec fn spec_counters_unchanged(&self, other: &Self) -> bool {
        &&& other.sequence_view() == self.sequence_view()
        &&& other.fence_value_view() == self.fence_value_view()
        &&& other.pending_dropped_view() == self.pending_dropped_view()
        &&& other.producer_drop_count_view() == self.producer_drop_count_view()
    }

    /// Every pool slot in rotation order from the slot after the last one
    /// published, with the cursor it was last published at.
    pub open spec fn spec_rotation(&self) -> Seq<SlotReuseCandidate> {
        Seq::new(
            self.pool_slot_count_view() as nat,
            |k: int|
                {
                    let slot = ((self.next_slot_hint_view() + k) % (self.pool_slot_count_view() as int)) as u32;
                    SlotReuseCandidate { slot_id: slot, last_cursor: self.slot_cursors_view()[slot as int] }
                },
        )
    }

    /// A slot may be offered for reuse: no live ring entry names it, and it
    /// is the slot the capture API delivered the frame in, when it says.
    pub open spec fn spec_offerable(&self, hint: Option<u32>, candidate: SlotReuseCandidate) -> bool {
        &&& !spec_reachable(candidate.last_cursor, self.last_cursor_view(), self.page_view().capacity())
        &&& hint matches Some(hinted) ==> hinted == candidate.slot_id
    }

    /// The slots offered to the backend for a frame delivered with `hint`.
    pub open spec fn spec_reuse_candidates(&self, hint: Option<u32>) -> Seq<SlotReuseCandidate> {
        self.spec_rotation().filter(|candidate: SlotReuseCandidate| self.spec_offerable(hint, candidate))
    }

    /// The slots to offer the backend for a frame delivered with `hint`.
    fn reuse_candidates(&self, hint: Option<u32>) -> (candidates: Vec<SlotReuseCandidate>)
        requires
            self.wf(),
        ensures
            candidates@ == self.spec_reuse_candidates(hint),
            forall|i: int|
                0 <= i < candidates@.len() ==> {
                    let slot = (#[trigger] candidates@[i]).slot_id;
                    &&& slot < self.pool_slot_count_view()
                    &&& !spec_reachable(
                        self.slot_cursors_view()[slot as int],
                        self.last_cursor_view(),
                        self.page_view().capacity(),
                    )
                },
    {
        proof {
            self.page.lemma_wf_bounds();
        }
        let ghost pred = |candidate: SlotReuseCandidate| self.spec_offerable(hint, candidate);
        let ghost rotation = self.spec_rotation();
        let ring_capacity = self.page.layout().slot_capacity as u64;
        let live_len = if self.last_cursor < ring_capacity {
            self.last_cursor
        } else {
            ring_capacity
        };
        let oldest_live_cursor = self.last_cursor - live_len + 1;
        let mut candidates: Vec<SlotReuseCandidate> = Vec::new();
        let mut offset: u32 = 0;
        while offset < self.pool_slot_count
            invariant
                self.wf(),
                offset <= self.pool_slot_count,
                ring_capacity == self.page.capacity(),
                oldest_live_cursor == spec_oldest_live(self.last_cursor, self.page.capacity()),
                rotation == self.spec_rotation(),
                pred == (|candidate: SlotReuseCandidate| self.spec_offerable(hint, candidate)),
                candidates@ == rotation.take(offset as int).filter(pred),
                forall|i: int|
                    0 <= i < candidates@.len() ==> {
                        let slot = (#[trigger] candidates@[i]).slot_id;
                        &&& slot < self.pool_slot_count
                        &&& !spec_reachable(self.slot_cursors@[slot as int], self.last_cursor, self.page.capacity())
                    },
            decreases self.pool_slot_count - offset,
        {
            let slot_id = ((self.next_slot_hint as u64 + offset as u64) % (self.pool_slot_count as u64)) as u32;
            let published_at = self.slot_cursors[slot_id as usize];
            let candidate = SlotReuseCandidate { slot_id, last_cursor: published_at };
            proof {
                assert(rotation[offset as int] == candidate);
                assert(rotation.take(offset + 1).drop_last() =~= rotation.take(offset as int));
                assert(rotation.take(offset + 1).last() == candidate);
                reveal(Seq::filter);
            }
            let hinted_away = match hint {
                Some(hinted) => hinted != slot_id,
                None => false,
            };
            if !hinted_away {
                let reachable = published_at != 0 && published_at >= oldest_live_cursor;
                if !reachable {
                    candidates.push(candidate);
                }
            }
            offset = offset + 1;
        }
        proof {
            assert(rotation.take(offset as int) =~= rotation);
        }
        candidates
    }

    /// The backend, in this producer's state, may answer a claim for `frame`
    /// with `claim` and move to `after`: the candidates offered are those for
    /// a slot hint the backend may give for the frame.
    pub open spec fn spec_claimed(&self, frame: B::CapturedFrame, after: B, claim: CaptureResult<SlotClaim>) -> bool {
        exists|hint: Option<u32>|
            (hint is None || hint == self.backend_view().spec_frame_slot_hint(frame))
                && #[trigger] self.backend_view().spec_claim_step(
                &after,
                self.backend_view().spec_pool_id(self.pool_view()),
                self.spec_reuse_candidates(hint),
                claim,
            )
    }

    /// Offer the backend the eligible surfaces for `frame`: slots still named
    /// by live ring entries are excluded, the rest are offered in rotation
    /// order from the slot after the last one published. `WouldBlock` means
    /// the pool is exhausted.
    fn claim_slot(&mut self, frame: &B::CapturedFrame) -> (claim: CaptureResult<SlotClaim>)
        requires
            old(self).wf(),
        ensures
            final(self).wf(),
            old(self).spec_ring_unchanged(final(self)),
            old(self).spec_counters_unchanged(final(self)),
            final(self).fence_view() == old(self).fence_view(),
            final(self).backend_view().spec_pool_id(final(self).pool_view()) == old(self).backend_view().spec_pool_id(
                old(self).pool_view(),
            ),
            final(self).backend_view().spec_payload_kind() == old(self).backend_view().spec_payload_kind(),
            forall|fence: B::Fence| #[trigger] final(self).backend_view().spec_fence_id(fence)
                == old(self).backend_view().spec_fence_id(fence),
            old(self).spec_claimed(*frame, final(self).backend_view(), claim),
            claim matches Ok(SlotClaim::Ready { slot_id }) ==> {
                &&& slot_id < old(self).pool_slot_count_view()
                &&& !spec_reachable(
                    old(self).slot_cursors_view()[slot_id as int],
                    old(self).last_cursor_view(),
                    old(self).page_view().capacity(),
                )
            },
    {
        let slot_hint = self.backend.frame_slot_hint(frame);
        let candidates = self.reuse_candidates(slot_hint);
        let ghost before = *self;
        let claim = self.backend.claim_reusable_slot(&mut self.pool, candidates.as_slice());
        proof {
            assert(before.backend_view().spec_claim_step(
                &self.backend,
                before.backend_view().spec_pool_id(before.pool_view()),
                before.spec_reuse_candidates(slot_hint),
                claim,
            ));
            if let Ok(SlotClaim::Ready { slot_id }) = claim {
                let i = choose|i: int| 0 <= i < candidates@.len() && (#[trigger] candidates@[i]).slot_id == slot_id;
                assert(candidates@[i].slot_id == slot_id);
            }
        }
        claim
    }

    /// No surface is eligible for a frame: drop it and account for the gap,
    /// or refuse it without consuming its sequence number, as the policy
    /// says.
    fn on_pool_exhausted(&mut self) -> (outcome: CaptureResult<PublishOutcome>)
        requires
            old(self).wf(),
        ensures
            final(self).wf(),
            final(self).backend_view() == old(self).backend_view(),
            final(self).pool_view() == old(self).pool_view(),
            final(self).fence_view() == old(self).fence_view(),
            match old(self).policy_view() {
                PoolExhaustionPolicy::DropFrame => outcome == Ok::<PublishOutcome, CaptureTransferError>(
                    PublishOutcome::Dropped,
                ) && spec_dropped(*old(self), *final(self)),
                PoolExhaustionPolicy::Fail => outcome == Err::<PublishOutcome, CaptureTransferError>(
                    CaptureTransferError::SurfacePoolExhausted { slot_count: old(self).pool_slot_count_view() },
                ) && *final(self) == *old(self),
            },
    {
        match self.exhaustion_policy {
            PoolExhaustionPolicy::DropFrame => {
                self.sequence = self.sequence.saturating_add(1);
                self.pending_dropped = self.pending_dropped.saturating_add(1);
                self.producer_drop_count = self.producer_drop_count.saturating_add(1);
                Ok(PublishOutcome::Dropped)
            },
            PoolExhaustionPolicy::Fail => Err(
                CaptureTransferError::SurfacePoolExhausted { slot_count: self.pool_slot_count },
            ),
        }
    }

    /// Stage `frame` into an eligible surface, signal the fence, and publish
    /// the descriptor; when no surface is eligible the exhaustion policy
    /// applies.
    pub fn publish(&mut self, frame: &B::CapturedFrame, timestamp_ns: u64) -> (outcome: CaptureResult<PublishOutcome>)
        requires
            old(self).wf(),
            old(self).spec_publish_fits(),
        ensures
            final(self).wf(),
            final(self).backend_view().spec_pool_id(final(self).pool_view()) == old(self).backend_view().spec_pool_id(
                old(self).pool_view(),
            ),
            final(self).backend_view().spec_fence_id(final(self).fence_view()) == old(self).backend_view().spec_fence_id(
                old(self).fence_view(),
            ),
            outcome matches Ok(PublishOutcome::Published { cursor }) ==> spec_published(
                *old(self),
                *final(self),
                timestamp_ns,
                final(self).spec_slot_at(cursor),
                cursor,
            ),
            outcome matches Ok(PublishOutcome::Published { cursor }) ==> spec_publish_completed(
                *old(self),
                *frame,
                final(self).backend_view(),
                final(self).spec_slot_at(cursor),
                final(self).fence_value_view(),
            ),
            outcome matches Ok(PublishOutcome::Dropped) ==> {
                &&& spec_dropped(*old(self), *final(self))
                &&& old(self).spec_claimed(*frame, final(self).backend_view(), Ok(SlotClaim::WouldBlock))
            },
            outcome matches Err(error) ==> {
                ||| {
                    &&& old(self).spec_claimed(*frame, final(self).backend_view(), Err(error))
                    &&& old(self).spec_stream_unchanged(final(self))
                }
                ||| {
                    &&& old(self).policy_view() == PoolExhaustionPolicy::Fail
                    &&& error == CaptureTransferError::SurfacePoolExhausted { slot_count: old(self).pool_slot_count_view() }
                    &&& old(self).spec_claimed(*frame, final(self).backend_view(), Ok(SlotClaim::WouldBlock))
                    &&& old(self).spec_stream_unchanged(final(self))
                }
                ||| exists|claimed: B, slot: u32|
                    #![trigger claimed.spec_stage_step(&final(self).backend_view(), old(self).backend_view().spec_pool_id(old(self).pool_view()), slot, *frame, Err(error))]
                    {
                        &&& old(self).spec_claimed(*frame, claimed, Ok(SlotClaim::Ready { slot_id: slot }))
                        &&& claimed.spec_stage_step(
                            &final(self).backend_view(),
                            old(self).backend_view().spec_pool_id(old(self).pool_view()),
                            slot,
                            *frame,
                            Err(error),
                        )
                        &&& old(self).spec_stream_unchanged(final(self))
                    }
                ||| exists|slot: u32|
                    {
                        &&& #[trigger] spec_publish_reached_fence(
                            *old(self),
                            *frame,
                            final(self).backend_view(),
                            slot,
                            final(self).fence_value_view(),
                            Err(error),
                        )
                        &&& old(self).spec_ring_unchanged(final(self))
                        &&& final(self).sequence_view() == spec_saturating_inc(old(self).sequence_view())
                        &&& final(self).fence_value_view() == spec_saturating_inc(old(self).fence_value_view())
                        &&& final(self).pending_dropped_view() == old(self).pending_dropped_view()
                        &&& final(self).producer_drop_count_view() == old(self).producer_drop_count_view()
                    }
            },
    {
        let ghost before = *self;
        let claim = self.claim_slot(frame);
        let ghost claimed = self.backend;
        let slot_id = match claim {
            Ok(SlotClaim::Ready { slot_id }) => slot_id,
            Ok(SlotClaim::WouldBlock) => return self.on_pool_exhausted(),
            Err(error) => return Err(error),
        };
        let ghost claimed_pool = self.pool;
        let stage_answer = self.backend.stage_frame(&mut self.pool, slot_id, frame);
        match stage_answer {
            Ok(()) => {},
            Err(error) => {
                proof {
                    assert(before.spec_claimed(*frame, claimed, claim));
                }
                return Err(error);
            },
        }
        let ghost staged_at = self.backend;
        self.sequence = self.sequence.saturating_add(1);
        self.fence_value = self.fence_value.saturating_add(1);
        let signaled = self.backend.signal_fence(&mut self.fence, self.fence_value);
        proof {
            assert(before.spec_claimed(*frame, claimed, claim));
            assert(claimed.spec_stage_step(&staged_at, claimed.spec_pool_id(claimed_pool), slot_id, *frame, stage_answer));
            assert(claimed.spec_pool_id(claimed_pool) == before.backend_view().spec_pool_id(before.pool_view()));
        }
        match signaled {
            Ok(()) => {},
            Err(error) => {
                proof {
                    assert(spec_publish_calls(
                        *old(self),
                        *frame,
                        claimed,
                        staged_at,
                        self.backend_view(),
                        slot_id,
                        self.fence_value_view(),
                        stage_answer,
                        Err(error),
                    ));
                    assert(spec_publish_reached_fence(
                        *old(self),
                        *frame,
                        self.backend_view(),
                        slot_id,
                        self.fence_value_view(),
                        Err(error),
                    ));
                }
                return Err(error);
            },
        }
        let ghost staged = *self;
        let pool_id = self.backend.pool_id(&self.pool);
        let payload_kind = self.backend.payload_kind().code();
        let fence_id = self.backend.fence_id(&self.fence);
        let entry = PendingVideoRingEntry {
            sequence: self.sequence,
            timestamp_ns,
            width: self.params.width,
            height: self.params.height,
            stride: 0,
            pixel_format: self.params.pixel_format.code(),
            pool_id,
            slot_id,
            payload_offset: 0,
            payload_len: 0,
            clock_domain: self.params.clock_domain.code(),
            color_space: self.params.color_space.code(),
            sync_kind: FrameSyncKind::NativeTimeline.code(),
            damage_kind: DamageKind::FullFrame.code(),
            damage_base_sequence: self.sequence,
            dropped_before_publish: self.pending_dropped,
            producer_drop_count: self.producer_drop_count,
            payload_kind,
            modifier: self.params.modifier,
            fence_id,
            fence_value: self.fence_value,
            flags: 0,
        };
        let cursor = self.page.push(entry);
        self.pending_dropped = 0;
        self.last_cursor = cursor;
        self.slot_cursors.set(slot_id as usize, cursor);
        self.next_slot_hint = (slot_id + 1) % self.pool_slot_count;
        proof {
            let capacity = before.page.capacity();
            assert forall|live: u64|
                before.page.is_live(live) && live >= before.pool_start@ implies !#[trigger] before.spec_entry_names_slot(
                live,
                slot_id,
            ) by {
                assert(before.page.slots_view()[before.page.slot_index(live)] == before.page.slots_view()[before.page.slot_index(live)]);
            }
            assert forall|live: u64|
                #![trigger self.page.slots_view()[self.page.slot_index(live)]]
                self.page.is_live(live) && live >= self.pool_start@ implies {
                    let slot = self.page.slots_view()[self.page.slot_index(live)].slot_id;
                    &&& slot < self.pool_slot_count
                    &&& self.slot_cursors@[slot as int] == live
                } by {
                if live != cursor {
                    crate::control_page::law_push_keeps_live_slots(before.page, entry, self.page, cursor, live);
                    assert(before.page.slots_view()[before.page.slot_index(live)] == before.page.slots_view()[before.page.slot_index(live)]);
                }
            }
            assert(before == *old(self));
            assert(spec_published(*old(self), *self, timestamp_ns, slot_id, cursor));
            before.page.lemma_wf_bounds();
            assert(0 <= before.page.slot_index(cursor) < before.page.capacity());
            assert(self.spec_slot_at(cursor) == slot_id);
            assert(spec_publish_calls(
                *old(self),
                *frame,
                claimed,
                staged_at,
                self.backend_view(),
                self.spec_slot_at(cursor),
                self.fence_value_view(),
                stage_answer,
                signaled,
            ));
            assert(signaled is Ok);
            assert(spec_publish_completed(
                *old(self),
                *frame,
                self.backend_view(),
                self.spec_slot_at(cursor),
                self.fence_value_view(),
            ));
        }
        Ok(PublishOutcome::Published { cursor })
    }
}

proof fn lemma_counters_only_grow(counters: Seq<u64>, i: int, j: int)
    requires
        0 <= i <= j < counters.len(),
        forall|k: int|
            0 <= k < counters.len() - 1 ==> #[trigger] counters[k + 1] == counters[k] || counters[k + 1]
                == counters[k] + 1,
    ensures
        counters[j] >= counters[i],
    decreases j - i,
{
    if i < j {
        lemma_counters_only_grow(counters, i, j - 1);
        assert(counters[(j - 1) + 1] == counters[j - 1] || counters[(j - 1) + 1] == counters[j - 1] + 1);
    }
}

/// Law: over the attaches a producer answers, where the assignment counter
/// stays or advances by one each time (by one exactly for an attach that
/// asked for an id), the id assigned at one attach differs from the id
/// assigned at any later one, while the counter stays below 2^63.
pub proof fn law_assigned_ids_distinct_across_attaches(counters: Seq<u64>, i: int, j: int)
    requires
        0 <= i < j < counters.len(),
        forall|k: int|
            0 <= k < counters.len() - 1 ==> #[trigger] counters[k + 1] == counters[k] || counters[k + 1]
                == counters[k] + 1,
        counters[i + 1] == counters[i] + 1,
        counters.last() < 0x8000_0000_0000_0000u64,
    ensures
        spec_assigned_consumer_id(counters[i]) != spec_assigned_consumer_id(counters[j]),
{
    lemma_counters_only_grow(counters, i + 1, j);
    lemma_counters_only_grow(counters, j, counters.len() - 1);
    law_assigned_ids_distinct(counters[i], counters[j]);
}

/// The consumer table `after` that registering `consumer_id` into `entries`
/// leaves, whatever the attach then answers: a new id takes the first free
/// entry; a known id, a zero id or a full table leave the table as it was.
pub open spec fn spec_consumers_registered(
    entries: Seq<VideoConsumerCursorEntry>,
    consumer_id: u64,
    after: Seq<VideoConsumerCursorEntry>,
) -> bool {
    if consumer_id != 0 && !spec_has_id(entries, consumer_id) && spec_has_id(entries, 0) {
        exists|index: int|
            spec_first_with_id(entries, 0, index) && after == entries.update(index, spec_registered_entry(consumer_id))
    } else {
        after == entries
    }
}

/// `grant` is the attach grant for `consumer_id` that producer state
/// `before` gives, leaving state `after`: the consumer's own entry, the ring
/// image, and the pool and fence the stream publishes through.
pub open spec fn spec_grant_describes<B: NativeFrameBackend>(
    before: NativeTrackProducer<B>,
    after: NativeTrackProducer<B>,
    consumer_id: u64,
    grant: AttachGrant<B::SurfaceHandle, B::SyncHandle>,
) -> bool {
    &&& grant.consumer_id == consumer_id
    &&& spec_first_with_id(after.page_view().consumers_view(), consumer_id, grant.consumer_slot as int)
    &&& grant.ring_image@ == after.page_view().spec_image()
    &&& grant.ring_map_len == after.page_view().mapped_len_view()
    &&& grant.pool_id == before.backend_view().spec_pool_id(before.pool_view())
    &&& grant.pool_slot_count == before.pool_slot_count_view()
    &&& grant.fence_id == before.backend_view().spec_fence_id(before.fence_view())
    &&& before.backend_view().spec_export_surfaces_step(before.pool_view(), Ok(grant.surface_handles))
    &&& before.backend_view().spec_export_sync_step(before.fence_view(), Ok(grant.sync_handle))
}

/// The surface handles an exported pool carries, or the error it failed
/// with.
pub open spec fn spec_pool_handles<S>(exported: CaptureResult<AttachPool<S>>) -> CaptureResult<Vec<S>> {
    match exported {
        Ok(exported) => Ok(exported.surface_handles),
        Err(error) => Err(error),
    }
}

/// An attach grant for `consumer_id` from producer state `before` failed
/// with `error`: the consumer table refused the id, or the backend failed to
/// export the pool's surfaces, or, after exporting them, the fence.
pub open spec fn spec_grant_failed<B: NativeFrameBackend>(
    before: NativeTrackProducer<B>,
    consumer_id: u64,
    error: CaptureTransferError,
) -> bool {
    ||| spec_registration_refused(before.page_view().consumers_view(), consumer_id, error)
    ||| before.backend_view().spec_export_surfaces_step(before.pool_view(), Err(error))
    ||| exists|handles: Vec<B::SurfaceHandle>|
        #[trigger] before.backend_view().spec_export_surfaces_step(before.pool_view(), Ok(handles))
            && before.backend_view().spec_export_sync_step(before.fence_view(), Err(error))
}

/// Registering `consumer_id` into `entries` is refused with `error`: a zero
/// id, or a new id when no entry is free.
pub open spec fn spec_registration_refused(
    entries: Seq<VideoConsumerCursorEntry>,
    consumer_id: u64,
    error: CaptureTransferError,
) -> bool {
    ||| consumer_id == 0 && spec_is_page_error(error, "consumer id must be non-zero"@)
    ||| {
        &&& consumer_id != 0
        &&& !spec_has_id(entries, consumer_id)
        &&& !spec_has_id(entries, 0)
        &&& spec_is_page_error(error, "consumer cursor table is full"@)
    }
}

/// The consumer id the attach endpoint assigns from counter value `counter`:
/// the counter with the top bit set, out of the range callers pick ids from.
pub open spec fn spec_assigned_consumer_id(counter: u64) -> u64 {
    counter | 0x8000_0000_0000_0000u64
}

/// Law: an assigned consumer id is at least 2^63, so it never equals an id a
/// caller picks below that, and two counter values below 2^63 assign two
/// different ids.
pub proof fn law_assigned_ids_distinct(first: u64, second: u64)
    requires
        first != second,
        first < 0x8000_0000_0000_0000u64,
        second < 0x8000_0000_0000_0000u64,
    ensures
        spec_assigned_consumer_id(first) >= 0x8000_0000_0000_0000u64,
        spec_assigned_consumer_id(first) != spec_assigned_consumer_id(second),
{
    assert((first | 0x8000_0000_0000_0000u64) >= 0x8000_0000_0000_0000u64) by (bit_vector);
    assert((first | 0x8000_0000_0000_0000u64) != (second | 0x8000_0000_0000_0000u64)) by (bit_vector)
        requires
            first != second,
            first < 0x8000_0000_0000_0000u64,
            second < 0x8000_0000_0000_0000u64,
    ;
}

impl<B: NativeFrameBackend> NativeTrackProducer<B> {
    /// The page, pool, fence, parameters and counters are as in `other`,
    /// whatever happened to the backend.
    pub open spec fn spec_stream_unchanged(&self, other: &Self) -> bool {
        &&& self.spec_ring_unchanged(other)
        &&& self.spec_counters_unchanged(other)
    }

    /// Replace the active pool, keeping the ring, sequence, cursor, drop
    /// accounting and fence. The pool must exceed the ring capacity.
    fn replace_pool(
        &mut self,
        params: NativeStreamParams,
        pool_slot_count: u32,
        pool: B::SurfacePool,
        operation: &'static str,
    ) -> (replaced: CaptureResult<()>)
        requires
            old(self).wf(),
        ensures
            final(self).wf(),
            old(self).spec_counters_unchanged(final(self)),
            final(self).page_view() == old(self).page_view(),
            final(self).last_cursor_view() == old(self).last_cursor_view(),
            final(self).policy_view() == old(self).policy_view(),
            final(self).next_assigned_consumer_id_view() == old(self).next_assigned_consumer_id_view(),
            final(self).backend_view() == old(self).backend_view(),
            final(self).fence_view() == old(self).fence_view(),
            match replaced {
                Ok(()) => {
                    &&& pool_slot_count > old(self).page_view().capacity()
                    &&& final(self).params_view() == params
                    &&& final(self).pool_view() == pool
                    &&& final(self).pool_slot_count_view() == pool_slot_count
                    &&& final(self).slot_cursors_view() == Seq::new(pool_slot_count as nat, |i: int| 0u64)
                    &&& final(self).next_slot_hint_view() == 0
                    &&& final(self).pool_start_view() == old(self).last_cursor_view() + 1
                },
                Err(error) => {
                    &&& pool_slot_count <= old(self).page_view().capacity()
                    &&& old(self).spec_ring_unchanged(final(self))
                    &&& final(self).pool_view() == old(self).pool_view()
                    &&& error matches CaptureTransferError::NativeBackend { operation: op, message }
                    &&& op == operation
                    &&& message@ == spec_pool_too_small_message(pool_slot_count, old(self).page_view().capacity())
                },
            },
    {
        let rounded_capacity = self.page.layout().slot_capacity;
        if pool_slot_count as usize <= rounded_capacity {
            return Err(
                CaptureTransferError::NativeBackend {
                    operation,
                    message: pool_too_small_message(pool_slot_count, rounded_capacity),
                },
            );
        }
        proof {
            self.page.lemma_wf_bounds();
        }
        self.params = params;
        self.pool = pool;
        self.pool_slot_count = pool_slot_count;
        self.slot_cursors = zeroed_cursors(pool_slot_count);
        self.next_slot_hint = 0;
        self.pool_start = Ghost((self.last_cursor + 1) as nat);
        Ok(())
    }

    /// Allocate a pool for new stream parameters from the backend and switch
    /// to it; the ring, sequence, cursor, drop accounting and fence go on.
    pub fn reconfigure(&mut self, params: NativeStreamParams, pool_slot_count: u32) -> (reconfigured: CaptureResult<()>)
        requires
            old(self).wf(),
        ensures
            final(self).wf(),
            old(self).spec_counters_unchanged(final(self)),
            final(self).page_view() == old(self).page_view(),
            final(self).last_cursor_view() == old(self).last_cursor_view(),
            final(self).policy_view() == old(self).policy_view(),
            reconfigured is Ok ==> {
                &&& pool_slot_count > old(self).page_view().capacity()
                &&& final(self).params_view() == params
                &&& final(self).pool_slot_count_view() == pool_slot_count
                &&& final(self).slot_cursors_view() == Seq::new(pool_slot_count as nat, |i: int| 0u64)
                &&& final(self).next_slot_hint_view() == 0
            },
            final(self).fence_view() == old(self).fence_view(),
            pool_slot_count <= old(self).page_view().capacity() ==> reconfigured is Err,
            reconfigured is Ok ==> old(self).backend_view().spec_allocate_step(
                &final(self).backend_view(),
                params,
                pool_slot_count,
                Ok(final(self).pool_view()),
            ),
            reconfigured matches Err(error) ==> {
                &&& old(self).spec_ring_unchanged(final(self))
                &&& final(self).params_view() == old(self).params_view()
                &&& final(self).pool_slot_count_view() == old(self).pool_slot_count_view()
                &&& final(self).pool_view() == old(self).pool_view()
                &&& ({
                    ||| old(self).backend_view().spec_allocate_step(
                        &final(self).backend_view(),
                        params,
                        pool_slot_count,
                        Err(error),
                    )
                    ||| {
                        &&& pool_slot_count <= old(self).page_view().capacity()
                        &&& error matches CaptureTransferError::NativeBackend { operation, message }
                        &&& operation@ == "reconfigure-native-producer"@
                        &&& message@ == spec_pool_too_small_message(pool_slot_count, old(self).page_view().capacity())
                        &&& exists|pool: B::SurfacePool|
                            #[trigger] old(self).backend_view().spec_allocate_step(
                                &final(self).backend_view(),
                                params,
                                pool_slot_count,
                                Ok(pool),
                            )
                    }
                })
            },
    {
        let allocated = self.backend.allocate_surface_pool(&params, pool_slot_count);
        let pool = match allocated {
            Ok(pool) => pool,
            Err(error) => return Err(error),
        };
        self.replace_pool(params, pool_slot_count, pool, "reconfigure-native-producer")
    }

    /// Switch to a pool the capture API already allocated.
    pub fn replace_allocated_pool(
        &mut self,
        params: NativeStreamParams,
        pool_slot_count: u32,
        pool: B::SurfacePool,
    ) -> (replaced: CaptureResult<()>)
        requires
            old(self).wf(),
        ensures
            final(self).wf(),
            old(self).spec_counters_unchanged(final(self)),
            final(self).page_view() == old(self).page_view(),
            final(self).last_cursor_view() == old(self).last_cursor_view(),
            final(self).policy_view() == old(self).policy_view(),
            match replaced {
                Ok(()) => {
                    &&& pool_slot_count > old(self).page_view().capacity()
                    &&& final(self).params_view() == params
                    &&& final(self).pool_view() == pool
                    &&& final(self).pool_slot_count_view() == pool_slot_count
                    &&& final(self).slot_cursors_view() == Seq::new(pool_slot_count as nat, |i: int| 0u64)
                    &&& final(self).next_slot_hint_view() == 0
                },
                Err(error) => {
                    &&& pool_slot_count <= old(self).page_view().capacity()
                    &&& old(self).spec_ring_unchanged(final(self))
                    &&& error matches CaptureTransferError::NativeBackend { operation, message }
                    &&& operation@ == "reconfigure-native-producer"@
                    &&& message@ == spec_pool_too_small_message(pool_slot_count, old(self).page_view().capacity())
                },
            },
    {
        self.replace_pool(params, pool_slot_count, pool, "reconfigure-native-producer")
    }

    /// Take the next assigned consumer id.
    pub(crate) fn assign_consumer_id(&mut self) -> (consumer_id: u64)
        requires
            old(self).wf(),
        ensures
            final(self).wf(),
            consumer_id == spec_assigned_consumer_id(old(self).next_assigned_consumer_id_view()),
            consumer_id != 0,
            final(self).next_assigned_consumer_id_view() == old(self).next_assigned_consumer_id_view().wrapping_add(1),
            old(self).spec_counters_unchanged(final(self)),
            final(self).page_view() == old(self).page_view(),
            final(self).slot_cursors_view() == old(self).slot_cursors_view(),
            final(self).last_cursor_view() == old(self).last_cursor_view(),
            final(self).next_slot_hint_view() == old(self).next_slot_hint_view(),
            final(self).params_view() == old(self).params_view(),
            final(self).pool_slot_count_view() == old(self).pool_slot_count_view(),
            final(self).policy_view() == old(self).policy_view(),
            final(self).pool_start_view() == old(self).pool_start_view(),
            final(self).backend_view() == old(self).backend_view(),
            final(self).pool_view() == old(self).pool_view(),
            final(self).fence_view() == old(self).fence_view(),
    {
        let counter = self.next_assigned_consumer_id;
        self.next_assigned_consumer_id = counter.wrapping_add(1);
        let consumer_id = counter | 0x8000_0000_0000_0000u64;
        assert(counter | 0x8000_0000_0000_0000u64 != 0) by (bit_vector);
        consumer_id
    }

    /// A producer whose page changed only in its consumer table keeps its
    /// invariant.
    proof fn lemma_consumer_table_frame(before: Self, after: Self)
        requires
            before.wf(),
            after.page.wf(),
            after.page.layout_view() == before.page.layout_view(),
            after.page.header_view() == before.page.header_view(),
            after.page.slots_view() == before.page.slots_view(),
            after.params == before.params,
            after.pool_slot_count == before.pool_slot_count,
            after.slot_cursors == before.slot_cursors,
            after.next_slot_hint == before.next_slot_hint,
            after.last_cursor == before.last_cursor,
            after.pool_start == before.pool_start,
        ensures
            after.wf(),
    {
        assert forall|cursor: u64|
            #![trigger after.page.slots_view()[after.page.slot_index(cursor)]]
            after.page.is_live(cursor) && cursor >= after.pool_start@ implies {
                let slot = after.page.slots_view()[after.page.slot_index(cursor)].slot_id;
                &&& slot < after.pool_slot_count
                &&& after.slot_cursors@[slot as int] == cursor
            } by {
            assert(before.page.slots_view()[before.page.slot_index(cursor)] == after.page.slots_view()[after.page.slot_index(
                cursor,
            )]);
        }
    }

    /// Register `consumer_id` and assemble the one-time attach grant: the
    /// ring image, the pool's surface handles and the fence handle.
    pub fn grant_attach(&mut self, consumer_id: u64) -> (grant: CaptureResult<AttachGrant<B::SurfaceHandle, B::SyncHandle>>)
        requires
            old(self).wf(),
        ensures
            final(self).wf(),
            old(self).spec_counters_unchanged(final(self)),
            final(self).slot_cursors_view() == old(self).slot_cursors_view(),
            final(self).last_cursor_view() == old(self).last_cursor_view(),
            final(self).next_slot_hint_view() == old(self).next_slot_hint_view(),
            final(self).params_view() == old(self).params_view(),
            final(self).pool_slot_count_view() == old(self).pool_slot_count_view(),
            final(self).policy_view() == old(self).policy_view(),
            final(self).next_assigned_consumer_id_view() == old(self).next_assigned_consumer_id_view(),
            final(self).page_view().header_view() == old(self).page_view().header_view(),
            final(self).page_view().slots_view() == old(self).page_view().slots_view(),
            final(self).page_view().configs_view() == old(self).page_view().configs_view(),
            consumer_id == 0 ==> (grant matches Err(error) && spec_is_page_error(error, "consumer id must be non-zero"@)),
            consumer_id != 0 && !spec_has_id(old(self).page_view().consumers_view(), consumer_id) && !spec_has_id(
                old(self).page_view().consumers_view(),
                0,
            ) ==> (grant matches Err(error) && spec_is_page_error(error, "consumer cursor table is full"@)),
            spec_consumers_registered(
                old(self).page_view().consumers_view(),
                consumer_id,
                final(self).page_view().consumers_view(),
            ),
            grant matches Ok(grant) ==> spec_grant_describes(*old(self), *final(self), consumer_id, grant),
            final(self).backend_view() == old(self).backend_view(),
            final(self).pool_view() == old(self).pool_view(),
            final(self).fence_view() == old(self).fence_view(),
            grant matches Err(error) ==> spec_grant_failed(*old(self), consumer_id, error),
    {
        let ghost before = *self;
        let registered = self.page.register_consumer_cursor(consumer_id);
        proof {
            Self::lemma_consumer_table_frame(before, *self);
        }
        let consumer_slot = match registered {
            Ok(slot) => slot,
            Err(error) => return Err(error),
        };
        let ring_image = self.page.image();
        let ring_map_len = self.page.mapped_len() as u64;
        let pool_id = self.backend.pool_id(&self.pool);
        let surface_handles = match self.backend.export_surface_handles(&self.pool) {
            Ok(handles) => handles,
            Err(error) => return Err(error),
        };
        let fence_id = self.backend.fence_id(&self.fence);
        let sync_handle = match self.backend.export_sync_handle(&self.fence) {
            Ok(handle) => handle,
            Err(error) => return Err(error),
        };
        Ok(
            AttachGrant {
                consumer_id,
                consumer_slot: consumer_slot as u64,
                ring_image,
                ring_map_len,
                pool_id,
                pool_slot_count: self.pool_slot_count,
                surface_handles,
                fence_id,
                sync_handle,
            },
        )
    }

    /// Export the active pool without registering a consumer, for attaches
    /// that follow a reconfiguration.
    pub fn export_current_pool(&self) -> (exported: CaptureResult<AttachPool<B::SurfaceHandle>>)
        ensures
            self.backend_view().spec_export_surfaces_step(self.pool_view(), spec_pool_handles(exported)),
            exported matches Ok(exported) ==> {
                &&& exported.pool_id == self.backend_view().spec_pool_id(self.pool_view())
                &&& exported.pool_slot_count == self.pool_slot_count_view()
            },
    {
        let pool_id = self.backend.pool_id(&self.pool);
        let surface_handles = match self.backend.export_surface_handles(&self.pool) {
            Ok(handles) => handles,
            Err(error) => return Err(error),
        };
        Ok(AttachPool { pool_id, pool_slot_count: self.pool_slot_count, surface_handles })
    }

    /// The control page's byte image, as a consumer maps it.
    pub fn control_page_image(&self) -> (image: Vec<u8>)
        requires
            self.wf(),
        ensures
            image@ == self.page_view().spec_image(),
    {
        self.page.image()
    }

    pub fn control_page_len(&self) -> (len: usize)
        ensures
            len == self.page_view().mapped_len_view(),
    {
        self.page.mapped_len()
    }

    /// The fence handle a consumer resolves on its side of the setup channel.
    pub fn export_sync_handle(&self) -> (handle: CaptureResult<B::SyncHandle>)
        ensures
            self.backend_view().spec_export_sync_step(self.fence_view(), handle),
    {
        self.backend.export_sync_handle(&self.fence)
    }

    pub fn control_page(&self) -> (page: &VideoTrackControlPage)
        ensures
            *page == self.page_view(),
    {
        &self.page
    }

    pub fn backend(&self) -> (backend: &B)
        ensures
            *backend == self.backend_view(),
    {
        &self.backend
    }

    /// The backend, for what only it can do (such as consumer-side holds
    /// on a test backend); the stream state is untouched.
    pub fn backend_mut(&mut self) -> (backend: &mut B)
        requires
            old(self).wf(),
        ensures
            *backend == old(self).backend_view(),
            final(self).wf(),
            final(self).backend_view() == *final(backend),
            old(self).spec_stream_unchanged(final(self)),
            final(self).pool_view() == old(self).pool_view(),
            final(self).fence_view() == old(self).fence_view(),
    {
        &mut self.backend
    }
}

/// Law: reading back the cursor a publish returned gives the frame just
/// published: its sequence, timeline value, pool slot and drop accounting,
/// merged with the stream's parameters. A native frame names a surface, so it
/// carries no payload bytes and no stride, syncs on the native timeline (code
/// 3), and is always a full-frame update (damage code 1).
pub proof fn law_publish_then_read<B: NativeFrameBackend>(
    old: NativeTrackProducer<B>,
    new: NativeTrackProducer<B>,
    timestamp_ns: u64,
    slot: u32,
    cursor: u64,
)
    requires
        old.wf(),
        old.spec_publish_fits(),
        spec_published(old, new, timestamp_ns, slot, cursor),
    ensures
        new.page_view().spec_read_entry(cursor) matches Ok(entry) && {
            &&& entry.cursor == cursor
            &&& cursor == old.last_cursor_view() + 1
            &&& entry.sequence == new.sequence_view()
            &&& entry.timestamp_ns == timestamp_ns
            &&& entry.fence_value == new.fence_value_view()
            &&& entry.fence_id == old.backend_view().spec_fence_id(old.fence_view())
            &&& entry.pool_id == old.backend_view().spec_pool_id(old.pool_view())
            &&& entry.slot_id == slot
            &&& entry.dropped_before_publish == old.pending_dropped_view()
            &&& entry.producer_drop_count == old.producer_drop_count_view()
            &&& entry.width == old.params_view().width
            &&& entry.height == old.params_view().height
            &&& entry.pixel_format == spec_pixel_format_code(old.params_view().pixel_format)
            &&& entry.payload_len == 0
            &&& entry.payload_offset == 0
            &&& entry.stride == 0
            &&& entry.damage_kind == 1
            &&& entry.damage_base_sequence == new.sequence_view()
            &&& entry.sync_kind == 3
            &&& entry.modifier == old.params_view().modifier
            &&& entry.flags == 0
            &&& entry.clock_domain == spec_clock_domain_code(old.params_view().clock_domain)
            &&& entry.color_space == spec_color_space_code(old.params_view().color_space)
            &&& entry.payload_kind == spec_payload_kind_code(old.backend_view().spec_payload_kind())
        },
{
    let entry = spec_native_entry(
        old.params_view(),
        new.sequence_view(),
        timestamp_ns,
        old.backend_view().spec_pool_id(old.pool_view()),
        slot,
        old.pending_dropped_view(),
        old.producer_drop_count_view(),
        old.backend_view().spec_payload_kind(),
        old.backend_view().spec_fence_id(old.fence_view()),
        new.fence_value_view(),
    );
    old.lemma_wf_page();
    crate::control_page::law_push_then_read(old.page_view(), entry, new.page_view(), cursor);
    crate::control_page::law_push_reads_back_pushed_values(old.page_view(), entry, new.page_view(), cursor);
}

/// Law: frames dropped for want of a surface are reported by the next frame
/// that is published, in its `dropped_before_publish` and in the running
/// drop count, and the report is then cleared so it is made once.
pub proof fn law_drops_reach_next_publish<B: NativeFrameBackend>(
    first: NativeTrackProducer<B>,
    dropped: NativeTrackProducer<B>,
    published: NativeTrackProducer<B>,
    timestamp_ns: u64,
    slot: u32,
    cursor: u64,
)
    requires
        first.wf(),
        first.spec_publish_fits(),
        dropped.wf(),
        spec_dropped(first, dropped),
        spec_published(dropped, published, timestamp_ns, slot, cursor),
    ensures
        published.page_view().spec_read_entry(cursor) matches Ok(entry) && {
            &&& entry.dropped_before_publish == spec_saturating_inc32(first.pending_dropped_view())
            &&& entry.producer_drop_count == spec_saturating_inc(first.producer_drop_count_view())
            &&& entry.sequence == spec_saturating_inc(spec_saturating_inc(first.sequence_view()))
        },
        published.pending_dropped_view() == 0,
        published.producer_drop_count_view() == spec_saturating_inc(first.producer_drop_count_view()),
{
    law_publish_then_read(dropped, published, timestamp_ns, slot, cursor);
}

/// `value + count`, saturating at `bound`.
pub open spec fn spec_saturating_add(value: int, count: int, bound: int) -> int {
    if value + count > bound {
        bound
    } else {
        value + count
    }
}

/// Law: over a run of drops, the drop accounting grows by one per drop,
/// saturating, and the frame published next reports all of them, in its
/// `dropped_before_publish` and its running drop count.
pub proof fn law_dropped_run_reaches_next_publish<B: NativeFrameBackend>(
    states: Seq<NativeTrackProducer<B>>,
    published: NativeTrackProducer<B>,
    timestamp_ns: u64,
    slot: u32,
    cursor: u64,
)
    requires
        states.len() >= 1,
        forall|i: int| 0 <= i < states.len() - 1 ==> #[trigger] spec_dropped(states[i], states[i + 1]),
        states.last().wf(),
        states.last().spec_publish_fits(),
        spec_published(states.last(), published, timestamp_ns, slot, cursor),
    ensures
        published.page_view().spec_read_entry(cursor) matches Ok(entry) && {
            &&& entry.dropped_before_publish == spec_saturating_add(
                states[0].pending_dropped_view() as int,
                states.len() - 1,
                u32::MAX as int,
            )
            &&& entry.producer_drop_count == spec_saturating_add(
                states[0].producer_drop_count_view() as int,
                states.len() - 1,
                u64::MAX as int,
            )
        },
        published.pending_dropped_view() == 0,
{
    lemma_dropped_run_counts(states);
    law_publish_then_read(states.last(), published, timestamp_ns, slot, cursor);
}

proof fn lemma_dropped_run_counts<B: NativeFrameBackend>(states: Seq<NativeTrackProducer<B>>)
    requires
        states.len() >= 1,
        forall|i: int| 0 <= i < states.len() - 1 ==> #[trigger] spec_dropped(states[i], states[i + 1]),
    ensures
        states.last().pending_dropped_view() == spec_saturating_add(
            states[0].pending_dropped_view() as int,
            states.len() - 1,
            u32::MAX as int,
        ),
        states.last().producer_drop_count_view() == spec_saturating_add(
            states[0].producer_drop_count_view() as int,
            states.len() - 1,
            u64::MAX as int,
        ),
    decreases states.len(),
{
    if states.len() > 1 {
        let shorter = states.drop_last();
        assert forall|i: int| 0 <= i < shorter.len() - 1 implies #[trigger] spec_dropped(shorter[i], shorter[i + 1]) by {
            assert(spec_dropped(states[i], states[i + 1]));
        }
        lemma_dropped_run_counts(shorter);
        let k = states.len() - 2;
        assert(spec_dropped(states[k], states[k + 1]));
    }
}

impl<B: NativeFrameBackend> NativeTrackProducer<B> {
    proof fn lemma_wf_page(&self)
        requires
            self.wf(),
        ensures
            self.page_view().wf(),
    {
    }
}

/// `count` zero cursors.
fn zeroed_cursors(count: u32) -> (cursors: Vec<u64>)
    ensures
        cursors@ == Seq::new(count as nat, |i: int| 0u64),
{
    let mut cursors: Vec<u64> = Vec::new();
    let mut index: u32 = 0;
    while index < count
        invariant
            index <= count,
            cursors@ == Seq::new(index as nat, |i: int| 0u64),
        decreases count - index,
    {
        cursors.push(0);
        index = index + 1;
        proof {
            assert(cursors@ =~= Seq::new(index as nat, |i: int| 0u64));
        }
    }
    cursors
}

} // verus!
