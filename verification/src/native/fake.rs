//! An OS-free native backend for tests. The registry stands in for the
//! kernel's surface and fence namespaces: the backend registers objects there,
//! and a consumer resolves the ids it read from ring slots against it, the way
//! a real consumer resolves an IOSurface or waits on a shared event.
//! Consumer-side surface holds are modelled by `hold_surface`.

use vstd::bytes::*;
use vstd::prelude::*;
use vstd::string::*;

use crate::error::{CaptureTransferError, Result as CaptureResult};
use crate::model::PayloadKind;
use crate::native::{
    spec_publish_calls, spec_publish_completed, NativeFrameBackend, NativeStreamParams, NativeTrackProducer, SlotClaim,
    SlotReuseCandidate,
};
use crate::text::{decimal_string, spec_decimal};

verus! {

/// The "OS" namespace surfaces and fences live in. Pool `p` (ids count from
/// 1) owns `pools[p - 1].1` consecutive surfaces starting at `pools[p - 1].0`;
/// fence `f` holds timeline value `fences[f - 1]`.
#[derive(Debug)]
pub struct FakeSurfaceRegistry {
    pools: Vec<(usize, u32)>,
    surfaces: Vec<Vec<u8>>,
    use_counts: Vec<u32>,
    fences: Vec<u64>,
}

impl Default for FakeSurfaceRegistry {
    /// A registry with no pools and no fences.
    fn default() -> (registry: Self)
        ensures
            registry.wf(),
            registry.pool_count() == 0,
            registry.fence_count() == 0,
    {
        FakeSurfaceRegistry { pools: Vec::new(), surfaces: Vec::new(), use_counts: Vec::new(), fences: Vec::new() }
    }
}

impl FakeSurfaceRegistry {
    pub closed spec fn wf(&self) -> bool {
        &&& self.surfaces@.len() == self.use_counts@.len()
        &&& self.pools@.len() < u64::MAX
        &&& self.fences@.len() < u64::MAX
        &&& forall|i: int|
            0 <= i < self.pools@.len() ==> (#[trigger] self.pools@[i]).0 + self.pools@[i].1 <= self.surfaces@.len()
        &&& forall|i: int, j: int|
            0 <= i < j < self.pools@.len() ==> (#[trigger] self.pools@[i]).0 + self.pools@[i].1 <= (
            #[trigger] self.pools@[j]).0
    }

    /// Number of pools registered so far.
    pub closed spec fn pool_count(&self) -> nat {
        self.pools@.len()
    }

    /// Number of fences registered so far.
    pub closed spec fn fence_count(&self) -> nat {
        self.fences@.len()
    }

    /// Number of surfaces over all pools registered so far.
    pub closed spec fn surface_count(&self) -> nat {
        self.surfaces@.len()
    }

    /// No pool of `slot_count` surfaces can be registered any more: pool ids
    /// or surface indices would run out.
    pub open spec fn spec_pool_space_exhausted(&self, slot_count: u32) -> bool {
        ||| self.pool_count() >= 0xffff_ffff_ffff_fffe
        ||| slot_count + self.surface_count() > usize::MAX
    }

    /// No fence can be registered any more: fence ids would run out.
    pub open spec fn spec_fence_space_exhausted(&self) -> bool {
        self.fence_count() >= 0xffff_ffff_ffff_fffe
    }

    /// The slot count of pool `pool_id`, if it exists.
    pub closed spec fn pool_len(&self, pool_id: u64) -> Option<u32> {
        if 1 <= pool_id <= self.pools@.len() {
            Some(self.pools@[pool_id - 1].1)
        } else {
            None
        }
    }

    /// The index of surface `slot_id` of pool `pool_id` among all surfaces.
    closed spec fn surface_index(&self, pool_id: u64, slot_id: u32) -> int {
        self.pools@[pool_id - 1].0 + slot_id
    }

    /// The bytes of surface `slot_id` of pool `pool_id`, if it exists.
    pub closed spec fn surface(&self, pool_id: u64, slot_id: u32) -> Option<Seq<u8>> {
        match self.pool_len(pool_id) {
            Some(len) => if slot_id < len {
                Some(self.surfaces@[self.surface_index(pool_id, slot_id)]@)
            } else {
                None
            },
            None => None,
        }
    }

    /// The consumer hold count of surface `slot_id` of pool `pool_id`.
    pub closed spec fn use_count(&self, pool_id: u64, slot_id: u32) -> Option<u32> {
        match self.pool_len(pool_id) {
            Some(len) => if slot_id < len {
                Some(self.use_counts@[self.surface_index(pool_id, slot_id)])
            } else {
                None
            },
            None => None,
        }
    }

    /// The current timeline value of fence `fence_id`, if it exists.
    pub closed spec fn fence(&self, fence_id: u64) -> Option<u64> {
        if 1 <= fence_id <= self.fences@.len() {
            Some(self.fences@[fence_id - 1])
        } else {
            None
        }
    }

    proof fn lemma_surface_index(&self, pool_id: u64, slot_id: u32)
        requires
            self.wf(),
            1 <= pool_id <= self.pools@.len(),
            slot_id < self.pools@[pool_id - 1].1,
        ensures
            0 <= self.surface_index(pool_id, slot_id) < self.surfaces@.len(),
            forall|other_pool: u64, other_slot: u32|
                #![trigger self.surface_index(other_pool, other_slot)]
                1 <= other_pool <= self.pools@.len() && other_slot < self.pools@[other_pool - 1].1 && (other_pool
                    != pool_id || other_slot != slot_id) ==> self.surface_index(other_pool, other_slot)
                    != self.surface_index(pool_id, slot_id),
    {
        assert forall|other_pool: u64, other_slot: u32|
            #![trigger self.surface_index(other_pool, other_slot)]
            1 <= other_pool <= self.pools@.len() && other_slot < self.pools@[other_pool - 1].1 && (other_pool
                != pool_id || other_slot != slot_id) implies self.surface_index(other_pool, other_slot)
            != self.surface_index(pool_id, slot_id) by {
            let a = self.pools@[other_pool - 1];
            let b = self.pools@[pool_id - 1];
        }
    }

    /// Where pool `pool_id` lives: its first surface index and slot count.
    fn pool(&self, pool_id: u64) -> (found: Option<(usize, u32)>)
        requires
            self.wf(),
        ensures
            match found {
                Some((start, len)) => {
                    &&& 1 <= pool_id <= self.pools@.len()
                    &&& self.pools@[pool_id - 1] == (start, len)
                    &&& self.pool_len(pool_id) == Some(len)
                },
                None => self.pool_len(pool_id) is None,
            },
    {
        if pool_id == 0 || pool_id > self.pools.len() as u64 {
            return None;
        }
        Some(self.pools[(pool_id - 1) as usize])
    }

    /// Consumer-side surface resolution: the bytes staged into surface
    /// `slot_id` of pool `pool_id`.
    pub fn surface_bytes(&self, pool_id: u64, slot_id: u32) -> (bytes: Option<Vec<u8>>)
        requires
            self.wf(),
        ensures
            match bytes {
                Some(bytes) => self.surface(pool_id, slot_id) == Some(bytes@),
                None => self.surface(pool_id, slot_id) is None,
            },
    {
        let (start, len) = match self.pool(pool_id) {
            Some(found) => found,
            None => return None,
        };
        if slot_id >= len {
            return None;
        }
        let total = self.surfaces.len();
        proof {
            self.lemma_surface_index(pool_id, slot_id);
        }
        Some(copy_bytes(&self.surfaces[start + slot_id as usize]))
    }

    /// Consumer-side hold of a surface (an IOSurface use count).
    pub fn hold_surface(&mut self, pool_id: u64, slot_id: u32)
        requires
            old(self).wf(),
            old(self).use_count(pool_id, slot_id) matches Some(count) && count < u32::MAX,
        ensures
            final(self).wf(),
            final(self).use_count(pool_id, slot_id) == Some((old(self).use_count(pool_id, slot_id).unwrap() + 1) as u32),
            forall|other_pool: u64, other_slot: u32|
                (other_pool != pool_id || other_slot != slot_id) ==> #[trigger] final(self).use_count(other_pool, other_slot)
                    == old(self).use_count(other_pool, other_slot),
            forall|other_pool: u64, other_slot: u32| #[trigger]
                final(self).surface(other_pool, other_slot) == old(self).surface(other_pool, other_slot),
            forall|fence_id: u64| #[trigger] final(self).fence(fence_id) == old(self).fence(fence_id),
            final(self).pool_count() == old(self).pool_count(),
            final(self).fence_count() == old(self).fence_count(),
            forall|other: u64| #[trigger] final(self).pool_len(other) == old(self).pool_len(other),
    {
        proof {
            assert(1 <= pool_id <= self.pools@.len() && slot_id < self.pools@[pool_id - 1].1);
            self.lemma_surface_index(pool_id, slot_id);
        }
        let total = self.surfaces.len();
        let pool_total = self.pools.len();
        let start = self.pools[(pool_id - 1) as usize].0;
        let index = start + slot_id as usize;
        let count = self.use_counts[index];
        self.use_counts.set(index, count + 1);
    }

    /// Consumer-side release of a surface hold.
    pub fn release_surface(&mut self, pool_id: u64, slot_id: u32)
        requires
            old(self).wf(),
            old(self).use_count(pool_id, slot_id) matches Some(count) && count > 0,
        ensures
            final(self).wf(),
            final(self).use_count(pool_id, slot_id) == Some((old(self).use_count(pool_id, slot_id).unwrap() - 1) as u32),
            forall|other_pool: u64, other_slot: u32|
                (other_pool != pool_id || other_slot != slot_id) ==> #[trigger] final(self).use_count(other_pool, other_slot)
                    == old(self).use_count(other_pool, other_slot),
            forall|other_pool: u64, other_slot: u32| #[trigger]
                final(self).surface(other_pool, other_slot) == old(self).surface(other_pool, other_slot),
            forall|fence_id: u64| #[trigger] final(self).fence(fence_id) == old(self).fence(fence_id),
            final(self).pool_count() == old(self).pool_count(),
            final(self).fence_count() == old(self).fence_count(),
            forall|other: u64| #[trigger] final(self).pool_len(other) == old(self).pool_len(other),
    {
        proof {
            assert(1 <= pool_id <= self.pools@.len() && slot_id < self.pools@[pool_id - 1].1);
            self.lemma_surface_index(pool_id, slot_id);
        }
        let total = self.surfaces.len();
        let pool_total = self.pools.len();
        let start = self.pools[(pool_id - 1) as usize].0;
        let index = start + slot_id as usize;
        let count = self.use_counts[index];
        self.use_counts.set(index, count - 1);
    }

    /// Consumer-side fence peek: the timeline's current value.
    pub fn fence_value(&self, fence_id: u64) -> (value: Option<u64>)
        requires
            self.wf(),
        ensures
            value == self.fence(fence_id),
    {
        if fence_id == 0 || fence_id > self.fences.len() as u64 {
            return None;
        }
        Some(self.fences[(fence_id - 1) as usize])
    }
}

impl FakeSurfaceRegistry {
    /// The registry after `other` only in pools, surfaces and hold counts:
    /// every fence is as in `other`.
    pub open spec fn spec_fences_as(&self, other: &Self) -> bool {
        &&& self.fence_count() == other.fence_count()
        &&& forall|fence_id: u64| #[trigger] self.fence(fence_id) == other.fence(fence_id)
    }

    /// Every pool, surface and hold count is as in `other`.
    pub open spec fn spec_surfaces_as(&self, other: &Self) -> bool {
        &&& self.pool_count() == other.pool_count()
        &&& forall|pool_id: u64| #[trigger] self.pool_len(pool_id) == other.pool_len(pool_id)
        &&& forall|pool_id: u64, slot_id: u32| #[trigger] self.surface(pool_id, slot_id) == other.surface(pool_id, slot_id)
        &&& forall|pool_id: u64, slot_id: u32| #[trigger] self.use_count(pool_id, slot_id) == other.use_count(pool_id, slot_id)
    }

    /// Register a pool of `slot_count` empty, unheld surfaces; `None` once
    /// the id space is exhausted.
    fn add_pool(&mut self, slot_count: u32) -> (pool_id: Option<u64>)
        requires
            old(self).wf(),
        ensures
            final(self).wf(),
            final(self).spec_fences_as(old(self)),
            match pool_id {
                Some(pool_id) => spec_pool_added(*old(self), *final(self), pool_id, slot_count),
                None => *final(self) == *old(self),
            },
            pool_id is None <==> old(self).spec_pool_space_exhausted(slot_count),
    {
        if self.pools.len() as u64 >= 0xffff_ffff_ffff_fffe || slot_count as usize > usize::MAX - self.surfaces.len() {
            return None;
        }
        let ghost old_registry = *self;
        let start = self.surfaces.len();
        let mut index: u32 = 0;
        while index < slot_count
            invariant
                old_registry.wf(),
                start == old_registry.surfaces@.len(),
                start + slot_count <= usize::MAX,
                index <= slot_count,
                self.pools@ == old_registry.pools@,
                self.fences@ == old_registry.fences@,
                self.surfaces@.len() == start + index,
                self.use_counts@.len() == start + index,
                forall|k: int| 0 <= k < start ==> #[trigger] self.surfaces@[k] == old_registry.surfaces@[k],
                forall|k: int| 0 <= k < start ==> #[trigger] self.use_counts@[k] == old_registry.use_counts@[k],
                forall|k: int| start <= k < start + index ==> (#[trigger] self.surfaces@[k])@ == Seq::<u8>::empty(),
                forall|k: int| start <= k < start + index ==> #[trigger] self.use_counts@[k] == 0,
            decreases slot_count - index,
        {
            self.surfaces.push(Vec::new());
            self.use_counts.push(0);
            index = index + 1;
        }
        self.pools.push((start, slot_count));
        let pool_id = self.pools.len() as u64;
        proof {
            assert forall|other: u64, slot: u32| other != pool_id implies #[trigger] self.surface(other, slot)
                == old_registry.surface(other, slot) by {
                if 1 <= other <= old_registry.pools@.len() && slot < old_registry.pools@[other - 1].1 {
                    old_registry.lemma_surface_index(other, slot);
                }
            }
            assert forall|other: u64, slot: u32| other != pool_id implies #[trigger] self.use_count(other, slot)
                == old_registry.use_count(other, slot) by {
                if 1 <= other <= old_registry.pools@.len() && slot < old_registry.pools@[other - 1].1 {
                    old_registry.lemma_surface_index(other, slot);
                }
            }
        }
        Some(pool_id)
    }

    /// Register a fence at timeline value 0; `None` once the id space is
    /// exhausted.
    fn add_fence(&mut self) -> (fence_id: Option<u64>)
        requires
            old(self).wf(),
        ensures
            final(self).wf(),
            final(self).spec_surfaces_as(old(self)),
            match fence_id {
                Some(fence_id) => spec_fence_added(*old(self), *final(self), fence_id),
                None => *final(self) == *old(self),
            },
            fence_id is None <==> old(self).spec_fence_space_exhausted(),
    {
        if self.fences.len() as u64 >= 0xffff_ffff_ffff_fffe {
            return None;
        }
        self.fences.push(0);
        Some(self.fences.len() as u64)
    }

    /// The first candidate whose surface no consumer holds.
    fn claim_unheld(&self, pool_id: u64, candidates: &[SlotReuseCandidate]) -> (claim: CaptureResult<SlotClaim>)
        requires
            self.wf(),
        ensures
            spec_claim_outcome(*self, pool_id, candidates@, claim),
    {
        let found = self.pool(pool_id);
        let mut index: usize = 0;
        while index < candidates.len()
            invariant
                self.wf(),
                index <= candidates@.len(),
                found matches Some((start, len)) ==> 1 <= pool_id <= self.pools@.len() && self.pools@[pool_id - 1] == (start, len),
                found is None ==> self.pool_len(pool_id) is None,
                forall|j: int|
                    0 <= j < index ==> spec_is_held(self.use_count(pool_id, (#[trigger] candidates@[j]).slot_id)),
            decreases candidates@.len() - index,
        {
            let slot_id = candidates[index].slot_id;
            let (start, len) = match found {
                Some(found) => found,
                None => {
                    proof {
                        reveal_strlit("unknown surface pool");
                    }
                    return Err(backend_error("claim-reusable-slot", "unknown surface pool"));
                },
            };
            if slot_id >= len {
                return Err(backend_error("claim-reusable-slot", "slot outside the pool"));
            }
            let total = self.surfaces.len();
            proof {
                self.lemma_surface_index(pool_id, slot_id);
            }
            if self.use_counts[start + slot_id as usize] == 0 {
                return Ok(SlotClaim::Ready { slot_id });
            }
            index = index + 1;
        }
        Ok(SlotClaim::WouldBlock)
    }

    /// Copy `bytes` into surface `slot_id` of pool `pool_id`.
    fn stage(&mut self, pool_id: u64, slot_id: u32, bytes: &Vec<u8>) -> (staged: CaptureResult<()>)
        requires
            old(self).wf(),
        ensures
            final(self).wf(),
            staged is Ok <==> old(self).surface(pool_id, slot_id) is Some,
            staged is Ok ==> spec_frame_staged(*old(self), *final(self), pool_id, slot_id, bytes@),
            staged is Err ==> *final(self) == *old(self),
    {
        let (start, len) = match self.pool(pool_id) {
            Some(found) => found,
            None => return Err(backend_error("stage-frame", "unknown surface pool")),
        };
        if slot_id >= len {
            return Err(backend_error("stage-frame", "slot outside the pool"));
        }
        proof {
            self.lemma_surface_index(pool_id, slot_id);
        }
        let ghost old_registry = *self;
        let total = self.surfaces.len();
        self.surfaces.set(start + slot_id as usize, copy_bytes(bytes));
        proof {
            assert forall|other: u64, slot: u32|
                (other != pool_id || slot != slot_id) implies #[trigger] self.surface(other, slot)
                == old_registry.surface(other, slot) by {
                if 1 <= other <= old_registry.pools@.len() && slot < old_registry.pools@[other - 1].1 {
                    old_registry.lemma_surface_index(pool_id, slot_id);
                    assert(old_registry.surface_index(other, slot) != old_registry.surface_index(pool_id, slot_id));
                }
            }
        }
        Ok(())
    }

    /// Move fence `fence_id` to `value`; refused, after the store, when the
    /// value does not exceed the previous one.
    fn signal(&mut self, fence_id: u64, value: u64) -> (signaled: CaptureResult<()>)
        requires
            old(self).wf(),
        ensures
            final(self).wf(),
            spec_fence_signaled(*old(self), *final(self), fence_id, value, signaled),
    {
        if fence_id == 0 || fence_id > self.fences.len() as u64 {
            return Err(backend_error("signal-fence", "unknown fence"));
        }
        let index = (fence_id - 1) as usize;
        let previous = self.fences[index];
        self.fences.set(index, value);
        if previous >= value {
            let mut message = String::from_str("timeline values must be monotonic: ");
            let before = decimal_string(previous);
            message.append(before.as_str());
            message.append(" -> ");
            let after = decimal_string(value);
            message.append(after.as_str());
            return Err(CaptureTransferError::NativeBackend { operation: "signal-fence", message });
        }
        Ok(())
    }

    /// One handle per surface of pool `pool_id`: the pool id and slot id,
    /// little-endian.
    fn surface_handles(&self, pool_id: u64) -> (handles: CaptureResult<Vec<Vec<u8>>>)
        requires
            self.wf(),
        ensures
            handles is Ok <==> self.pool_len(pool_id) is Some,
            handles matches Ok(handles) ==> {
                &&& handles@.len() == self.pool_len(pool_id).unwrap()
                &&& forall|i: int| 0 <= i < handles@.len() ==> (#[trigger] handles@[i])@ == spec_surface_handle(pool_id, i as u32)
            },
    {
        let (start, len) = match self.pool(pool_id) {
            Some(found) => found,
            None => return Err(backend_error("export-surface-handles", "unknown surface pool")),
        };
        let mut handles: Vec<Vec<u8>> = Vec::new();
        let mut slot_id: u32 = 0;
        while slot_id < len
            invariant
                slot_id <= len,
                handles@.len() == slot_id,
                forall|i: int| 0 <= i < slot_id ==> (#[trigger] handles@[i])@ == spec_surface_handle(pool_id, i as u32),
            decreases len - slot_id,
        {
            let mut handle = u64_to_le_bytes(pool_id);
            let mut slot_bytes = u32_to_le_bytes(slot_id);
            handle.append(&mut slot_bytes);
            handles.push(handle);
            slot_id = slot_id + 1;
        }
        Ok(handles)
    }
}

/// `after` is `before` with pool `pool_id` of `slot_count` empty, unheld
/// surfaces registered; nothing else changed.
pub open spec fn spec_pool_added(before: FakeSurfaceRegistry, after: FakeSurfaceRegistry, pool_id: u64, slot_count: u32) -> bool {
    &&& after.wf()
    &&& after.spec_fences_as(&before)
    &&& pool_id == before.pool_count() + 1
    &&& after.pool_count() == pool_id
    &&& after.pool_len(pool_id) == Some(slot_count)
    &&& forall|slot: u32|
        slot < slot_count ==> #[trigger] after.surface(pool_id, slot) == Some(Seq::<u8>::empty()) && after.use_count(
            pool_id,
            slot,
        ) == Some(0u32)
    &&& forall|other: u64| other != pool_id ==> #[trigger] after.pool_len(other) == before.pool_len(other)
    &&& forall|other: u64, slot: u32|
        other != pool_id ==> #[trigger] after.surface(other, slot) == before.surface(other, slot)
    &&& forall|other: u64, slot: u32|
        other != pool_id ==> #[trigger] after.use_count(other, slot) == before.use_count(other, slot)
}

/// `after` is `before` with fence `fence_id` registered at timeline value 0;
/// nothing else changed.
pub open spec fn spec_fence_added(before: FakeSurfaceRegistry, after: FakeSurfaceRegistry, fence_id: u64) -> bool {
    &&& after.wf()
    &&& after.spec_surfaces_as(&before)
    &&& fence_id == before.fence_count() + 1
    &&& after.fence_count() == fence_id
    &&& after.fence(fence_id) == Some(0u64)
    &&& forall|other: u64| other != fence_id ==> #[trigger] after.fence(other) == before.fence(other)
}

/// The answer to a claim of the first unheld surface among `candidates` of
/// pool `pool_id`: `Ready` names the first candidate no consumer holds,
/// `WouldBlock` means every candidate is held, and an error names a candidate
/// that is not a surface of the pool, reached before any unheld one.
pub open spec fn spec_claim_outcome(
    registry: FakeSurfaceRegistry,
    pool_id: u64,
    candidates: Seq<SlotReuseCandidate>,
    claim: CaptureResult<SlotClaim>,
) -> bool {
    match claim {
        Ok(SlotClaim::Ready { slot_id }) => exists|i: int|
            0 <= i < candidates.len() && (#[trigger] candidates[i]).slot_id == slot_id && registry.use_count(
                pool_id,
                slot_id,
            ) == Some(0u32) && forall|j: int| 0 <= j < i ==> spec_is_held(registry.use_count(pool_id, candidates[j].slot_id)),
        Ok(SlotClaim::WouldBlock) => forall|i: int|
            0 <= i < candidates.len() ==> spec_is_held(registry.use_count(pool_id, (#[trigger] candidates[i]).slot_id)),
        Err(error) => {
            &&& error matches CaptureTransferError::NativeBackend { operation, .. }
            &&& operation@ == "claim-reusable-slot"@
            &&& exists|i: int|
                0 <= i < candidates.len() && registry.use_count(pool_id, (#[trigger] candidates[i]).slot_id) is None
                    && forall|j: int| 0 <= j < i ==> spec_is_held(registry.use_count(pool_id, candidates[j].slot_id))
        },
    }
}

/// `after` is `before` with `bytes` copied into surface `slot_id` of pool
/// `pool_id`; nothing else changed.
pub open spec fn spec_frame_staged(
    before: FakeSurfaceRegistry,
    after: FakeSurfaceRegistry,
    pool_id: u64,
    slot_id: u32,
    bytes: Seq<u8>,
) -> bool {
    &&& after.wf()
    &&& after.spec_fences_as(&before)
    &&& after.surface(pool_id, slot_id) == Some(bytes)
    &&& after.pool_count() == before.pool_count()
    &&& forall|other: u64| #[trigger] after.pool_len(other) == before.pool_len(other)
    &&& forall|other: u64, slot: u32|
        (other != pool_id || slot != slot_id) ==> #[trigger] after.surface(other, slot) == before.surface(other, slot)
    &&& forall|other: u64, slot: u32| #[trigger] after.use_count(other, slot) == before.use_count(other, slot)
}

/// `after` is `before` once fence `fence_id` was moved to `value`, with
/// `signaled` the answer: refused, after the store, when `value` does not
/// exceed the previous value, and refused with no change for an unknown
/// fence.
pub open spec fn spec_fence_signaled(
    before: FakeSurfaceRegistry,
    after: FakeSurfaceRegistry,
    fence_id: u64,
    value: u64,
    signaled: CaptureResult<()>,
) -> bool {
    &&& after.wf()
    &&& after.spec_surfaces_as(&before)
    &&& after.fence_count() == before.fence_count()
    &&& forall|other: u64| other != fence_id ==> #[trigger] after.fence(other) == before.fence(other)
    &&& match before.fence(fence_id) {
        Some(previous) => {
            &&& after.fence(fence_id) == Some(value)
            &&& if previous < value {
                signaled is Ok
            } else {
                signaled matches Err(CaptureTransferError::NativeBackend { operation, message })
                    && operation@ == "signal-fence"@ && message@ == spec_monotonic_message(previous, value)
            }
        },
        None => signaled is Err && after == before,
    }
}

/// Some consumer holds the surface whose hold count is `count`.
pub open spec fn spec_is_held(count: Option<u32>) -> bool {
    match count {
        Some(count) => count > 0,
        None => false,
    }
}

/// A copy of `bytes`.
fn copy_bytes(bytes: &Vec<u8>) -> (copy: Vec<u8>)
    ensures
        copy@ == bytes@,
{
    let mut copy: Vec<u8> = Vec::new();
    let mut index: usize = 0;
    while index < bytes.len()
        invariant
            index <= bytes@.len(),
            copy@ == bytes@.subrange(0, index as int),
        decreases bytes@.len() - index,
    {
        copy.push(bytes[index]);
        index = index + 1;
        proof {
            assert(copy@ =~= bytes@.subrange(0, index as int));
        }
    }
    proof {
        assert(bytes@.subrange(0, index as int) =~= bytes@);
    }
    copy
}


/// A backend whose surfaces and fences live in its own registry.
#[derive(Debug)]
pub struct FakeNativeBackend {
    registry: FakeSurfaceRegistry,
}

impl FakeNativeBackend {
    #[verifier::type_invariant]
    spec fn inv(self) -> bool {
        self.registry.wf()
    }

    pub closed spec fn registry_view(&self) -> FakeSurfaceRegistry {
        self.registry
    }

    pub fn new(registry: FakeSurfaceRegistry) -> (backend: Self)
        requires
            registry.wf(),
        ensures
            backend.registry_view() == registry,
    {
        FakeNativeBackend { registry }
    }

    /// The namespace a consumer resolves ids against.
    pub fn registry(&self) -> (registry: &FakeSurfaceRegistry)
        ensures
            *registry == self.registry_view(),
            registry.wf(),
    {
        proof {
            use_type_invariant(self);
        }
        &self.registry
    }

    /// A consumer acquires surface `slot_id` of pool `pool_id`.
    pub fn hold_surface(&mut self, pool_id: u64, slot_id: u32)
        requires
            old(self).registry_view().use_count(pool_id, slot_id) matches Some(count) && count < u32::MAX,
        ensures
            final(self).registry_view().use_count(pool_id, slot_id) == Some(
                (old(self).registry_view().use_count(pool_id, slot_id).unwrap() + 1) as u32,
            ),
            forall|other_pool: u64, other_slot: u32|
                (other_pool != pool_id || other_slot != slot_id) ==> #[trigger] final(self).registry_view().use_count(
                    other_pool,
                    other_slot,
                ) == old(self).registry_view().use_count(other_pool, other_slot),
            final(self).registry_view().spec_fences_as(&old(self).registry_view()),
            forall|other: u64| #[trigger] final(self).registry_view().pool_len(other) == old(self).registry_view().pool_len(other),
    {
        proof {
            use_type_invariant(&*self);
        }
        let mut registry = FakeSurfaceRegistry::default();
        std::mem::swap(&mut registry, &mut self.registry);
        registry.hold_surface(pool_id, slot_id);
        self.registry = registry;
    }

    /// A consumer releases its hold on surface `slot_id` of pool `pool_id`.
    pub fn release_surface(&mut self, pool_id: u64, slot_id: u32)
        requires
            old(self).registry_view().use_count(pool_id, slot_id) matches Some(count) && count > 0,
        ensures
            final(self).registry_view().use_count(pool_id, slot_id) == Some(
                (old(self).registry_view().use_count(pool_id, slot_id).unwrap() - 1) as u32,
            ),
            forall|other_pool: u64, other_slot: u32|
                (other_pool != pool_id || other_slot != slot_id) ==> #[trigger] final(self).registry_view().use_count(
                    other_pool,
                    other_slot,
                ) == old(self).registry_view().use_count(other_pool, other_slot),
            final(self).registry_view().spec_fences_as(&old(self).registry_view()),
            forall|other: u64| #[trigger] final(self).registry_view().pool_len(other) == old(self).registry_view().pool_len(other),
    {
        proof {
            use_type_invariant(&*self);
        }
        let mut registry = FakeSurfaceRegistry::default();
        std::mem::swap(&mut registry, &mut self.registry);
        registry.release_surface(pool_id, slot_id);
        self.registry = registry;
    }
}

/// A captured frame is just bytes here.
#[derive(Debug, Clone)]
pub struct FakeCapturedFrame {
    pub bytes: Vec<u8>,
}

/// A pool, named by its id in the registry.
#[derive(Debug)]
pub struct FakeSurfacePool {
    pool_id: u64,
}

/// A fence, named by its id in the registry.
#[derive(Debug)]
pub struct FakeFence {
    fence_id: u64,
}

impl FakeSurfacePool {
    pub closed spec fn id_view(&self) -> u64 {
        self.pool_id
    }
}

impl FakeFence {
    pub closed spec fn id_view(&self) -> u64 {
        self.fence_id
    }
}

/// The message of a fence signalled with a value not above its current one.
pub open spec fn spec_monotonic_message(previous: u64, value: u64) -> Seq<char> {
    "timeline values must be monotonic: "@ + spec_decimal(previous as nat) + " -> "@ + spec_decimal(value as nat)
}

fn backend_error(operation: &'static str, message: &str) -> (error: CaptureTransferError)
    ensures
        error matches CaptureTransferError::NativeBackend { operation: op, message: text } && op == operation
            && text@ == message@,
{
    CaptureTransferError::NativeBackend { operation, message: String::from_str(message) }
}

/// The handle of surface `slot_id` of pool `pool_id`: both ids, little-endian.
pub open spec fn spec_surface_handle(pool_id: u64, slot_id: u32) -> Seq<u8> {
    spec_u64_to_le_bytes(pool_id) + spec_u32_to_le_bytes(slot_id)
}

impl NativeFrameBackend for FakeNativeBackend {
    type CapturedFrame = FakeCapturedFrame;
    type SurfacePool = FakeSurfacePool;
    type Fence = FakeFence;
    type SurfaceHandle = Vec<u8>;
    type SyncHandle = Vec<u8>;

    open spec fn spec_payload_kind(&self) -> PayloadKind {
        PayloadKind::IoSurface
    }

    open spec fn spec_pool_id(&self, pool: FakeSurfacePool) -> u64 {
        pool.id_view()
    }

    open spec fn spec_fence_id(&self, fence: FakeFence) -> u64 {
        fence.id_view()
    }

    /// Frames carry no slot: the fake stages into its own surfaces.
    open spec fn spec_frame_slot_hint(&self, frame: FakeCapturedFrame) -> Option<u32> {
        None
    }

    open spec fn spec_allocate_step(
        &self,
        after: &Self,
        params: NativeStreamParams,
        slot_count: u32,
        pool: CaptureResult<FakeSurfacePool>,
    ) -> bool {
        &&& pool is Err <==> slot_count == 0 || self.registry_view().spec_pool_space_exhausted(slot_count)
        &&& pool is Err ==> after.registry_view() == self.registry_view()
        &&& pool matches Ok(pool) ==> spec_pool_added(self.registry_view(), after.registry_view(), pool.id_view(), slot_count)
    }

    open spec fn spec_create_fence_step(&self, after: &Self, fence: CaptureResult<FakeFence>) -> bool {
        &&& fence is Err <==> self.registry_view().spec_fence_space_exhausted()
        &&& fence is Err ==> after.registry_view() == self.registry_view()
        &&& fence matches Ok(fence) ==> spec_fence_added(self.registry_view(), after.registry_view(), fence.id_view())
    }

    open spec fn spec_claim_step(
        &self,
        after: &Self,
        pool_id: u64,
        candidates: Seq<SlotReuseCandidate>,
        claim: CaptureResult<SlotClaim>,
    ) -> bool {
        &&& after.registry_view() == self.registry_view()
        &&& spec_claim_outcome(self.registry_view(), pool_id, candidates, claim)
    }

    open spec fn spec_stage_step(
        &self,
        after: &Self,
        pool_id: u64,
        slot_id: u32,
        frame: FakeCapturedFrame,
        staged: CaptureResult<()>,
    ) -> bool {
        &&& staged is Ok <==> self.registry_view().surface(pool_id, slot_id) is Some
        &&& staged is Ok ==> spec_frame_staged(self.registry_view(), after.registry_view(), pool_id, slot_id, frame.bytes@)
        &&& staged is Err ==> after.registry_view() == self.registry_view()
    }

    open spec fn spec_export_surfaces_step(&self, pool: FakeSurfacePool, handles: CaptureResult<Vec<Vec<u8>>>) -> bool {
        &&& handles is Ok <==> self.registry_view().pool_len(pool.id_view()) is Some
        &&& handles matches Ok(handles) ==> {
            &&& handles@.len() == self.registry_view().pool_len(pool.id_view()).unwrap()
            &&& forall|i: int|
                0 <= i < handles@.len() ==> (#[trigger] handles@[i])@ == spec_surface_handle(pool.id_view(), i as u32)
        }
    }

    open spec fn spec_export_sync_step(&self, fence: FakeFence, handle: CaptureResult<Vec<u8>>) -> bool {
        handle matches Ok(handle) && handle@ == spec_u64_to_le_bytes(fence.id_view())
    }

    open spec fn spec_signal_step(&self, after: &Self, fence_id: u64, value: u64, signaled: CaptureResult<()>) -> bool {
        spec_fence_signaled(self.registry_view(), after.registry_view(), fence_id, value, signaled)
    }

    /// Surfaces resolve through a shared namespace, the way IOSurfaces do.
    fn payload_kind(&self) -> (kind: PayloadKind) {
        PayloadKind::IoSurface
    }

    fn allocate_surface_pool(&mut self, params: &NativeStreamParams, slot_count: u32) -> (pool: CaptureResult<FakeSurfacePool>)
        ensures
            pool is Err <==> slot_count == 0 || old(self).registry_view().spec_pool_space_exhausted(slot_count),
            pool is Err ==> final(self).registry_view() == old(self).registry_view(),
            slot_count == 0 ==> (pool matches Err(CaptureTransferError::NativeBackend { operation, message })
                && operation@ == "allocate-surface-pool"@ && message@ == "slot count must be non-zero"@),
            slot_count != 0 && old(self).registry_view().spec_pool_space_exhausted(slot_count) ==> (
                pool matches Err(CaptureTransferError::NativeBackend { operation, message })
                && operation@ == "allocate-surface-pool"@ && message@ == "surface namespace exhausted"@),
            pool matches Ok(pool) ==> spec_pool_added(
                old(self).registry_view(),
                final(self).registry_view(),
                pool.id_view(),
                slot_count,
            ),
    {
        proof {
            use_type_invariant(&*self);
        }
        if slot_count == 0 {
            return Err(backend_error("allocate-surface-pool", "slot count must be non-zero"));
        }
        let mut registry = FakeSurfaceRegistry::default();
        std::mem::swap(&mut registry, &mut self.registry);
        let added = registry.add_pool(slot_count);
        self.registry = registry;
        match added {
            Some(pool_id) => Ok(FakeSurfacePool { pool_id }),
            None => Err(backend_error("allocate-surface-pool", "surface namespace exhausted")),
        }
    }

    fn pool_id(&self, pool: &FakeSurfacePool) -> (id: u64) {
        pool.pool_id
    }

    fn claim_reusable_slot(&mut self, pool: &mut FakeSurfacePool, candidates: &[SlotReuseCandidate]) -> (claim:
        CaptureResult<SlotClaim>)
        ensures
            final(self).registry_view() == old(self).registry_view(),
            *final(pool) == *old(pool),
            spec_claim_outcome(old(self).registry_view(), old(pool).id_view(), candidates@, claim),
    {
        proof {
            use_type_invariant(&*self);
        }
        self.registry.claim_unheld(pool.pool_id, candidates)
    }

    fn stage_frame(&mut self, pool: &mut FakeSurfacePool, slot_id: u32, frame: &FakeCapturedFrame) -> (staged:
        CaptureResult<()>)
        ensures
            *final(pool) == *old(pool),
            staged is Ok <==> old(self).registry_view().surface(old(pool).id_view(), slot_id) is Some,
            staged is Ok ==> spec_frame_staged(
                old(self).registry_view(),
                final(self).registry_view(),
                old(pool).id_view(),
                slot_id,
                frame.bytes@,
            ),
            staged is Err ==> final(self).registry_view() == old(self).registry_view(),
    {
        proof {
            use_type_invariant(&*self);
        }
        let mut registry = FakeSurfaceRegistry::default();
        std::mem::swap(&mut registry, &mut self.registry);
        let staged = registry.stage(pool.pool_id, slot_id, &frame.bytes);
        self.registry = registry;
        staged
    }

    fn export_surface_handles(&self, pool: &FakeSurfacePool) -> (handles: CaptureResult<Vec<Vec<u8>>>)
        ensures
            handles is Ok <==> self.registry_view().pool_len(pool.id_view()) is Some,
            handles matches Ok(handles) ==> {
                &&& handles@.len() == self.registry_view().pool_len(pool.id_view()).unwrap()
                &&& forall|i: int|
                    0 <= i < handles@.len() ==> (#[trigger] handles@[i])@ == spec_surface_handle(pool.id_view(), i as u32)
            },
    {
        proof {
            use_type_invariant(self);
        }
        self.registry.surface_handles(pool.pool_id)
    }

    fn create_fence(&mut self) -> (fence: CaptureResult<FakeFence>)
        ensures
            fence is Err <==> old(self).registry_view().spec_fence_space_exhausted(),
            fence is Err ==> final(self).registry_view() == old(self).registry_view(),
            fence matches Err(error) ==> (error matches CaptureTransferError::NativeBackend { operation, message }
                && operation@ == "create-fence"@ && message@ == "fence namespace exhausted"@),
            fence matches Ok(fence) ==> spec_fence_added(old(self).registry_view(), final(self).registry_view(), fence.id_view()),
    {
        proof {
            use_type_invariant(&*self);
        }
        let mut registry = FakeSurfaceRegistry::default();
        std::mem::swap(&mut registry, &mut self.registry);
        let added = registry.add_fence();
        self.registry = registry;
        match added {
            Some(fence_id) => Ok(FakeFence { fence_id }),
            None => Err(backend_error("create-fence", "fence namespace exhausted")),
        }
    }

    fn fence_id(&self, fence: &FakeFence) -> (id: u64) {
        fence.fence_id
    }

    fn signal_fence(&mut self, fence: &mut FakeFence, value: u64) -> (signaled: CaptureResult<()>)
        ensures
            *final(fence) == *old(fence),
            spec_fence_signaled(old(self).registry_view(), final(self).registry_view(), old(fence).id_view(), value, signaled),
    {
        proof {
            use_type_invariant(&*self);
        }
        let mut registry = FakeSurfaceRegistry::default();
        std::mem::swap(&mut registry, &mut self.registry);
        let signaled = registry.signal(fence.fence_id, value);
        self.registry = registry;
        signaled
    }

    fn export_sync_handle(&self, fence: &FakeFence) -> (handle: CaptureResult<Vec<u8>>)
        ensures
            handle matches Ok(handle) && handle@ == spec_u64_to_le_bytes(fence.id_view()),
    {
        Ok(u64_to_le_bytes(fence.fence_id))
    }
}

/// The producer's pool and fence are live in its fake backend's registry:
/// the pool has the producer's slot count, and the fence stands at the
/// producer's timeline value.
pub open spec fn spec_backend_tracks_stream(producer: NativeTrackProducer<FakeNativeBackend>) -> bool {
    let registry = producer.backend_view().registry_view();
    &&& registry.pool_len(producer.pool_view().id_view()) == Some(producer.pool_slot_count_view())
    &&& registry.fence(producer.fence_view().id_view()) == Some(producer.fence_value_view())
}

/// Law: a producer built by `new` over the fake backend starts with its pool
/// and fence live in the registry.
pub proof fn law_new_tracks_stream(
    backend: FakeNativeBackend,
    allocated: FakeNativeBackend,
    params: NativeStreamParams,
    producer: NativeTrackProducer<FakeNativeBackend>,
)
    requires
        backend.spec_allocate_step(&allocated, params, producer.pool_slot_count_view(), Ok(producer.pool_view())),
        allocated.spec_create_fence_step(&producer.backend_view(), Ok(producer.fence_view())),
        producer.fence_value_view() == 0,
    ensures
        spec_backend_tracks_stream(producer),
{
}

/// Law: once the fake backend tracks the stream, a claim never fails, and a
/// claimed slot is staged and its fence signalled without failure; the
/// claimed surface was one no consumer held.
pub proof fn law_tracked_publish_goes_through(
    old: NativeTrackProducer<FakeNativeBackend>,
    frame: FakeCapturedFrame,
    claimed: FakeNativeBackend,
    claim: CaptureResult<SlotClaim>,
    staged: FakeNativeBackend,
    stage_answer: CaptureResult<()>,
    last: FakeNativeBackend,
    signaled: CaptureResult<()>,
)
    requires
        old.wf(),
        spec_backend_tracks_stream(old),
        old.fence_value_view() < u64::MAX,
        old.spec_claimed(frame, claimed, claim),
    ensures
        claim is Ok,
        claim matches Ok(SlotClaim::Ready { slot_id }) ==> {
            &&& old.backend_view().registry_view().use_count(old.pool_view().id_view(), slot_id) == Some(0u32)
            &&& claimed.spec_stage_step(&staged, old.pool_view().id_view(), slot_id, frame, stage_answer) ==> {
                &&& stage_answer is Ok
                &&& staged.spec_signal_step(
                    &last,
                    old.fence_view().id_view(),
                    (old.fence_value_view() + 1) as u64,
                    signaled,
                ) ==> signaled is Ok
            }
        },
{
    let registry = old.backend_view().registry_view();
    let pool_id = old.pool_view().id_view();
    let hint = choose|hint: Option<u32>|
        (hint is None || hint == old.backend_view().spec_frame_slot_hint(frame))
            && #[trigger] old.backend_view().spec_claim_step(&claimed, pool_id, old.spec_reuse_candidates(hint), claim);
    let candidates = old.spec_reuse_candidates(hint);
    let pred = |candidate: SlotReuseCandidate| old.spec_offerable(hint, candidate);
    assert forall|i: int| 0 <= i < candidates.len() implies registry.use_count(
        pool_id,
        (#[trigger] candidates[i]).slot_id,
    ) is Some by {
        assert(candidates.contains(candidates[i]));
        old.spec_rotation().lemma_filter_contains_rev(pred, candidates[i]);
        let k = choose|k: int| 0 <= k < old.spec_rotation().len() && old.spec_rotation()[k] == candidates[i];
        assert(old.spec_rotation()[k].slot_id < old.pool_slot_count_view());
    }
}

/// Law: switching to a pool the fake backend allocated keeps it tracking the
/// stream: the fence stays where it was.
pub proof fn law_reconfigure_keeps_tracking(
    old: NativeTrackProducer<FakeNativeBackend>,
    new: NativeTrackProducer<FakeNativeBackend>,
    params: NativeStreamParams,
)
    requires
        spec_backend_tracks_stream(old),
        old.backend_view().spec_allocate_step(
            &new.backend_view(),
            params,
            new.pool_slot_count_view(),
            Ok(new.pool_view()),
        ),
        new.fence_view() == old.fence_view(),
        new.fence_value_view() == old.fence_value_view(),
    ensures
        spec_backend_tracks_stream(new),
{
}

/// Law: while the fake backend tracks the stream, the pool it exports has
/// one handle per pool slot, the handle of slot `i` at index `i`.
pub proof fn law_tracked_export_has_one_handle_per_slot(
    producer: NativeTrackProducer<FakeNativeBackend>,
    handles: Vec<Vec<u8>>,
)
    requires
        spec_backend_tracks_stream(producer),
        producer.backend_view().spec_export_surfaces_step(producer.pool_view(), Ok(handles)),
    ensures
        handles@.len() == producer.pool_slot_count_view(),
        forall|i: int|
            0 <= i < handles@.len() ==> (#[trigger] handles@[i])@ == spec_surface_handle(
                producer.pool_view().id_view(),
                i as u32,
            ),
{
}

/// A filter that keeps every element keeps the sequence.
proof fn lemma_filter_keeps_all<A>(s: Seq<A>, pred: spec_fn(A) -> bool)
    requires
        forall|i: int| 0 <= i < s.len() ==> pred(#[trigger] s[i]),
    ensures
        s.filter(pred) == s,
    decreases s.len(),
{
    reveal(Seq::filter);
    if s.len() > 0 {
        lemma_filter_keeps_all(s.drop_last(), pred);
        assert(s.drop_last().push(s.last()) =~= s);
    }
}

/// Law: after switching to a fresh pool the fake backend allocated, the
/// backend still tracks the stream, and the next publish claims slot 0 of
/// the new pool.
pub proof fn law_publish_after_reconfigure_claims_slot_zero(
    old: NativeTrackProducer<FakeNativeBackend>,
    mid: NativeTrackProducer<FakeNativeBackend>,
    params: NativeStreamParams,
    frame: FakeCapturedFrame,
    claimed: FakeNativeBackend,
    claim: CaptureResult<SlotClaim>,
)
    requires
        spec_backend_tracks_stream(old),
        mid.wf(),
        old.backend_view().spec_allocate_step(
            &mid.backend_view(),
            params,
            mid.pool_slot_count_view(),
            Ok(mid.pool_view()),
        ),
        mid.fence_view() == old.fence_view(),
        mid.fence_value_view() == old.fence_value_view(),
        mid.slot_cursors_view() == Seq::new(mid.pool_slot_count_view() as nat, |i: int| 0u64),
        mid.next_slot_hint_view() == 0,
        mid.spec_claimed(frame, claimed, claim),
    ensures
        spec_backend_tracks_stream(mid),
        claim == Ok::<SlotClaim, CaptureTransferError>(SlotClaim::Ready { slot_id: 0 }),
{
    law_reconfigure_keeps_tracking(old, mid, params);
    let registry = mid.backend_view().registry_view();
    let pool_id = mid.pool_view().id_view();
    let hint = choose|hint: Option<u32>|
        (hint is None || hint == mid.backend_view().spec_frame_slot_hint(frame))
            && #[trigger] mid.backend_view().spec_claim_step(&claimed, pool_id, mid.spec_reuse_candidates(hint), claim);
    assert(hint is None);
    let rotation = mid.spec_rotation();
    let pred = |candidate: SlotReuseCandidate| mid.spec_offerable(hint, candidate);
    assert forall|i: int| 0 <= i < rotation.len() implies pred(#[trigger] rotation[i]) by {
        let slot = ((mid.next_slot_hint_view() + i) % (mid.pool_slot_count_view() as int)) as u32;
        assert(rotation[i].last_cursor == mid.slot_cursors_view()[slot as int]);
    }
    lemma_filter_keeps_all(rotation, pred);
    let candidates = mid.spec_reuse_candidates(hint);
    assert(candidates == rotation);
    assert(candidates.len() > 0);
    assert(candidates[0].slot_id == 0);
    assert(registry.surface(pool_id, 0) == Some(Seq::<u8>::empty()));
    assert forall|i: int| 0 <= i < candidates.len() implies registry.use_count(
        pool_id,
        (#[trigger] candidates[i]).slot_id,
    ) == Some(0u32) by {
        let slot = ((mid.next_slot_hint_view() + i) % (mid.pool_slot_count_view() as int)) as u32;
        assert(candidates[i].slot_id == slot);
        assert(registry.surface(pool_id, slot) == Some(Seq::<u8>::empty()));
    }
    match claim {
        Ok(SlotClaim::Ready { slot_id }) => {
            let i = choose|i: int|
                0 <= i < candidates.len() && (#[trigger] candidates[i]).slot_id == slot_id && registry.use_count(
                    pool_id,
                    slot_id,
                ) == Some(0u32) && forall|j: int|
                    0 <= j < i ==> spec_is_held(registry.use_count(pool_id, candidates[j].slot_id));
            if i > 0 {
                assert(spec_is_held(registry.use_count(pool_id, candidates[0].slot_id)));
            }
        },
        Ok(SlotClaim::WouldBlock) => {
            assert(spec_is_held(registry.use_count(pool_id, candidates[0].slot_id)));
        },
        Err(_) => {
            let i = choose|i: int|
                0 <= i < candidates.len() && registry.use_count(pool_id, (#[trigger] candidates[i]).slot_id) is None
                    && forall|j: int| 0 <= j < i ==> spec_is_held(registry.use_count(pool_id, candidates[j].slot_id));
        },
    }
}

/// Law: a publish through the fake backend that went through, or dropped
/// its frame, leaves the backend tracking the stream.
pub proof fn law_publish_keeps_tracking(
    old: NativeTrackProducer<FakeNativeBackend>,
    new: NativeTrackProducer<FakeNativeBackend>,
    frame: FakeCapturedFrame,
    slot: u32,
)
    requires
        spec_backend_tracks_stream(old),
        new.pool_view().id_view() == old.pool_view().id_view(),
        new.fence_view().id_view() == old.fence_view().id_view(),
        new.pool_slot_count_view() == old.pool_slot_count_view(),
        spec_publish_completed(old, frame, new.backend_view(), slot, new.fence_value_view()) || (old.spec_claimed(
            frame,
            new.backend_view(),
            Ok(SlotClaim::WouldBlock),
        ) && new.fence_value_view() == old.fence_value_view()),
    ensures
        spec_backend_tracks_stream(new),
{
    if spec_publish_completed(old, frame, new.backend_view(), slot, new.fence_value_view()) {
        let (claimed, staged, stage_answer, signaled) = choose|
            claimed: FakeNativeBackend,
            staged: FakeNativeBackend,
            stage_answer: CaptureResult<()>,
            signaled: CaptureResult<()>,
        |
            signaled is Ok && #[trigger] spec_publish_calls(
                old,
                frame,
                claimed,
                staged,
                new.backend_view(),
                slot,
                new.fence_value_view(),
                stage_answer,
                signaled,
            );
        let hint = choose|hint: Option<u32>|
            (hint is None || hint == old.backend_view().spec_frame_slot_hint(frame))
                && #[trigger] old.backend_view().spec_claim_step(
                &claimed,
                old.pool_view().id_view(),
                old.spec_reuse_candidates(hint),
                Ok(SlotClaim::Ready { slot_id: slot }),
            );
    } else {
        let hint = choose|hint: Option<u32>|
            (hint is None || hint == old.backend_view().spec_frame_slot_hint(frame))
                && #[trigger] old.backend_view().spec_claim_step(
                &new.backend_view(),
                old.pool_view().id_view(),
                old.spec_reuse_candidates(hint),
                Ok(SlotClaim::WouldBlock),
            );
    }
}

/// Law: a publish through the fake backend stages only into a surface no
/// consumer holds, so a held surface is never restaged until it is released.
pub proof fn law_published_surface_was_unheld(
    old: NativeTrackProducer<FakeNativeBackend>,
    frame: FakeCapturedFrame,
    last: FakeNativeBackend,
    slot: u32,
    value: u64,
)
    requires
        spec_publish_completed(old, frame, last, slot, value),
    ensures
        old.backend_view().registry_view().use_count(old.backend_view().spec_pool_id(old.pool_view()), slot) == Some(
            0u32,
        ),
{
    let (claimed, staged, stage_answer, signaled) = choose|
        claimed: FakeNativeBackend,
        staged: FakeNativeBackend,
        stage_answer: CaptureResult<()>,
        signaled: CaptureResult<()>,
    | signaled is Ok && #[trigger] spec_publish_calls(old, frame, claimed, staged, last, slot, value, stage_answer, signaled);
    let hint = choose|hint: Option<u32>|
        (hint is None || hint == old.backend_view().spec_frame_slot_hint(frame))
            && #[trigger] old.backend_view().spec_claim_step(
            &claimed,
            old.backend_view().spec_pool_id(old.pool_view()),
            old.spec_reuse_candidates(hint),
            Ok(SlotClaim::Ready { slot_id: slot }),
        );
}

} // verus!
