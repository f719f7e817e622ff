//! The rules of the synthetic Linux backend: how large a linear dmabuf
//! surface must be for a stream, and which pool slots it may hand back for
//! reuse while consumer leases keep others blocked. Opening the render node
//! and the dma-heap, and the allocations themselves, are the host's.

use vstd::prelude::*;
use vstd::string::*;

use crate::error::{CaptureTransferError, Result as CaptureResult};
use crate::ffi_native::FT_NATIVE_HANDLE_DMABUF;
use crate::model::{spec_pixel_format_code, PixelFormat};
use crate::native::linux::{LinuxPlaneDescriptor, LinuxSurfaceDescriptor};
use crate::native::lease::{spec_slot_held, NativeLeaseBook};
use crate::native::{NativeStreamParams, SlotClaim, SlotReuseCandidate};
use crate::text::{decimal_string, spec_decimal};

verus! {

/// Bytes per pixel of a surface in `format`; `None` for a format that cannot
/// be allocated.
pub open spec fn spec_bytes_per_pixel(format: PixelFormat) -> Option<u32> {
    match format {
        PixelFormat::Unknown => None,
        _ => Some(4u32),
    }
}

/// The message of a width whose row does not fit a 32-bit stride.
pub open spec fn spec_stride_overflow_message(width: u32) -> Seq<char> {
    "width "@ + spec_decimal(width as nat) + " overflows stride"@
}

/// The stride and allocation length of one linear surface for `params`, or
/// why it cannot be allocated.
pub open spec fn spec_surface_layout(params: NativeStreamParams) -> Result<(u32, u64), Seq<char>> {
    match spec_bytes_per_pixel(params.pixel_format) {
        None => Err("unknown pixel format cannot be allocated as dmabuf"@),
        Some(bytes) => if params.width * bytes > u32::MAX {
            Err(spec_stride_overflow_message(params.width))
        } else if params.width * bytes * params.height == 0 {
            Err("surface dimensions must be non-zero"@)
        } else {
            Ok(((params.width * bytes) as u32, (params.width * bytes * params.height) as u64))
        },
    }
}

/// The stride and allocation length of one linear surface for `params`.
pub fn surface_layout(params: &NativeStreamParams) -> (layout: CaptureResult<(u32, u64)>)
    ensures
        match spec_surface_layout(*params) {
            Ok(expected) => layout == Ok::<(u32, u64), CaptureTransferError>(expected),
            Err(text) => layout matches Err(CaptureTransferError::NativeBackend { operation, message })
                && operation@ == "linux-synthetic-surface-layout"@ && message@ == text,
        },
{
    let bytes_per_pixel: u32 = match params.pixel_format {
        PixelFormat::Unknown => {
            return Err(
                CaptureTransferError::NativeBackend {
                    operation: "linux-synthetic-surface-layout",
                    message: String::from_str("unknown pixel format cannot be allocated as dmabuf"),
                },
            );
        },
        _ => 4,
    };
    let stride = match params.width.checked_mul(bytes_per_pixel) {
        Some(stride) => stride,
        None => {
            let mut message = String::from_str("width ");
            let width = decimal_string(params.width as u64);
            message.append(width.as_str());
            message.append(" overflows stride");
            return Err(CaptureTransferError::NativeBackend { operation: "linux-synthetic-surface-layout", message });
        },
    };
    assert((stride as u64) * (params.height as u64) <= u64::MAX) by (nonlinear_arith)
        requires
            stride <= u32::MAX,
            params.height <= u32::MAX,
    ;
    let len = (stride as u64) * (params.height as u64);
    if len == 0 {
        return Err(
            CaptureTransferError::NativeBackend {
                operation: "linux-synthetic-surface-layout",
                message: String::from_str("surface dimensions must be non-zero"),
            },
        );
    }
    Ok((stride, len))
}

/// The message of a slot outside a pool of `slot_count` slots.
pub open spec fn spec_slot_outside_message(slot_id: u32, slot_count: nat) -> Seq<char> {
    "slot "@ + spec_decimal(slot_id as nat) + " outside pool with "@ + spec_decimal(slot_count) + " slots"@
}

/// A pool of the synthetic backend: its surfaces' shape, and per slot
/// whether a consumer lease keeps it from reuse.
#[derive(Debug)]
pub struct SyntheticLinuxPool {
    pool_id: u64,
    width: u32,
    height: u32,
    pixel_format: PixelFormat,
    modifier: u64,
    stride: u32,
    reuse_blocked: Vec<bool>,
}

impl SyntheticLinuxPool {
    #[verifier::type_invariant]
    spec fn inv(self) -> bool {
        self.reuse_blocked@.len() <= u32::MAX
    }

    pub closed spec fn pool_id_view(&self) -> u64 {
        self.pool_id
    }

    /// Per slot, whether it is kept from reuse.
    pub closed spec fn blocked_view(&self) -> Seq<bool> {
        self.reuse_blocked@
    }

    /// A pool of `slot_count` surfaces shaped by `params` with row stride
    /// `stride`, none of them blocked.
    pub fn new(pool_id: u64, params: &NativeStreamParams, stride: u32, slot_count: u32) -> (pool: Self)
        ensures
            pool.pool_id_view() == pool_id,
            pool.shape_view() == (params.width, params.height, params.pixel_format, params.modifier, stride),
            pool.blocked_view() == Seq::new(slot_count as nat, |i: int| false),
    {
        let mut reuse_blocked: Vec<bool> = Vec::new();
        let mut index: u32 = 0;
        while index < slot_count
            invariant
                index <= slot_count,
                reuse_blocked@ == Seq::new(index as nat, |i: int| false),
            decreases slot_count - index,
        {
            reuse_blocked.push(false);
            index = index + 1;
            proof {
                assert(reuse_blocked@ =~= Seq::new(index as nat, |i: int| false));
            }
        }
        SyntheticLinuxPool {
            pool_id,
            width: params.width,
            height: params.height,
            pixel_format: params.pixel_format,
            modifier: params.modifier,
            stride,
            reuse_blocked,
        }
    }

    /// The shape every surface of the pool has: width, height, pixel format,
    /// modifier and row stride.
    pub closed spec fn shape_view(&self) -> (u32, u32, PixelFormat, u64, u32) {
        (self.width, self.height, self.pixel_format, self.modifier, self.stride)
    }

    /// How a consumer is told about one surface of the pool: a single-plane
    /// dmabuf of the pool's shape, whose descriptor travels at `fd_index`.
    pub fn surface_descriptor(&self, fd_index: u32) -> (descriptor: LinuxSurfaceDescriptor)
        ensures
            descriptor.handle_kind == FT_NATIVE_HANDLE_DMABUF,
            descriptor.width == self.shape_view().0,
            descriptor.height == self.shape_view().1,
            descriptor.pixel_format == spec_pixel_format_code(self.shape_view().2),
            descriptor.modifier == self.shape_view().3,
            descriptor.planes@ == seq![LinuxPlaneDescriptor { fd_index, offset: 0, stride: self.shape_view().4 }],
    {
        let mut planes: Vec<LinuxPlaneDescriptor> = Vec::new();
        planes.push(LinuxPlaneDescriptor { fd_index, offset: 0, stride: self.stride });
        LinuxSurfaceDescriptor {
            handle_kind: FT_NATIVE_HANDLE_DMABUF,
            width: self.width,
            height: self.height,
            pixel_format: self.pixel_format.code(),
            modifier: self.modifier,
            planes,
        }
    }

    pub fn pool_id(&self) -> (pool_id: u64)
        ensures
            pool_id == self.pool_id_view(),
    {
        self.pool_id
    }

    pub fn slot_count(&self) -> (count: u32)
        ensures
            count == self.blocked_view().len(),
    {
        proof {
            use_type_invariant(self);
        }
        self.reuse_blocked.len() as u32
    }

    /// Keep slot `slot_id` from reuse, or free it again; refused for a slot
    /// outside the pool.
    pub fn set_reuse_blocked(&mut self, slot_id: u32, blocked: bool) -> (set: CaptureResult<()>)
        ensures
            final(self).pool_id_view() == old(self).pool_id_view(),
            slot_id < old(self).blocked_view().len() ==> {
                &&& set is Ok
                &&& final(self).blocked_view() == old(self).blocked_view().update(slot_id as int, blocked)
            },
            slot_id >= old(self).blocked_view().len() ==> {
                &&& set matches Err(CaptureTransferError::NativeBackend { operation, message })
                &&& operation@ == "linux-synthetic-set-reuse-blocked"@
                &&& message@ == spec_slot_outside_message(slot_id, old(self).blocked_view().len())
                &&& final(self).blocked_view() == old(self).blocked_view()
            },
    {
        proof {
            use_type_invariant(&*self);
        }
        if slot_id as usize >= self.reuse_blocked.len() {
            let mut message = String::from_str("slot ");
            let slot = decimal_string(slot_id as u64);
            message.append(slot.as_str());
            message.append(" outside pool with ");
            let count = decimal_string(self.reuse_blocked.len() as u64);
            message.append(count.as_str());
            message.append(" slots");
            return Err(CaptureTransferError::NativeBackend { operation: "linux-synthetic-set-reuse-blocked", message });
        }
        let mut reuse_blocked = Vec::new();
        std::mem::swap(&mut reuse_blocked, &mut self.reuse_blocked);
        reuse_blocked.set(slot_id as usize, blocked);
        self.reuse_blocked = reuse_blocked;
        Ok(())
    }

    /// Per slot, whether it is blocked once every candidate's block is read
    /// from `leases`: a candidate slot is blocked exactly while a lease on it
    /// is unresolved; other slots keep their block.
    pub open spec fn spec_blocked_by_leases(
        &self,
        leases: Map<u64, crate::native::lease::LeaseRecord>,
        candidates: Seq<SlotReuseCandidate>,
    ) -> Seq<bool> {
        Seq::new(
            self.blocked_view().len(),
            |slot: int|
                if exists|i: int| 0 <= i < candidates.len() && #[trigger] candidates[i].slot_id == slot {
                    spec_slot_held(leases, self.pool_id_view(), slot as u32)
                } else {
                    self.blocked_view()[slot]
                },
        )
    }

    /// Read each candidate's block from the lease book, then claim the first
    /// candidate no lease holds; refused for a candidate outside the pool.
    pub fn claim_with_leases(&mut self, leases: &NativeLeaseBook, candidates: &[SlotReuseCandidate]) -> (claim:
        CaptureResult<SlotClaim>)
        requires
            leases.wf(),
        ensures
            final(self).pool_id_view() == old(self).pool_id_view(),
            final(self).blocked_view().len() == old(self).blocked_view().len(),
            (forall|i: int| 0 <= i < candidates@.len() ==> (#[trigger] candidates@[i]).slot_id < old(self).blocked_view().len())
                ==> {
                &&& final(self).blocked_view() == old(self).spec_blocked_by_leases(leases.leases_view(), candidates@)
                &&& claim matches Ok(claimed) && match claimed {
                    SlotClaim::Ready { slot_id } => exists|i: int|
                        0 <= i < candidates@.len() && (#[trigger] candidates@[i]).slot_id == slot_id
                            && !final(self).blocked_view()[slot_id as int] && forall|j: int|
                            0 <= j < i ==> final(self).blocked_view()[candidates@[j].slot_id as int],
                    SlotClaim::WouldBlock => forall|i: int|
                        0 <= i < candidates@.len() ==> final(self).blocked_view()[(#[trigger] candidates@[i]).slot_id as int],
                }
            },
            (exists|i: int| 0 <= i < candidates@.len() && (#[trigger] candidates@[i]).slot_id >= old(self).blocked_view().len())
                ==> (claim matches Err(CaptureTransferError::NativeBackend { operation, .. })
                && operation@ == "linux-synthetic-set-reuse-blocked"@),
    {
        let ghost before = *self;
        let mut index: usize = 0;
        while index < candidates.len()
            invariant
                leases.wf(),
                before == *old(self),
                index <= candidates@.len(),
                self.pool_id_view() == before.pool_id_view(),
                self.blocked_view().len() == before.blocked_view().len(),
                forall|j: int| 0 <= j < index ==> (#[trigger] candidates@[j]).slot_id < before.blocked_view().len(),
                forall|slot: int|
                    0 <= slot < before.blocked_view().len() ==> #[trigger] self.blocked_view()[slot] == if exists|j: int|
                        0 <= j < index && #[trigger] candidates@[j].slot_id == slot {
                        spec_slot_held(leases.leases_view(), before.pool_id_view(), slot as u32)
                    } else {
                        before.blocked_view()[slot]
                    },
            decreases candidates@.len() - index,
        {
            let slot_id = candidates[index].slot_id;
            let held = leases.slot_has_unresolved_leases(self.pool_id, slot_id);
            let ghost prior = *self;
            match self.set_reuse_blocked(slot_id, held) {
                Ok(()) => {},
                Err(error) => {
                    proof {
                        assert(candidates@[index as int].slot_id >= before.blocked_view().len());
                    }
                    return Err(error);
                },
            }
            proof {
                assert forall|slot: int| 0 <= slot < before.blocked_view().len() implies #[trigger] self.blocked_view()[slot]
                    == if exists|j: int| 0 <= j < index + 1 && #[trigger] candidates@[j].slot_id == slot {
                    spec_slot_held(leases.leases_view(), before.pool_id_view(), slot as u32)
                } else {
                    before.blocked_view()[slot]
                } by {
                    if slot == slot_id {
                        assert(candidates@[index as int].slot_id == slot);
                    } else {
                        if exists|j: int| 0 <= j < index + 1 && #[trigger] candidates@[j].slot_id == slot {
                            let j = choose|j: int| 0 <= j < index + 1 && #[trigger] candidates@[j].slot_id == slot;
                            assert(j < index);
                        }
                    }
                }
            }
            index = index + 1;
        }
        proof {
            assert(self.blocked_view() =~= before.spec_blocked_by_leases(leases.leases_view(), candidates@));
        }
        Ok(self.claim_reusable_slot(candidates))
    }

    /// The first candidate no lease blocks; `WouldBlock` when every one is
    /// blocked.
    pub fn claim_reusable_slot(&self, candidates: &[SlotReuseCandidate]) -> (claim: SlotClaim)
        requires
            forall|i: int| 0 <= i < candidates@.len() ==> (#[trigger] candidates@[i]).slot_id < self.blocked_view().len(),
        ensures
            match claim {
                SlotClaim::Ready { slot_id } => exists|i: int|
                    0 <= i < candidates@.len() && (#[trigger] candidates@[i]).slot_id == slot_id
                        && !self.blocked_view()[slot_id as int] && forall|j: int|
                        0 <= j < i ==> self.blocked_view()[candidates@[j].slot_id as int],
                SlotClaim::WouldBlock => forall|i: int|
                    0 <= i < candidates@.len() ==> self.blocked_view()[(#[trigger] candidates@[i]).slot_id as int],
            },
    {
        let mut index: usize = 0;
        while index < candidates.len()
            invariant
                index <= candidates@.len(),
                forall|i: int| 0 <= i < candidates@.len() ==> (#[trigger] candidates@[i]).slot_id < self.reuse_blocked@.len(),
                forall|j: int| 0 <= j < index ==> self.reuse_blocked@[(#[trigger] candidates@[j]).slot_id as int],
            decreases candidates@.len() - index,
        {
            let slot_id = candidates[index].slot_id;
            if !self.reuse_blocked[slot_id as usize] {
                return SlotClaim::Ready { slot_id };
            }
            index = index + 1;
        }
        SlotClaim::WouldBlock
    }
}

} // verus!
