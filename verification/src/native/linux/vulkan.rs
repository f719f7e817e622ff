//! What the Vulkan reference consumer decides before it touches a device:
//! whether the probed runtime can import dmabuf images and wait on DRM
//! syncobj timelines, and whether a grant's surfaces are dmabufs it can
//! import. Probing the loader, opening the render node and the imports
//! themselves are the host's.

use vstd::prelude::*;
use vstd::string::*;

use crate::error::{CaptureTransferError, Result as CaptureResult};
use crate::ffi_native::{FT_NATIVE_HANDLE_DMABUF, FT_NATIVE_SYNC_DRM_SYNCOBJ_TIMELINE};
use crate::native::linux::{
    spec_pools_sound, LinuxAttachGrant, LinuxPoolDescriptor, LinuxSurfaceDescriptor, LinuxSyncDescriptor,
    LINUX_ATTACH_MAX_PLANES,
};
use crate::text::{decimal_string, spec_decimal};

verus! {

/// What a probe of the Vulkan loader and its devices found.
#[derive(Debug, Clone, Copy, PartialEq, Eq, Structural)]
pub struct VulkanRuntimeProbe {
    pub loader_present: bool,
    pub can_enumerate_instance_extensions: bool,
    pub can_create_instance: bool,
    pub physical_device_count: u32,
    pub instance_extension_count: u32,
    pub has_get_physical_device_properties2: bool,
    pub has_external_memory_capabilities: bool,
    pub has_external_semaphore_capabilities: bool,
    pub has_external_fence_capabilities: bool,
    pub has_external_memory_dma_buf: bool,
    pub has_external_memory_fd: bool,
    pub has_image_drm_format_modifier: bool,
    pub has_get_memory_requirements2: bool,
    pub has_bind_memory2: bool,
    pub has_queue_family_foreign: bool,
    pub has_external_semaphore_fd: bool,
    pub has_external_fence_fd: bool,
    pub has_timeline_semaphore: bool,
    pub can_create_reference_device: bool,
    pub has_image_import_device_functions: bool,
}

/// A runtime can import dmabuf images: a device, external memory from dmabuf
/// fds, DRM format modifiers, the memory binding extensions, foreign queue
/// ownership, and the device functions the import uses.
pub open spec fn spec_supports_dmabuf_import(probe: VulkanRuntimeProbe) -> bool {
    &&& probe.loader_present
    &&& probe.can_create_instance
    &&& probe.physical_device_count > 0
    &&& probe.has_external_memory_capabilities
    &&& probe.has_external_memory_dma_buf
    &&& probe.has_external_memory_fd
    &&& probe.has_image_drm_format_modifier
    &&& probe.has_get_memory_requirements2
    &&& probe.has_bind_memory2
    &&& probe.has_queue_family_foreign
    &&& probe.can_create_reference_device
    &&& probe.has_image_import_device_functions
}

/// A runtime can wait on a producer sync of kind `sync_kind`: only DRM
/// syncobj timelines, through external timeline semaphores.
pub open spec fn spec_supports_external_sync_for(probe: VulkanRuntimeProbe, sync_kind: u32) -> bool {
    &&& sync_kind == FT_NATIVE_SYNC_DRM_SYNCOBJ_TIMELINE
    &&& probe.loader_present
    &&& probe.can_create_instance
    &&& probe.physical_device_count > 0
    &&& probe.has_external_semaphore_capabilities
    &&& probe.has_external_semaphore_fd
    &&& probe.has_timeline_semaphore
}

impl VulkanRuntimeProbe {
    pub fn supports_dmabuf_import(&self) -> (supported: bool)
        ensures
            supported == spec_supports_dmabuf_import(*self),
    {
        self.loader_present && self.can_create_instance && self.physical_device_count > 0
            && self.has_external_memory_capabilities && self.has_external_memory_dma_buf
            && self.has_external_memory_fd && self.has_image_drm_format_modifier
            && self.has_get_memory_requirements2 && self.has_bind_memory2 && self.has_queue_family_foreign
            && self.can_create_reference_device && self.has_image_import_device_functions
    }

    pub fn supports_external_sync_for(&self, sync_kind: u32) -> (supported: bool)
        ensures
            supported == spec_supports_external_sync_for(*self, sync_kind),
    {
        if sync_kind == FT_NATIVE_SYNC_DRM_SYNCOBJ_TIMELINE {
            self.loader_present && self.can_create_instance && self.physical_device_count > 0
                && self.has_external_semaphore_capabilities && self.has_external_semaphore_fd
                && self.has_timeline_semaphore
        } else {
            false
        }
    }

    /// The runtime can both import the producer's dmabufs and wait on its
    /// syncobj timeline.
    pub fn supports_reference_consumer_primitives(&self) -> (supported: bool)
        ensures
            supported == (spec_supports_dmabuf_import(*self) && spec_supports_external_sync_for(
                *self,
                FT_NATIVE_SYNC_DRM_SYNCOBJ_TIMELINE,
            )),
    {
        self.supports_dmabuf_import() && self.supports_external_sync_for(FT_NATIVE_SYNC_DRM_SYNCOBJ_TIMELINE)
    }
}

#[derive(Debug, Clone, Copy, PartialEq, Eq, Structural)]
pub struct VulkanReferencePlane {
    pub fd_index: u32,
    pub offset: u32,
    pub stride: u32,
}

#[derive(Debug, Clone, PartialEq, Eq)]
pub struct VulkanReferenceSurface {
    pub pool_id: u64,
    pub slot_id: u32,
    pub width: u32,
    pub height: u32,
    pub pixel_format: u32,
    pub modifier: u64,
    pub planes: Vec<VulkanReferencePlane>,
}

/// Why a grant's surface cannot be imported as a dmabuf image, if it cannot.
pub open spec fn spec_dmabuf_surface_failure(surface: LinuxSurfaceDescriptor) -> Option<Seq<char>> {
    if surface.handle_kind != FT_NATIVE_HANDLE_DMABUF {
        Some("unsupported surface handle kind "@ + spec_decimal(surface.handle_kind as nat))
    } else if surface.width == 0 || surface.height == 0 {
        Some(
            "invalid surface dimensions "@ + spec_decimal(surface.width as nat) + "x"@ + spec_decimal(
                surface.height as nat,
            ),
        )
    } else if surface.planes@.len() == 0 || surface.planes@.len() > LINUX_ATTACH_MAX_PLANES {
        Some("dmabuf plane count "@ + spec_decimal(surface.planes@.len()) + " outside 1..=4"@)
    } else if exists|i: int| 0 <= i < surface.planes@.len() && #[trigger] surface.planes@[i].stride == 0 {
        Some("dmabuf plane stride must be non-zero"@)
    } else {
        None
    }
}

/// `error` is the reference consumer's refusal with `message`.
pub open spec fn spec_is_reference_error(error: CaptureTransferError, message: Seq<char>) -> bool {
    error matches CaptureTransferError::NativeBackend { operation, message: text }
        && operation@ == "linux-vulkan-reference-consumer"@ && text@ == message
}

fn reference_error(message: String) -> (error: CaptureTransferError)
    ensures
        spec_is_reference_error(error, message@),
{
    CaptureTransferError::NativeBackend { operation: "linux-vulkan-reference-consumer", message }
}

/// Check that a grant surface is a dmabuf the reference consumer can import.
pub fn validate_dmabuf_surface(surface: &LinuxSurfaceDescriptor) -> (checked: CaptureResult<()>)
    ensures
        match spec_dmabuf_surface_failure(*surface) {
            None => checked is Ok,
            Some(message) => checked matches Err(error) && spec_is_reference_error(error, message),
        },
{
    if surface.handle_kind != FT_NATIVE_HANDLE_DMABUF {
        let mut message = String::from_str("unsupported surface handle kind ");
        let kind = decimal_string(surface.handle_kind as u64);
        message.append(kind.as_str());
        return Err(reference_error(message));
    }
    if surface.width == 0 || surface.height == 0 {
        let mut message = String::from_str("invalid surface dimensions ");
        let width = decimal_string(surface.width as u64);
        message.append(width.as_str());
        message.append("x");
        let height = decimal_string(surface.height as u64);
        message.append(height.as_str());
        return Err(reference_error(message));
    }
    let count = surface.planes.len();
    if count == 0 || count > LINUX_ATTACH_MAX_PLANES {
        let mut message = String::from_str("dmabuf plane count ");
        let number = decimal_string(count as u64);
        message.append(number.as_str());
        message.append(" outside 1..=4");
        return Err(reference_error(message));
    }
    let mut index: usize = 0;
    while index < count
        invariant
            count == surface.planes@.len(),
            0 < count <= LINUX_ATTACH_MAX_PLANES,
            surface.handle_kind == FT_NATIVE_HANDLE_DMABUF,
            surface.width != 0 && surface.height != 0,
            index <= count,
            forall|j: int| 0 <= j < index ==> surface.planes@[j].stride != 0,
        decreases count - index,
    {
        if surface.planes[index].stride == 0 {
            proof {
                assert(surface.planes@[index as int].stride == 0);
            }
            return Err(reference_error(String::from_str("dmabuf plane stride must be non-zero")));
        }
        index = index + 1;
    }
    Ok(())
}

/// Every surface of `pools` in grant order: its pool id, its slot id and its
/// descriptor.
pub open spec fn spec_grant_surfaces(pools: Seq<LinuxPoolDescriptor>) -> Seq<(u64, u32, LinuxSurfaceDescriptor)>
    decreases pools.len(),
{
    if pools.len() == 0 {
        Seq::empty()
    } else {
        let last = pools.last();
        spec_grant_surfaces(pools.drop_last()) + Seq::new(
            last.surfaces@.len(),
            |s: int| (last.pool_id, s as u32, last.surfaces@[s]),
        )
    }
}

/// `surface` is what the reference consumer keeps of surface `named`: its
/// ids, shape and planes.
pub open spec fn spec_reference_of(
    surface: VulkanReferenceSurface,
    named: (u64, u32, LinuxSurfaceDescriptor),
) -> bool {
    &&& surface.pool_id == named.0
    &&& surface.slot_id == named.1
    &&& surface.width == named.2.width
    &&& surface.height == named.2.height
    &&& surface.pixel_format == named.2.pixel_format
    &&& surface.modifier == named.2.modifier
    &&& surface.planes@.len() == named.2.planes@.len()
    &&& forall|i: int|
        0 <= i < surface.planes@.len() ==> #[trigger] surface.planes@[i] == (VulkanReferencePlane {
            fd_index: named.2.planes@[i].fd_index,
            offset: named.2.planes@[i].offset,
            stride: named.2.planes@[i].stride,
        })
}

proof fn lemma_grant_surfaces_step(pools: Seq<LinuxPoolDescriptor>, p: int)
    requires
        0 <= p < pools.len(),
    ensures
        spec_grant_surfaces(pools.take(p + 1)) == spec_grant_surfaces(pools.take(p)) + Seq::new(
            pools[p].surfaces@.len(),
            |s: int| (pools[p].pool_id, s as u32, pools[p].surfaces@[s]),
        ),
{
    assert(pools.take(p + 1).drop_last() =~= pools.take(p));
}

fn reference_planes(surface: &LinuxSurfaceDescriptor) -> (planes: Vec<VulkanReferencePlane>)
    ensures
        planes@.len() == surface.planes@.len(),
        forall|i: int|
            0 <= i < planes@.len() ==> #[trigger] planes@[i] == (VulkanReferencePlane {
                fd_index: surface.planes@[i].fd_index,
                offset: surface.planes@[i].offset,
                stride: surface.planes@[i].stride,
            }),
{
    let mut planes: Vec<VulkanReferencePlane> = Vec::new();
    let mut index: usize = 0;
    while index < surface.planes.len()
        invariant
            index <= surface.planes@.len(),
            planes@.len() == index,
            forall|i: int|
                0 <= i < index ==> #[trigger] planes@[i] == (VulkanReferencePlane {
                    fd_index: surface.planes@[i].fd_index,
                    offset: surface.planes@[i].offset,
                    stride: surface.planes@[i].stride,
                }),
        decreases surface.planes@.len() - index,
    {
        let plane = surface.planes[index];
        planes.push(VulkanReferencePlane { fd_index: plane.fd_index, offset: plane.offset, stride: plane.stride });
        index = index + 1;
    }
    planes
}

/// Every surface of a grant, checked and described for import; the first
/// surface that cannot be imported refuses the grant, and so does a grant
/// with no surface at all.
pub fn validate_reference_surfaces(grant: &LinuxAttachGrant) -> (surfaces: CaptureResult<Vec<VulkanReferenceSurface>>)
    ensures
        ({
            let named = spec_grant_surfaces(grant.pools@);
            &&& surfaces is Ok <==> (named.len() > 0 && forall|k: int|
                0 <= k < named.len() ==> spec_dmabuf_surface_failure(#[trigger] named[k].2) is None)
            &&& surfaces matches Ok(surfaces) ==> {
                &&& surfaces@.len() == named.len()
                &&& forall|k: int| 0 <= k < named.len() ==> spec_reference_of(#[trigger] surfaces@[k], named[k])
            }
            &&& surfaces matches Err(error) ==> {
                ||| exists|k: int|
                    0 <= k < named.len() && (spec_dmabuf_surface_failure(#[trigger] named[k].2) matches Some(message)
                        && spec_is_reference_error(error, message)) && forall|j: int|
                        0 <= j < k ==> spec_dmabuf_surface_failure(named[j].2) is None
                ||| named.len() == 0 && spec_is_reference_error(error, "grant contains no dmabuf surfaces"@)
            }
        }),
{
    let ghost pools = grant.pools@;
    let mut surfaces: Vec<VulkanReferenceSurface> = Vec::new();
    let mut p: usize = 0;
    while p < grant.pools.len()
        invariant
            pools == grant.pools@,
            p <= pools.len(),
            surfaces@.len() == spec_grant_surfaces(pools.take(p as int)).len(),
            forall|k: int|
                0 <= k < surfaces@.len() ==> spec_reference_of(
                    #[trigger] surfaces@[k],
                    spec_grant_surfaces(pools.take(p as int))[k],
                ),
            forall|k: int|
                0 <= k < surfaces@.len() ==> spec_dmabuf_surface_failure(
                    #[trigger] spec_grant_surfaces(pools.take(p as int))[k].2,
                ) is None,
        decreases pools.len() - p,
    {
        let pool = &grant.pools[p];
        proof {
            lemma_grant_surfaces_step(pools, p as int);
        }
        let ghost before = spec_grant_surfaces(pools.take(p as int));
        let ghost after = spec_grant_surfaces(pools.take(p + 1));
        let mut s: usize = 0;
        while s < pool.surfaces.len()
            invariant
                pools == grant.pools@,
                p < pools.len(),
                *pool == pools[p as int],
                before == spec_grant_surfaces(pools.take(p as int)),
                after == spec_grant_surfaces(pools.take(p + 1)),
                after == before + Seq::new(
                    pools[p as int].surfaces@.len(),
                    |i: int| (pools[p as int].pool_id, i as u32, pools[p as int].surfaces@[i]),
                ),
                s <= pool.surfaces@.len(),
                surfaces@.len() == before.len() + s,
                forall|k: int| 0 <= k < surfaces@.len() ==> spec_reference_of(#[trigger] surfaces@[k], after[k]),
                forall|k: int|
                    0 <= k < surfaces@.len() ==> spec_dmabuf_surface_failure(#[trigger] after[k].2) is None,
            decreases pool.surfaces@.len() - s,
        {
            let surface = &pool.surfaces[s];
            match validate_dmabuf_surface(surface) {
                Ok(()) => {},
                Err(error) => {
                    proof {
                        let k = surfaces@.len() as int;
                        lemma_grant_surfaces_prefix(pools, p as int + 1);
                        assert(after[k].2 == *surface);
                        assert(spec_grant_surfaces(pools)[k] == after[k]);
                        assert forall|j: int| 0 <= j < k implies spec_dmabuf_surface_failure(
                            spec_grant_surfaces(pools)[j].2,
                        ) is None by {
                            assert(spec_grant_surfaces(pools)[j] == after[j]);
                        }
                    }
                    return Err(error);
                },
            }
            let planes = reference_planes(surface);
            surfaces.push(
                VulkanReferenceSurface {
                    pool_id: pool.pool_id,
                    slot_id: #[verifier::truncate] (s as u32),
                    width: surface.width,
                    height: surface.height,
                    pixel_format: surface.pixel_format,
                    modifier: surface.modifier,
                    planes,
                },
            );
            s = s + 1;
        }
        p = p + 1;
    }
    proof {
        assert(pools.take(pools.len() as int) =~= pools);
    }
    if surfaces.len() == 0 {
        return Err(reference_error(String::from_str("grant contains no dmabuf surfaces")));
    }
    Ok(surfaces)
}

/// The surfaces of a run of pools come first among those of every longer
/// run.
proof fn lemma_grant_surfaces_prefix(pools: Seq<LinuxPoolDescriptor>, p: int)
    requires
        0 <= p <= pools.len(),
    ensures
        spec_grant_surfaces(pools.take(p)).len() <= spec_grant_surfaces(pools).len(),
        forall|k: int|
            0 <= k < spec_grant_surfaces(pools.take(p)).len() ==> #[trigger] spec_grant_surfaces(pools)[k]
                == spec_grant_surfaces(pools.take(p))[k],
    decreases pools.len() - p,
{
    if p == pools.len() {
        assert(pools.take(p) =~= pools);
    } else {
        lemma_grant_surfaces_step(pools, p);
        lemma_grant_surfaces_prefix(pools, p + 1);
    }
}

/// Refuse a producer sync the reference consumer cannot wait on.
pub fn validate_producer_sync(sync: &LinuxSyncDescriptor) -> (checked: CaptureResult<()>)
    ensures
        checked is Ok <==> sync.sync_kind == FT_NATIVE_SYNC_DRM_SYNCOBJ_TIMELINE,
        checked matches Err(error) ==> error matches CaptureTransferError::NativeBackend { operation, message }
            && operation@ == "linux-vulkan-reference-consumer"@ && message@ == "unsupported producer sync kind "@
            + spec_decimal(sync.sync_kind as nat),
{
    if sync.sync_kind != FT_NATIVE_SYNC_DRM_SYNCOBJ_TIMELINE {
        let mut message = String::from_str("unsupported producer sync kind ");
        let kind = decimal_string(sync.sync_kind as u64);
        message.append(kind.as_str());
        return Err(reference_error(message));
    }
    Ok(())
}

/// What the reference consumer checks before it opens a render node: the
/// runtime's primitives, the grant's descriptor indices into a table of
/// `fd_count`, and the producer sync's kind, in that order.
pub fn check_reference_grant(probe: &VulkanRuntimeProbe, grant: &LinuxAttachGrant, fd_count: usize) -> (checked:
    CaptureResult<()>)
    ensures
        checked is Ok <==> {
            &&& spec_supports_dmabuf_import(*probe)
            &&& spec_supports_external_sync_for(*probe, FT_NATIVE_SYNC_DRM_SYNCOBJ_TIMELINE)
            &&& grant.ring_fd_index < fd_count
            &&& grant.producer_sync.fd_index < fd_count
            &&& spec_pools_sound(grant.pools@, fd_count as nat)
            &&& grant.producer_sync.sync_kind == FT_NATIVE_SYNC_DRM_SYNCOBJ_TIMELINE
        },
        !(spec_supports_dmabuf_import(*probe) && spec_supports_external_sync_for(
            *probe,
            FT_NATIVE_SYNC_DRM_SYNCOBJ_TIMELINE,
        )) ==> (checked matches Err(error) && spec_is_reference_error(
            error,
            "Vulkan runtime does not support dmabuf image import plus DRM syncobj timeline waits"@,
        )),
{
    if !probe.supports_reference_consumer_primitives() {
        return Err(
            reference_error(
                String::from_str("Vulkan runtime does not support dmabuf image import plus DRM syncobj timeline waits"),
            ),
        );
    }
    match grant.validate_fd_indices(fd_count) {
        Ok(()) => {},
        Err(error) => return Err(error),
    }
    validate_producer_sync(&grant.producer_sync)
}

} // verus!
