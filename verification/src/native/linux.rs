//! The Linux attach stream's grant records: which descriptors a grant names
//! by index into the table of descriptors that travels with it, and when
//! those indices are sound. Sending the table itself is the host's.

use vstd::prelude::*;
use vstd::string::*;

use crate::error::{CaptureTransferError, Result};
use crate::native::lease::{NativeLeaseIdentity, NativeLeaseRelease};
use crate::text::{decimal_string, spec_decimal};

pub mod pipewire;
pub mod synthetic;
pub mod vulkan;

verus! {

/// The most planes one surface may have.
pub const LINUX_ATTACH_MAX_PLANES: usize = 4;

/// The most descriptors one message may carry (the kernel's `SCM_MAX_FD`).
pub const LINUX_ATTACH_MAX_FDS: usize = 253;

#[derive(Debug, Clone, Copy, PartialEq, Eq, Structural)]
pub struct LinuxPlaneDescriptor {
    pub fd_index: u32,
    pub offset: u32,
    pub stride: u32,
}

#[derive(Debug, Clone, PartialEq, Eq)]
pub struct LinuxSurfaceDescriptor {
    pub handle_kind: u32,
    pub width: u32,
    pub height: u32,
    pub pixel_format: u32,
    pub modifier: u64,
    pub planes: Vec<LinuxPlaneDescriptor>,
}

#[derive(Debug, Clone, PartialEq, Eq)]
pub struct LinuxPoolDescriptor {
    pub pool_id: u64,
    pub surfaces: Vec<LinuxSurfaceDescriptor>,
}

#[derive(Debug, Clone, Copy, PartialEq, Eq, Structural)]
pub struct LinuxSyncDescriptor {
    pub sync_kind: u32,
    pub sync_id: u64,
    pub fd_index: u32,
}

#[derive(Debug, Clone, PartialEq, Eq)]
pub struct LinuxAttachGrant {
    pub consumer_id: u64,
    pub consumer_slot: u64,
    pub ring_fd_index: u32,
    pub ring_map_len: u64,
    pub pools: Vec<LinuxPoolDescriptor>,
    pub producer_sync: LinuxSyncDescriptor,
}

/// A lease identity as the attach stream carries it.
#[derive(Debug, Clone, Copy, PartialEq, Eq, Structural)]
pub struct LinuxLeaseIdentity {
    pub cursor: u64,
    pub sequence: u64,
    pub pool_id: u64,
    pub slot_id: u32,
}

impl LinuxLeaseIdentity {
    pub fn from_native(identity: NativeLeaseIdentity) -> (wire: Self)
        ensures
            wire == (LinuxLeaseIdentity {
                cursor: identity.cursor,
                sequence: identity.sequence,
                pool_id: identity.pool_id,
                slot_id: identity.slot_id,
            }),
    {
        LinuxLeaseIdentity {
            cursor: identity.cursor,
            sequence: identity.sequence,
            pool_id: identity.pool_id,
            slot_id: identity.slot_id,
        }
    }

    pub fn to_native(self) -> (identity: NativeLeaseIdentity)
        ensures
            identity == (NativeLeaseIdentity {
                cursor: self.cursor,
                sequence: self.sequence,
                pool_id: self.pool_id,
                slot_id: self.slot_id,
            }),
    {
        NativeLeaseIdentity { cursor: self.cursor, sequence: self.sequence, pool_id: self.pool_id, slot_id: self.slot_id }
    }
}

/// A lease release as the attach stream carries it.
#[derive(Debug, Clone, Copy, PartialEq, Eq, Structural)]
pub enum LinuxReleaseDescriptor {
    Now { lease_id: u64 },
    TimelineValue { lease_id: u64, release_sync_id: u64, value: u64 },
}

impl LinuxReleaseDescriptor {
    /// The stream's form of releasing `lease_id` by `release`.
    pub fn new(lease_id: u64, release: NativeLeaseRelease) -> (wire: Self)
        ensures
            wire.spec_lease_id() == lease_id,
            wire.spec_release() == release,
    {
        match release {
            NativeLeaseRelease::Now => LinuxReleaseDescriptor::Now { lease_id },
            NativeLeaseRelease::TimelineValue { release_sync_id, value } => LinuxReleaseDescriptor::TimelineValue {
                lease_id,
                release_sync_id,
                value,
            },
        }
    }

    pub open spec fn spec_lease_id(self) -> u64 {
        match self {
            LinuxReleaseDescriptor::Now { lease_id } => lease_id,
            LinuxReleaseDescriptor::TimelineValue { lease_id, .. } => lease_id,
        }
    }

    pub open spec fn spec_release(self) -> NativeLeaseRelease {
        match self {
            LinuxReleaseDescriptor::Now { .. } => NativeLeaseRelease::Now,
            LinuxReleaseDescriptor::TimelineValue { release_sync_id, value, .. } => NativeLeaseRelease::TimelineValue {
                release_sync_id,
                value,
            },
        }
    }

    pub fn lease_id(self) -> (lease_id: u64)
        ensures
            lease_id == self.spec_lease_id(),
    {
        match self {
            LinuxReleaseDescriptor::Now { lease_id } => lease_id,
            LinuxReleaseDescriptor::TimelineValue { lease_id, .. } => lease_id,
        }
    }

    pub fn release(self) -> (release: NativeLeaseRelease)
        ensures
            release == self.spec_release(),
    {
        match self {
            LinuxReleaseDescriptor::Now { .. } => NativeLeaseRelease::Now,
            LinuxReleaseDescriptor::TimelineValue { release_sync_id, value, .. } => NativeLeaseRelease::TimelineValue {
                release_sync_id,
                value,
            },
        }
    }
}

/// What a consumer sends on the Linux attach stream.
#[derive(Debug, Clone, PartialEq, Eq)]
pub enum LinuxAttachRequest {
    Authorize { bearer_token: String },
    Attach { consumer_id: u64 },
    GetPool { pool_id: u64 },
    AcquireLease { identity: LinuxLeaseIdentity },
    RegisterReleaseSync { sync: LinuxSyncDescriptor },
    ReleaseFrame { release: LinuxReleaseDescriptor },
}

/// What the producer answers on the Linux attach stream.
#[derive(Debug, Clone, PartialEq, Eq)]
pub enum LinuxAttachResponse {
    Authorized,
    Granted { grant: LinuxAttachGrant },
    Pool { pool: LinuxPoolDescriptor },
    LeaseAcquired { lease_id: u64 },
    ReleaseSyncRegistered { release_sync_id: u64 },
    FrameReleased,
    Error { code: String, message: String },
}

/// `error` is a rejected grant with `message`.
pub open spec fn spec_is_validation_error(error: CaptureTransferError, message: Seq<char>) -> bool {
    error matches CaptureTransferError::FdPassing { operation, message: text } && operation@
        == "validate-linux-attach"@ && text@ == message
}

pub open spec fn spec_fd_index_message(kind: Seq<char>, fd_index: u32, fd_count: nat) -> Seq<char> {
    kind + " fd_index "@ + spec_decimal(fd_index as nat) + " outside fd table length "@ + spec_decimal(fd_count)
}

/// Index `fd_index` of a descriptor of `kind` must lie inside the table.
pub fn validate_fd_index(kind: &'static str, fd_index: u32, fd_count: usize) -> (checked: Result<()>)
    ensures
        checked is Ok <==> fd_index < fd_count,
        checked matches Err(error) ==> spec_is_validation_error(error, spec_fd_index_message(kind@, fd_index, fd_count as nat)),
{
    if (fd_index as usize) < fd_count {
        return Ok(());
    }
    let mut message = String::from_str(kind);
    message.append(" fd_index ");
    let index = decimal_string(fd_index as u64);
    message.append(index.as_str());
    message.append(" outside fd table length ");
    let count = decimal_string(fd_count as u64);
    message.append(count.as_str());
    Err(CaptureTransferError::FdPassing { operation: "validate-linux-attach", message })
}

pub open spec fn spec_plane_count_message(count: nat) -> Seq<char> {
    "surface has "@ + spec_decimal(count) + " planes; expected 1..=4"@
}

/// The first index at which `planes` names a descriptor outside a table of
/// `fd_count`, if any.
pub open spec fn spec_first_bad_plane(planes: Seq<LinuxPlaneDescriptor>, fd_count: nat) -> Option<int> {
    if exists|i: int| 0 <= i < planes.len() && planes[i].fd_index >= fd_count {
        Some(
            choose|i: int|
                0 <= i < planes.len() && planes[i].fd_index >= fd_count && forall|j: int|
                    0 <= j < i ==> planes[j].fd_index < fd_count,
        )
    } else {
        None
    }
}

/// Why a surface's descriptor indices are unsound, if they are: the plane
/// count comes first, then the first plane outside the table.
pub open spec fn spec_surface_failure(surface: LinuxSurfaceDescriptor, fd_count: nat) -> Option<Seq<char>> {
    let planes = surface.planes@;
    if planes.len() == 0 || planes.len() > LINUX_ATTACH_MAX_PLANES {
        Some(spec_plane_count_message(planes.len()))
    } else {
        match spec_first_bad_plane(planes, fd_count) {
            Some(i) => Some(spec_fd_index_message("dmabuf-plane"@, planes[i].fd_index, fd_count)),
            None => None,
        }
    }
}

proof fn lemma_first_bad_plane(planes: Seq<LinuxPlaneDescriptor>, fd_count: nat, k: int)
    requires
        0 <= k < planes.len(),
        planes[k].fd_index >= fd_count,
        forall|j: int| 0 <= j < k ==> planes[j].fd_index < fd_count,
    ensures
        spec_first_bad_plane(planes, fd_count) == Some(k),
{
    let first = choose|i: int|
        0 <= i < planes.len() && planes[i].fd_index >= fd_count && forall|j: int|
            0 <= j < i ==> planes[j].fd_index < fd_count;
    assert(0 <= first < planes.len() && planes[first].fd_index >= fd_count && forall|j: int|
        0 <= j < first ==> planes[j].fd_index < fd_count);
    if first < k {
        assert(planes[first].fd_index < fd_count);
    }
    if first > k {
        assert(planes[k].fd_index < fd_count);
    }
}

impl LinuxSurfaceDescriptor {
    /// A surface has one to four planes, each naming a descriptor inside a
    /// table of `fd_count`.
    pub fn validate_fd_indices(&self, fd_count: usize) -> (checked: Result<()>)
        ensures
            checked is Ok <==> spec_surface_failure(*self, fd_count as nat) is None,
            checked matches Err(error) ==> spec_surface_failure(*self, fd_count as nat) matches Some(message)
                && spec_is_validation_error(error, message),
    {
        let count = self.planes.len();
        if count == 0 || count > LINUX_ATTACH_MAX_PLANES {
            let mut message = String::from_str("surface has ");
            let number = decimal_string(count as u64);
            message.append(number.as_str());
            message.append(" planes; expected 1..=4");
            return Err(CaptureTransferError::FdPassing { operation: "validate-linux-attach", message });
        }
        let mut index: usize = 0;
        while index < count
            invariant
                count == self.planes@.len(),
                0 < count <= LINUX_ATTACH_MAX_PLANES,
                index <= count,
                forall|j: int| 0 <= j < index ==> self.planes@[j].fd_index < fd_count,
            decreases count - index,
        {
            let plane = self.planes[index];
            match validate_fd_index("dmabuf-plane", plane.fd_index, fd_count) {
                Ok(()) => {},
                Err(error) => {
                    proof {
                        lemma_first_bad_plane(self.planes@, fd_count as nat, index as int);
                    }
                    return Err(error);
                },
            }
            index = index + 1;
        }
        proof {
            assert(!(exists|i: int| 0 <= i < self.planes@.len() && self.planes@[i].fd_index >= fd_count));
        }
        Ok(())
    }
}

impl LinuxSyncDescriptor {
    pub fn validate_fd_indices(&self, fd_count: usize) -> (checked: Result<()>)
        ensures
            checked is Ok <==> self.fd_index < fd_count,
            checked matches Err(error) ==> spec_is_validation_error(
                error,
                spec_fd_index_message("sync"@, self.fd_index, fd_count as nat),
            ),
    {
        validate_fd_index("sync", self.fd_index, fd_count)
    }
}

/// Surface `s` of pool `p` is the first unsound one of `pools`: every
/// surface before it, in pool order, is sound.
pub open spec fn spec_first_bad_surface(pools: Seq<LinuxPoolDescriptor>, fd_count: nat, p: int, s: int) -> bool {
    &&& 0 <= p < pools.len()
    &&& 0 <= s < pools[p].surfaces@.len()
    &&& spec_surface_failure(pools[p].surfaces@[s], fd_count) is Some
    &&& forall|q: int, t: int|
        0 <= q < p && 0 <= t < pools[q].surfaces@.len() ==> (#[trigger] spec_surface_failure(
            pools[q].surfaces@[t],
            fd_count,
        )) is None
    &&& forall|t: int| 0 <= t < s ==> (#[trigger] spec_surface_failure(pools[p].surfaces@[t], fd_count)) is None
}

/// Every surface of every pool is sound.
pub open spec fn spec_pools_sound(pools: Seq<LinuxPoolDescriptor>, fd_count: nat) -> bool {
    forall|q: int, t: int|
        0 <= q < pools.len() && 0 <= t < pools[q].surfaces@.len() ==> (#[trigger] spec_surface_failure(
            pools[q].surfaces@[t],
            fd_count,
        )) is None
}

impl LinuxAttachGrant {
    /// A grant's ring, producer sync and every pool surface name
    /// descriptors inside a table of `fd_count`; the first unsound one, in
    /// that order, is reported.
    pub fn validate_fd_indices(&self, fd_count: usize) -> (checked: Result<()>)
        ensures
            checked is Ok <==> {
                &&& self.ring_fd_index < fd_count
                &&& self.producer_sync.fd_index < fd_count
                &&& spec_pools_sound(self.pools@, fd_count as nat)
            },
            checked matches Err(error) ==> if self.ring_fd_index >= fd_count {
                spec_is_validation_error(error, spec_fd_index_message("ring-fd"@, self.ring_fd_index, fd_count as nat))
            } else if self.producer_sync.fd_index >= fd_count {
                spec_is_validation_error(
                    error,
                    spec_fd_index_message("sync"@, self.producer_sync.fd_index, fd_count as nat),
                )
            } else {
                exists|p: int, s: int|
                    spec_first_bad_surface(self.pools@, fd_count as nat, p, s) && (spec_surface_failure(
                        self.pools@[p].surfaces@[s],
                        fd_count as nat,
                    ) matches Some(message) && spec_is_validation_error(error, message))
            },
    {
        match validate_fd_index("ring-fd", self.ring_fd_index, fd_count) {
            Ok(()) => {},
            Err(error) => return Err(error),
        }
        match self.producer_sync.validate_fd_indices(fd_count) {
            Ok(()) => {},
            Err(error) => return Err(error),
        }
        let mut p: usize = 0;
        while p < self.pools.len()
            invariant
                p <= self.pools@.len(),
                self.ring_fd_index < fd_count,
                self.producer_sync.fd_index < fd_count,
                forall|q: int, t: int|
                    0 <= q < p && 0 <= t < self.pools@[q].surfaces@.len() ==> (#[trigger] spec_surface_failure(
                        self.pools@[q].surfaces@[t],
                        fd_count as nat,
                    )) is None,
            decreases self.pools@.len() - p,
        {
            let pool = &self.pools[p];
            let mut s: usize = 0;
            while s < pool.surfaces.len()
                invariant
                    p < self.pools@.len(),
                    *pool == self.pools@[p as int],
                    s <= pool.surfaces@.len(),
                    self.ring_fd_index < fd_count,
                    self.producer_sync.fd_index < fd_count,
                    forall|q: int, t: int|
                        0 <= q < p && 0 <= t < self.pools@[q].surfaces@.len() ==> (#[trigger] spec_surface_failure(
                            self.pools@[q].surfaces@[t],
                            fd_count as nat,
                        )) is None,
                    forall|t: int|
                        0 <= t < s ==> (#[trigger] spec_surface_failure(pool.surfaces@[t], fd_count as nat)) is None,
                decreases pool.surfaces@.len() - s,
            {
                match pool.surfaces[s].validate_fd_indices(fd_count) {
                    Ok(()) => {},
                    Err(error) => {
                        proof {
                            assert(spec_first_bad_surface(self.pools@, fd_count as nat, p as int, s as int));
                        }
                        return Err(error);
                    },
                }
                s = s + 1;
            }
            p = p + 1;
        }
        Ok(())
    }
}

pub open spec fn spec_fd_table_message(index: u32, len: nat) -> Seq<char> {
    "fd_index "@ + spec_decimal(index as nat) + " outside fd table length "@ + spec_decimal(len)
}

/// The descriptor at `index` of a received descriptor table.
pub fn fd_table_entry(fds: &[i32], index: u32) -> (fd: Result<i32>)
    ensures
        match fd {
            Ok(fd) => index < fds@.len() && fd == fds@[index as int],
            Err(error) => index >= fds@.len() && (error matches CaptureTransferError::FdPassing { operation, message }
                && operation@ == "linux-fd-table"@ && message@ == spec_fd_table_message(index, fds@.len())),
        },
{
    if (index as usize) < fds.len() {
        return Ok(fds[index as usize]);
    }
    let mut message = String::from_str("fd_index ");
    let number = decimal_string(index as u64);
    message.append(number.as_str());
    message.append(" outside fd table length ");
    let count = decimal_string(fds.len() as u64);
    message.append(count.as_str());
    Err(CaptureTransferError::FdPassing { operation: "linux-fd-table", message })
}

} // verus!
