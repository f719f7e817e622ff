//! A shared-memory segment as the library sees it: a run of bytes, writable
//! or not, with bounded reads and writes. Creating the anonymous backing
//! object and mapping descriptors are the host's; a segment mapped from a
//! backing object is made from that object's bytes.

use vstd::prelude::*;
use vstd::slice::slice_subrange;

use crate::control_page::mapping::{map_len_message, spec_map_len_message};
use crate::error::{CaptureTransferError, Result};
use crate::model::PayloadKind;

verus! {

#[derive(Debug)]
pub struct SharedMemorySegment {
    bytes: Vec<u8>,
    writable: bool,
}

/// `error` is what mapping `len` bytes of a `backing_len`-byte object for
/// `operation` fails with.
pub open spec fn spec_segment_map_error(len: nat, backing_len: nat, operation: Seq<char>, error: CaptureTransferError) -> bool {
    if len == 0 {
        error == CaptureTransferError::InvalidSharedMemoryLength
    } else {
        error matches CaptureTransferError::SharedMemory { operation: op, message } && op@ == operation && message@
            == spec_map_len_message(len, backing_len)
    }
}

impl SharedMemorySegment {
    pub closed spec fn bytes_view(&self) -> Seq<u8> {
        self.bytes@
    }

    pub closed spec fn writable_view(&self) -> bool {
        self.writable
    }

    /// A fresh, zeroed, writable segment of `len` bytes; a segment is never
    /// empty.
    pub fn new(len: usize) -> (segment: Result<Self>)
        ensures
            match segment {
                Ok(segment) => {
                    &&& len > 0
                    &&& segment.bytes_view() == Seq::new(len as nat, |i: int| 0u8)
                    &&& segment.writable_view()
                },
                Err(error) => len == 0 && error == CaptureTransferError::InvalidSharedMemoryLength,
            },
    {
        if len == 0 {
            return Err(CaptureTransferError::InvalidSharedMemoryLength);
        }
        let mut bytes: Vec<u8> = Vec::new();
        let mut index: usize = 0;
        while index < len
            invariant
                index <= len,
                bytes@ == Seq::new(index as nat, |i: int| 0u8),
            decreases len - index,
        {
            bytes.push(0);
            index = index + 1;
            proof {
                assert(bytes@ =~= Seq::new(index as nat, |i: int| 0u8));
            }
        }
        Ok(SharedMemorySegment { bytes, writable: true })
    }

    fn map(backing: &[u8], len: usize, writable: bool, operation: &'static str) -> (segment: Result<Self>)
        ensures
            match segment {
                Ok(segment) => {
                    &&& 0 < len <= backing@.len()
                    &&& segment.bytes_view() == backing@.take(len as int)
                    &&& segment.writable_view() == writable
                },
                Err(error) => !(0 < len <= backing@.len()) && spec_segment_map_error(
                    len as nat,
                    backing@.len(),
                    operation@,
                    error,
                ),
            },
    {
        if len == 0 {
            return Err(CaptureTransferError::InvalidSharedMemoryLength);
        }
        if len > backing.len() {
            return Err(CaptureTransferError::SharedMemory { operation, message: map_len_message(len, backing.len()) });
        }
        let mut bytes: Vec<u8> = Vec::new();
        let mut index: usize = 0;
        while index < len
            invariant
                index <= len <= backing@.len(),
                bytes@ == backing@.take(index as int),
            decreases len - index,
        {
            bytes.push(backing[index]);
            index = index + 1;
            proof {
                assert(bytes@ =~= backing@.take(index as int));
            }
        }
        Ok(SharedMemorySegment { bytes, writable })
    }

    /// A read-only view of the first `len` bytes of a backing object whose
    /// bytes are `backing`.
    pub fn map_read_only(backing: &[u8], len: usize) -> (segment: Result<Self>)
        ensures
            match segment {
                Ok(segment) => {
                    &&& 0 < len <= backing@.len()
                    &&& segment.bytes_view() == backing@.take(len as int)
                    &&& !segment.writable_view()
                },
                Err(error) => !(0 < len <= backing@.len()) && spec_segment_map_error(
                    len as nat,
                    backing@.len(),
                    "mmap-read-only"@,
                    error,
                ),
            },
    {
        Self::map(backing, len, false, "mmap-read-only")
    }

    /// A writable view of the first `len` bytes of a backing object.
    pub fn map_read_write(backing: &[u8], len: usize) -> (segment: Result<Self>)
        ensures
            match segment {
                Ok(segment) => {
                    &&& 0 < len <= backing@.len()
                    &&& segment.bytes_view() == backing@.take(len as int)
                    &&& segment.writable_view()
                },
                Err(error) => !(0 < len <= backing@.len()) && spec_segment_map_error(
                    len as nat,
                    backing@.len(),
                    "mmap-read-write"@,
                    error,
                ),
            },
    {
        Self::map(backing, len, true, "mmap-read-write")
    }

    pub fn len(&self) -> (len: usize)
        ensures
            len == self.bytes_view().len(),
    {
        self.bytes.len()
    }

    pub fn is_empty(&self) -> (empty: bool)
        ensures
            empty == (self.bytes_view().len() == 0),
    {
        self.bytes.len() == 0
    }

    pub fn payload_kind(&self) -> (kind: PayloadKind)
        ensures
            kind == PayloadKind::CpuShm,
    {
        PayloadKind::CpuShm
    }

    pub fn as_slice(&self) -> (bytes: &[u8])
        ensures
            bytes@ == self.bytes_view(),
    {
        self.bytes.as_slice()
    }

    /// The whole segment, to write through; only a writable segment.
    pub fn as_mut_slice(&mut self) -> (bytes: &mut [u8])
        requires
            old(self).writable_view(),
        ensures
            bytes@ == old(self).bytes_view(),
            final(self).bytes_view() == final(bytes)@,
            final(self).writable_view(),
    {
        self.bytes.as_mut_slice()
    }

    /// The `len` bytes at `offset`, which must lie inside the segment.
    pub fn slice_at(&self, offset: usize, len: usize) -> (bytes: &[u8])
        requires
            offset <= self.bytes_view().len(),
            len <= self.bytes_view().len() - offset,
        ensures
            bytes@ == self.bytes_view().subrange(offset as int, offset + len),
    {
        let total = self.bytes.len();
        slice_subrange(self.bytes.as_slice(), offset, offset + len)
    }

    /// Overwrite the bytes at `offset` with `bytes`, which must fit; only a
    /// writable segment.
    pub fn write_at(&mut self, offset: usize, bytes: &[u8])
        requires
            old(self).writable_view(),
            offset <= old(self).bytes_view().len(),
            bytes@.len() <= old(self).bytes_view().len() - offset,
        ensures
            final(self).writable_view(),
            final(self).bytes_view() == old(self).bytes_view().take(offset as int) + bytes@ + old(
                self,
            ).bytes_view().skip(offset + bytes@.len()),
    {
        let total = self.bytes.len();
        let mut index: usize = 0;
        while index < bytes.len()
            invariant
                total == self.bytes@.len(),
                self.writable == old(self).writable,
                offset + bytes@.len() <= self.bytes@.len(),
                self.bytes@.len() == old(self).bytes@.len(),
                index <= bytes@.len(),
                forall|i: int|
                    0 <= i < self.bytes@.len() ==> #[trigger] self.bytes@[i] == if offset <= i < offset + index {
                        bytes@[i - offset]
                    } else {
                        old(self).bytes@[i]
                    },
            decreases bytes@.len() - index,
        {
            self.bytes.set(offset + index, bytes[index]);
            index = index + 1;
        }
        proof {
            assert(self.bytes@ =~= old(self).bytes@.take(offset as int) + bytes@ + old(self).bytes@.skip(
                offset + bytes@.len(),
            ));
        }
    }

    /// Run `f` on the `len` bytes at `offset`, which must lie inside the
    /// segment, and keep what it leaves there; only a writable segment.
    /// Bytes outside the range are untouched.
    pub fn with_slice_at_mut<R, F: FnOnce(&mut [u8]) -> R>(&mut self, offset: usize, len: usize, f: F) -> (result: R)
        requires
            old(self).writable_view(),
            offset <= old(self).bytes_view().len(),
            len <= old(self).bytes_view().len() - offset,
            forall|chunk: &mut [u8]| #[trigger] f.requires((chunk,)),
        ensures
            final(self).writable_view(),
            final(self).bytes_view().len() == old(self).bytes_view().len(),
            final(self).bytes_view().take(offset as int) == old(self).bytes_view().take(offset as int),
            final(self).bytes_view().skip(offset + len) == old(self).bytes_view().skip(offset + len),
            exists|chunk: &mut [u8]|
                {
                    &&& chunk@ == old(self).bytes_view().subrange(offset as int, offset + len)
                    &&& #[trigger] f.ensures((chunk,), result)
                    &&& final(self).bytes_view().subrange(offset as int, offset + len) == if final(chunk)@.len() == len {
                        final(chunk)@
                    } else {
                        chunk@
                    }
                },
    {
        let total = self.bytes.len();
        let mut chunk: Vec<u8> = Vec::new();
        let mut index: usize = 0;
        while index < len
            invariant
                total == self.bytes@.len(),
                offset + len <= total,
                index <= len,
                self.bytes@ == old(self).bytes@,
                chunk@ == self.bytes@.subrange(offset as int, offset + index),
            decreases len - index,
        {
            chunk.push(self.bytes[offset + index]);
            index = index + 1;
            proof {
                assert(chunk@ =~= self.bytes@.subrange(offset as int, offset + index));
            }
        }
        let ghost before = chunk@;
        let result = f(chunk.as_mut_slice());
        // A slice keeps its length through `f`; testing it lets the proof see that.
        if chunk.len() == len {
            self.write_at(offset, chunk.as_slice());
        }
        proof {
            assert(self.bytes_view().take(offset as int) =~= old(self).bytes_view().take(offset as int));
            assert(self.bytes_view().skip(offset + len) =~= old(self).bytes_view().skip(offset + len));
            if chunk@.len() == len {
                assert(self.bytes_view().subrange(offset as int, offset + len) =~= chunk@);
            } else {
                assert(self.bytes_view().subrange(offset as int, offset + len) =~= before);
            }
        }
        result
    }

    /// The segment's bytes, as a second mapping of its backing object would
    /// see them.
    pub fn image(&self) -> (image: Vec<u8>)
        ensures
            image@ == self.bytes_view(),
    {
        self.bytes.clone()
    }
}

/// Law: reading back the range a write covered gives the written bytes, and
/// a write keeps the segment's length.
pub proof fn law_write_then_read(before: Seq<u8>, offset: int, data: Seq<u8>)
    requires
        0 <= offset <= before.len(),
        data.len() <= before.len() - offset,
    ensures
        ({
            let after = before.take(offset) + data + before.skip(offset + data.len());
            &&& after.len() == before.len()
            &&& after.subrange(offset, offset + data.len()) == data
            &&& after.take(offset) == before.take(offset)
            &&& after.skip(offset + data.len()) == before.skip(offset + data.len())
        }),
{
    let after = before.take(offset) + data + before.skip(offset + data.len());
    assert(after.subrange(offset, offset + data.len()) =~= data);
    assert(after.take(offset) =~= before.take(offset));
    assert(after.skip(offset + data.len()) =~= before.skip(offset + data.len()));
}

} // verus!
