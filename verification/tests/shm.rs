use capture_transfer::error::CaptureTransferError;
use capture_transfer::model::PayloadKind;
use capture_transfer::shm::SharedMemorySegment;

#[test]
fn mapped_segment_roundtrips_bytes() {
    let mut segment = SharedMemorySegment::new(4).unwrap();

    segment.as_mut_slice().copy_from_slice(&[1, 2, 3, 4]);

    assert_eq!(segment.len(), 4);
    assert_eq!(segment.as_slice(), &[1, 2, 3, 4]);
}

#[test]
fn zero_length_segment_is_rejected() {
    assert!(SharedMemorySegment::new(0).is_err());
}

#[test]
fn zero_length_read_only_mapping_is_rejected() {
    let segment = SharedMemorySegment::new(4).unwrap();

    let error = SharedMemorySegment::map_read_only(&segment.image(), 0).unwrap_err();

    assert_eq!(error, CaptureTransferError::InvalidSharedMemoryLength);
}

#[test]
fn slice_at_returns_bounded_subrange() {
    let mut segment = SharedMemorySegment::new(8).unwrap();
    segment.as_mut_slice().copy_from_slice(&[0, 1, 2, 3, 4, 5, 6, 7]);

    assert_eq!(segment.slice_at(2, 3), &[2, 3, 4]);
}

#[test]
fn write_at_updates_bounded_subrange() {
    let mut segment = SharedMemorySegment::new(8).unwrap();

    segment.write_at(2, &[7, 8, 9]);

    assert_eq!(segment.slice_at(0, 6), &[0, 0, 7, 8, 9, 0]);
}

#[test]
fn with_slice_at_mut_updates_bounded_subrange() {
    let mut segment = SharedMemorySegment::new(8).unwrap();

    segment.with_slice_at_mut(3, 2, |slice| slice.copy_from_slice(&[5, 6]));

    assert_eq!(segment.slice_at(0, 6), &[0, 0, 0, 5, 6, 0]);
}

#[test]
fn read_only_mapping_clones_contents_from_fd() {
    let mut segment = SharedMemorySegment::new(4).unwrap();
    segment.as_mut_slice().copy_from_slice(&[1, 2, 3, 4]);
    let clone = SharedMemorySegment::map_read_only(&segment.image(), 4).unwrap();

    assert_eq!(clone.as_slice(), &[1, 2, 3, 4]);
}

#[test]
fn read_only_mapping_rejects_len_larger_than_backing_file() {
    let segment = SharedMemorySegment::new(4).unwrap();

    let error = SharedMemorySegment::map_read_only(&segment.image(), 1 << 21).unwrap_err();

    assert!(matches!(error, CaptureTransferError::SharedMemory { operation: "mmap-read-only", .. }));
    assert_eq!(
        error,
        CaptureTransferError::SharedMemory {
            operation: "mmap-read-only",
            message: "requested map length 2097152 exceeds backing file length 4".to_string(),
        }
    );
}

#[test]
fn read_write_mappings_share_the_backing_bytes_and_kind() {
    let mut segment = SharedMemorySegment::new(4).unwrap();
    segment.write_at(0, &[9, 8, 7, 6]);
    let mut view = SharedMemorySegment::map_read_write(&segment.image(), 3).unwrap();
    assert_eq!(view.as_slice(), &[9, 8, 7]);
    view.write_at(1, &[1]);
    assert_eq!(view.as_slice(), &[9, 1, 7]);
    assert!(!view.is_empty());
    assert_eq!(view.payload_kind(), PayloadKind::CpuShm);
    assert_eq!(
        SharedMemorySegment::map_read_write(&segment.image(), 5).unwrap_err(),
        CaptureTransferError::SharedMemory {
            operation: "mmap-read-write",
            message: "requested map length 5 exceeds backing file length 4".to_string(),
        }
    );
}

#[test]
fn with_slice_at_mut_returns_what_the_closure_returns() {
    let mut segment = SharedMemorySegment::new(6).unwrap();

    let seen = segment.with_slice_at_mut(1, 3, |slice| {
        slice[0] = 9;
        slice.len()
    });

    assert_eq!(seen, 3);
    assert_eq!(segment.slice_at(0, 5), &[0, 9, 0, 0, 0]);
}
