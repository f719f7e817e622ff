use capture_transfer::error::CaptureTransferError;
use capture_transfer::fdpass::{
    check_passed_fds, check_recv_capacity, check_send_fds, installed_fds, passed_fd_bytes, single_fd, ControlHeader,
};

fn fd_passing(operation: &'static str, message: &str) -> CaptureTransferError {
    CaptureTransferError::FdPassing { operation, message: message.to_string() }
}

#[test]
fn sends_and_receives_need_room_for_a_descriptor() {
    assert_eq!(check_send_fds(1), Ok(()));
    assert_eq!(check_send_fds(0), Err(fd_passing("sendmsg", "at least one fd is required")));
    assert_eq!(check_recv_capacity(4), Ok(()));
    assert_eq!(check_recv_capacity(0), Err(fd_passing("recvmsg", "max_fds must be non-zero")));
}

#[test]
fn only_a_non_empty_rights_header_passes_descriptors() {
    let header_len = 16;
    assert_eq!(passed_fd_bytes(Some(ControlHeader { is_socket_rights: true, len: 24 }), header_len), Ok(8));
    assert_eq!(passed_fd_bytes(None, header_len), Err(CaptureTransferError::MissingPassedFd));
    assert_eq!(
        passed_fd_bytes(Some(ControlHeader { is_socket_rights: false, len: 24 }), header_len),
        Err(CaptureTransferError::MissingPassedFd)
    );
    assert_eq!(
        passed_fd_bytes(Some(ControlHeader { is_socket_rights: true, len: 16 }), header_len),
        Err(CaptureTransferError::MissingPassedFd)
    );
    assert_eq!(
        passed_fd_bytes(Some(ControlHeader { is_socket_rights: true, len: 8 }), header_len),
        Err(CaptureTransferError::MissingPassedFd)
    );
}

#[test]
fn rejects_truncated_misaligned_oversized_or_invalid_descriptor_sets() {
    assert_eq!(check_passed_fds(8, 4, &vec![5, 6], false, 2), Ok(()));
    assert_eq!(check_passed_fds(9, 4, &vec![5, 6], false, 2), Err(CaptureTransferError::MissingPassedFd));
    assert_eq!(
        check_passed_fds(8, 4, &vec![5, 6], true, 2),
        Err(fd_passing("recvmsg", "ancillary data truncated (MSG_CTRUNC)"))
    );
    assert_eq!(check_passed_fds(8, 4, &vec![5, 6], false, 1), Err(fd_passing("recvmsg", "received 2 fds, maximum is 1")));
    assert_eq!(check_passed_fds(8, 4, &vec![5, -1], false, 2), Err(CaptureTransferError::MissingPassedFd));
    assert_eq!(installed_fds(&vec![5, -1, 7]), vec![5, 7]);
}

#[test]
fn a_single_descriptor_receive_expects_exactly_one() {
    assert_eq!(single_fd(vec![9]), Ok(9));
    assert_eq!(single_fd::<i32>(vec![]), Err(CaptureTransferError::MissingPassedFd));
    assert_eq!(single_fd(vec![1, 2]), Err(CaptureTransferError::MissingPassedFd));
}
