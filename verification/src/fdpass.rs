//! The checks around passing descriptors over a Unix stream: what a send
//! needs, and when a received `SCM_RIGHTS` message is accepted. `sendmsg`,
//! `recvmsg` and the control-message layout are the host's; these decide on
//! the numbers they report.

use vstd::prelude::*;
use vstd::string::*;

use crate::error::{CaptureTransferError, Result};
use crate::text::{decimal_string, spec_decimal};

verus! {

/// The first control header of a received message: whether it is an
/// `SCM_RIGHTS` message at `SOL_SOCKET` level, and its `cmsg_len`.
#[derive(Debug, Clone, Copy, PartialEq, Eq, Structural)]
pub struct ControlHeader {
    pub is_socket_rights: bool,
    pub len: usize,
}

/// `error` is an fd-passing failure of `operation` with `message`.
pub open spec fn spec_is_fd_passing_error(error: CaptureTransferError, operation: Seq<char>, message: Seq<char>) -> bool {
    error matches CaptureTransferError::FdPassing { operation: op, message: text } && op@ == operation && text@
        == message
}

/// A send carries at least one descriptor.
pub fn check_send_fds(fd_count: usize) -> (checked: Result<()>)
    ensures
        fd_count > 0 ==> checked is Ok,
        fd_count == 0 ==> (checked matches Err(error) && spec_is_fd_passing_error(
            error,
            "sendmsg"@,
            "at least one fd is required"@,
        )),
{
    if fd_count == 0 {
        return Err(
            CaptureTransferError::FdPassing {
                operation: "sendmsg",
                message: String::from_str("at least one fd is required"),
            },
        );
    }
    Ok(())
}

/// A receive makes room for at least one descriptor.
pub fn check_recv_capacity(max_fds: usize) -> (checked: Result<()>)
    ensures
        max_fds > 0 ==> checked is Ok,
        max_fds == 0 ==> (checked matches Err(error) && spec_is_fd_passing_error(
            error,
            "recvmsg"@,
            "max_fds must be non-zero"@,
        )),
{
    if max_fds == 0 {
        return Err(
            CaptureTransferError::FdPassing {
                operation: "recvmsg",
                message: String::from_str("max_fds must be non-zero"),
            },
        );
    }
    Ok(())
}

/// The descriptor bytes a received message's first control header carries,
/// where `header_len` is the length of a header with no data
/// (`CMSG_LEN(0)`).
pub open spec fn spec_passed_fd_bytes(header: Option<ControlHeader>, header_len: usize) -> Option<int> {
    match header {
        Some(header) => if header.is_socket_rights && header.len >= header_len && header.len - header_len > 0 {
            Some(header.len - header_len)
        } else {
            None
        },
        None => None,
    }
}

/// The number of descriptor bytes a received message carries; a message
/// without a non-empty `SCM_RIGHTS` header passed no descriptor.
pub fn passed_fd_bytes(header: Option<ControlHeader>, header_len: usize) -> (fd_bytes: Result<usize>)
    ensures
        match spec_passed_fd_bytes(header, header_len) {
            Some(bytes) => fd_bytes == Ok::<usize, CaptureTransferError>(bytes as usize),
            None => fd_bytes == Err::<usize, CaptureTransferError>(CaptureTransferError::MissingPassedFd),
        },
{
    match header {
        Some(header) => {
            if !header.is_socket_rights || header.len < header_len {
                return Err(CaptureTransferError::MissingPassedFd);
            }
            let fd_bytes = header.len - header_len;
            if fd_bytes == 0 {
                return Err(CaptureTransferError::MissingPassedFd);
            }
            Ok(fd_bytes)
        },
        None => Err(CaptureTransferError::MissingPassedFd),
    }
}

pub open spec fn spec_too_many_fds_message(count: nat, max_fds: nat) -> Seq<char> {
    "received "@ + spec_decimal(count) + " fds, maximum is "@ + spec_decimal(max_fds)
}

/// Accept the descriptors a message passed, or say why not. `raw_fds` are
/// the `fd_bytes / fd_size` descriptors read from the header's data; on a
/// rejection the caller closes the non-negative ones.
pub fn check_passed_fds(fd_bytes: usize, fd_size: usize, raw_fds: &Vec<i32>, truncated: bool, max_fds: usize) -> (checked:
    Result<()>)
    requires
        fd_size > 0,
        raw_fds@.len() == fd_bytes / fd_size,
    ensures
        fd_bytes % fd_size != 0 ==> checked == Err::<(), CaptureTransferError>(CaptureTransferError::MissingPassedFd),
        fd_bytes % fd_size == 0 && truncated ==> (checked matches Err(error) && spec_is_fd_passing_error(
            error,
            "recvmsg"@,
            "ancillary data truncated (MSG_CTRUNC)"@,
        )),
        fd_bytes % fd_size == 0 && !truncated && raw_fds@.len() > max_fds ==> (checked matches Err(error)
            && spec_is_fd_passing_error(
            error,
            "recvmsg"@,
            spec_too_many_fds_message(raw_fds@.len(), max_fds as nat),
        )),
        fd_bytes % fd_size == 0 && !truncated && raw_fds@.len() <= max_fds ==> if exists|i: int|
            0 <= i < raw_fds@.len() && #[trigger] raw_fds@[i] < 0 {
            checked == Err::<(), CaptureTransferError>(CaptureTransferError::MissingPassedFd)
        } else {
            checked is Ok
        },
{
    if fd_bytes % fd_size != 0 {
        return Err(CaptureTransferError::MissingPassedFd);
    }
    if truncated {
        return Err(
            CaptureTransferError::FdPassing {
                operation: "recvmsg",
                message: String::from_str("ancillary data truncated (MSG_CTRUNC)"),
            },
        );
    }
    if raw_fds.len() > max_fds {
        let mut message = String::from_str("received ");
        let count = decimal_string(raw_fds.len() as u64);
        message.append(count.as_str());
        message.append(" fds, maximum is ");
        let maximum = decimal_string(max_fds as u64);
        message.append(maximum.as_str());
        return Err(CaptureTransferError::FdPassing { operation: "recvmsg", message });
    }
    let mut index: usize = 0;
    while index < raw_fds.len()
        invariant
            index <= raw_fds@.len(),
            forall|j: int| 0 <= j < index ==> raw_fds@[j] >= 0,
            fd_size > 0,
            fd_bytes % fd_size == 0,
            !truncated,
            raw_fds@.len() <= max_fds,
        decreases raw_fds@.len() - index,
    {
        if raw_fds[index] < 0 {
            return Err(CaptureTransferError::MissingPassedFd);
        }
        index = index + 1;
    }
    Ok(())
}

/// The descriptors of a rejected message that were installed in this
/// process and must be closed: the non-negative ones, in order.
pub open spec fn spec_installed_fds(raw_fds: Seq<i32>) -> Seq<i32> {
    raw_fds.filter(|fd: i32| fd >= 0)
}

pub fn installed_fds(raw_fds: &Vec<i32>) -> (installed: Vec<i32>)
    ensures
        installed@ == spec_installed_fds(raw_fds@),
{
    let mut installed: Vec<i32> = Vec::new();
    let mut index: usize = 0;
    while index < raw_fds.len()
        invariant
            index <= raw_fds@.len(),
            installed@ == spec_installed_fds(raw_fds@.subrange(0, index as int)),
        decreases raw_fds@.len() - index,
    {
        proof {
            let prefix = raw_fds@.subrange(0, index as int);
            assert(raw_fds@.subrange(0, index + 1) == prefix.push(raw_fds@[index as int]));
            prefix.lemma_filter_push(raw_fds@[index as int], |fd: i32| fd >= 0);
        }
        if raw_fds[index] >= 0 {
            installed.push(raw_fds[index]);
        }
        index = index + 1;
    }
    proof {
        assert(raw_fds@.subrange(0, raw_fds@.len() as int) == raw_fds@);
    }
    installed
}

/// The one descriptor a single-descriptor receive expects.
pub fn single_fd<T>(mut fds: Vec<T>) -> (fd: Result<T>)
    ensures
        fds@.len() == 1 ==> fd == Ok::<T, CaptureTransferError>(fds@[0]),
        fds@.len() != 1 ==> fd == Err::<T, CaptureTransferError>(CaptureTransferError::MissingPassedFd),
{
    if fds.len() != 1 {
        return Err(CaptureTransferError::MissingPassedFd);
    }
    Ok(fds.remove(0))
}

} // verus!
