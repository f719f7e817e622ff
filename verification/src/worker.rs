//! The console worker's decisions: which rendezvous names it accepts, which
//! helper it trusts, and the commit exchange that runs the hand-off at most
//! once. Pipes, tokens and processes are the host's side.

use vstd::prelude::*;
use vstd::string::*;

verus! {

/// Why the worker refuses to go on; each kind is an I/O error kind of the
/// host (invalid input, permission denied, invalid data).
#[derive(Debug, Clone, Copy, PartialEq, Eq, Structural)]
pub enum WorkerError {
    InvalidRendezvousId,
    UnexpectedPipeClient,
    HelperIdentityMismatch,
    UnexpectedProtocolMessage,
    RdpSessionRequired,
    SessionNotActive,
    UnlockedDesktopRequired,
}

impl WorkerError {
    pub fn message(self) -> (text: &'static str)
        ensures
            text@ == spec_worker_error_message(self),
    {
        match self {
            WorkerError::InvalidRendezvousId => "Invalid rendezvous ID",
            WorkerError::UnexpectedPipeClient => "Unexpected pipe client",
            WorkerError::HelperIdentityMismatch => "Helper identity mismatch",
            WorkerError::UnexpectedProtocolMessage => "Unexpected protocol message",
            WorkerError::RdpSessionRequired => "Active RDP session required",
            WorkerError::SessionNotActive => "Session is not active",
            WorkerError::UnlockedDesktopRequired => "Unlocked input desktop required",
        }
    }
}

pub open spec fn spec_worker_error_message(error: WorkerError) -> Seq<char> {
    match error {
        WorkerError::InvalidRendezvousId => "Invalid rendezvous ID"@,
        WorkerError::UnexpectedPipeClient => "Unexpected pipe client"@,
        WorkerError::HelperIdentityMismatch => "Helper identity mismatch"@,
        WorkerError::UnexpectedProtocolMessage => "Unexpected protocol message"@,
        WorkerError::RdpSessionRequired => "Active RDP session required"@,
        WorkerError::SessionNotActive => "Session is not active"@,
        WorkerError::UnlockedDesktopRequired => "Unlocked input desktop required"@,
    }
}

/// Whether `byte` is an ASCII hexadecimal digit.
pub open spec fn spec_is_hex_digit(byte: u8) -> bool {
    ||| 0x30 <= byte <= 0x39
    ||| 0x41 <= byte <= 0x46
    ||| 0x61 <= byte <= 0x66
}

/// The prefix of every rendezvous pipe name.
pub open spec fn spec_pipe_prefix() -> Seq<char> {
    "\\\\.\\pipe\\Porthole.ConsoleWorker."@
}

/// The named pipe a 32-hex-digit rendezvous nonce stands for; anything else
/// (paths, command words) is refused.
pub fn pipe_name(nonce: &str) -> (name: Result<String, WorkerError>)
    ensures
        match name {
            Ok(name) => {
                &&& nonce.spec_bytes().len() == 32
                &&& forall|i: int| 0 <= i < 32 ==> spec_is_hex_digit(#[trigger] nonce.spec_bytes()[i])
                &&& name@ == spec_pipe_prefix() + nonce@
            },
            Err(error) => {
                &&& error == WorkerError::InvalidRendezvousId
                &&& !(nonce.spec_bytes().len() == 32 && forall|i: int|
                    0 <= i < 32 ==> spec_is_hex_digit(#[trigger] nonce.spec_bytes()[i]))
            },
        },
{
    let bytes = nonce.as_bytes();
    if bytes.len() != 32 {
        return Err(WorkerError::InvalidRendezvousId);
    }
    let mut index: usize = 0;
    while index < 32
        invariant
            bytes@ == nonce.spec_bytes(),
            bytes@.len() == 32,
            index <= 32,
            forall|i: int| 0 <= i < index ==> spec_is_hex_digit(#[trigger] bytes@[i]),
        decreases 32 - index,
    {
        let byte = bytes[index];
        let hex = (0x30 <= byte && byte <= 0x39) || (0x41 <= byte && byte <= 0x46) || (0x61 <= byte && byte <= 0x66);
        if !hex {
            return Err(WorkerError::InvalidRendezvousId);
        }
        index = index + 1;
    }
    let mut name = String::from_str("\\\\.\\pipe\\Porthole.ConsoleWorker.");
    name.append(nonce);
    Ok(name)
}

/// Who a process is, as its token says.
#[derive(Debug, PartialEq)]
pub struct Identity {
    pub user: String,
    pub logon: String,
    pub session: u32,
    pub elevated: bool,
}

/// Whether an unelevated helper may hand work to an elevated worker: the
/// helper is alive and runs the expected image, and both are the same user,
/// logon and session.
pub open spec fn spec_helper_trusted(helper: Identity, helper_alive: bool, worker: Identity, image_matches: bool) -> bool {
    &&& helper_alive
    &&& !helper.elevated
    &&& worker.elevated
    &&& helper.user@ == worker.user@
    &&& helper.logon@ == worker.logon@
    &&& helper.session == worker.session
    &&& image_matches
}

/// The helper policy: refuse unless the helper is trusted.
pub fn authorize_helper(
    helper: &Identity,
    helper_alive: bool,
    worker: &Identity,
    image_matches: bool,
) -> (authorized: Result<(), WorkerError>)
    ensures
        authorized is Ok <==> spec_helper_trusted(*helper, helper_alive, *worker, image_matches),
        authorized is Err ==> authorized == Err::<(), WorkerError>(WorkerError::HelperIdentityMismatch),
{
    if !helper_alive || helper.elevated || !worker.elevated || !crate::text::same_text(
        helper.user.as_str(),
        worker.user.as_str(),
    ) || !crate::text::same_text(helper.logon.as_str(), worker.logon.as_str()) || helper.session != worker.session
        || !image_matches {
        return Err(WorkerError::HelperIdentityMismatch);
    }
    Ok(())
}

/// Where a commit exchange stands.
#[derive(Debug, Clone, Copy, PartialEq, Eq, Structural)]
pub enum ExchangeState {
    /// Validating before announcing readiness.
    Validating,
    /// Readiness sent; waiting for the matching commit.
    AwaitingCommit,
    /// Commit received; validating again before acting.
    Revalidating,
    /// The operation is running.
    Operating,
    /// The operation's result is sent; waiting for the acknowledgement.
    AwaitingAck,
    /// The exchange ended.
    Finished,
}

/// What the host reports back to the exchange.
#[derive(Debug, Clone, Copy, PartialEq, Eq)]
pub enum ExchangeEvent {
    /// The validation ran, passing or not.
    Validated(bool),
    /// A four-byte message arrived.
    Received([u8; 4]),
    /// The operation finished with its four-byte result.
    OperationDone([u8; 4]),
}

/// What the host does next.
#[derive(Debug, Clone, Copy, PartialEq, Eq)]
pub enum ExchangeAction {
    /// Run the validation and report `Validated`.
    Validate,
    /// Write these four bytes, then read four and report `Received`.
    SendThenReceive([u8; 4]),
    /// Run the operation and report `OperationDone`.
    RunOperation,
    /// Stop: the exchange completed, or failed with this error.
    Finish(Option<WorkerError>),
    /// Stop: the validation failed; its own error stands.
    Abort,
}

/// The commit exchange around one privileged operation. `transfer` selects
/// the console-transfer message pair (`RDY2`/`CMT2`) over the probe pair.
#[derive(Debug)]
pub struct CommitExchange {
    transfer: bool,
    state: ExchangeState,
}

/// Progress of a state: every step strictly advances it.
pub open spec fn spec_exchange_rank(state: ExchangeState) -> int {
    match state {
        ExchangeState::Validating => 0,
        ExchangeState::AwaitingCommit => 1,
        ExchangeState::Revalidating => 2,
        ExchangeState::Operating => 3,
        ExchangeState::AwaitingAck => 4,
        ExchangeState::Finished => 5,
    }
}

pub open spec fn spec_ready_message(transfer: bool) -> [u8; 4] {
    if transfer {
        [0x52, 0x44, 0x59, 0x32]
    } else {
        [0x52, 0x44, 0x59, 0x31]
    }
}

pub open spec fn spec_commit_message(transfer: bool) -> [u8; 4] {
    if transfer {
        [0x43, 0x4d, 0x54, 0x32]
    } else {
        [0x43, 0x4d, 0x54, 0x31]
    }
}

pub open spec fn spec_ack_message() -> [u8; 4] {
    [0x41, 0x43, 0x4b, 0x31]
}

/// The next state and action of an exchange in `state` on `event`.
pub open spec fn spec_exchange_step(transfer: bool, state: ExchangeState, event: ExchangeEvent) -> (ExchangeState, ExchangeAction) {
    match (state, event) {
        (ExchangeState::Validating, ExchangeEvent::Validated(true)) => (
            ExchangeState::AwaitingCommit,
            ExchangeAction::SendThenReceive(spec_ready_message(transfer)),
        ),
        (ExchangeState::AwaitingCommit, ExchangeEvent::Received(message)) => if message == spec_commit_message(
            transfer,
        ) {
            (ExchangeState::Revalidating, ExchangeAction::Validate)
        } else {
            (ExchangeState::Finished, ExchangeAction::Finish(Some(WorkerError::UnexpectedProtocolMessage)))
        },
        (ExchangeState::Revalidating, ExchangeEvent::Validated(true)) => (
            ExchangeState::Operating,
            ExchangeAction::RunOperation,
        ),
        (ExchangeState::Operating, ExchangeEvent::OperationDone(result)) => (
            ExchangeState::AwaitingAck,
            ExchangeAction::SendThenReceive(result),
        ),
        (ExchangeState::AwaitingAck, ExchangeEvent::Received(message)) => if message == spec_ack_message() {
            (ExchangeState::Finished, ExchangeAction::Finish(None))
        } else {
            (ExchangeState::Finished, ExchangeAction::Finish(Some(WorkerError::UnexpectedProtocolMessage)))
        },
        (ExchangeState::Validating, ExchangeEvent::Validated(false)) => (
            ExchangeState::Finished,
            ExchangeAction::Abort,
        ),
        (ExchangeState::Revalidating, ExchangeEvent::Validated(false)) => (
            ExchangeState::Finished,
            ExchangeAction::Abort,
        ),
        _ => (ExchangeState::Finished, ExchangeAction::Finish(Some(WorkerError::UnexpectedProtocolMessage))),
    }
}

fn same_message(a: [u8; 4], b: [u8; 4]) -> (same: bool)
    ensures
        same == (a == b),
{
    let same = a[0] == b[0] && a[1] == b[1] && a[2] == b[2] && a[3] == b[3];
    proof {
        broadcast use vstd::array::axiom_array_ext_equal;

        if same {
            assert(a =~= b);
        }
    }
    same
}

impl CommitExchange {
    pub closed spec fn transfer_view(&self) -> bool {
        self.transfer
    }

    pub closed spec fn state_view(&self) -> ExchangeState {
        self.state
    }

    /// A fresh exchange; the host validates first.
    pub fn new(transfer: bool) -> (started: (Self, ExchangeAction))
        ensures
            started.0.transfer_view() == transfer,
            started.0.state_view() == ExchangeState::Validating,
            started.1 == ExchangeAction::Validate,
    {
        (CommitExchange { transfer, state: ExchangeState::Validating }, ExchangeAction::Validate)
    }

    /// Advance on `event` and say what the host does next.
    pub fn step(&mut self, event: ExchangeEvent) -> (action: ExchangeAction)
        ensures
            final(self).transfer_view() == old(self).transfer_view(),
            (final(self).state_view(), action) == spec_exchange_step(
                old(self).transfer_view(),
                old(self).state_view(),
                event,
            ),
    {
        let ready: [u8; 4] = if self.transfer {
            [0x52, 0x44, 0x59, 0x32]
        } else {
            [0x52, 0x44, 0x59, 0x31]
        };
        let commit: [u8; 4] = if self.transfer {
            [0x43, 0x4d, 0x54, 0x32]
        } else {
            [0x43, 0x4d, 0x54, 0x31]
        };
        let ack: [u8; 4] = [0x41, 0x43, 0x4b, 0x31];
        proof {
            assert(ready == spec_ready_message(self.transfer));
            assert(commit == spec_commit_message(self.transfer));
            assert(ack == spec_ack_message());
        }
        let (state, action) = match (self.state, event) {
            (ExchangeState::Validating, ExchangeEvent::Validated(true)) => (
                ExchangeState::AwaitingCommit,
                ExchangeAction::SendThenReceive(ready),
            ),
            (ExchangeState::AwaitingCommit, ExchangeEvent::Received(message)) => if same_message(message, commit) {
                (ExchangeState::Revalidating, ExchangeAction::Validate)
            } else {
                (ExchangeState::Finished, ExchangeAction::Finish(Some(WorkerError::UnexpectedProtocolMessage)))
            },
            (ExchangeState::Revalidating, ExchangeEvent::Validated(true)) => (
                ExchangeState::Operating,
                ExchangeAction::RunOperation,
            ),
            (ExchangeState::Operating, ExchangeEvent::OperationDone(result)) => (
                ExchangeState::AwaitingAck,
                ExchangeAction::SendThenReceive(result),
            ),
            (ExchangeState::AwaitingAck, ExchangeEvent::Received(message)) => if same_message(message, ack) {
                (ExchangeState::Finished, ExchangeAction::Finish(None))
            } else {
                (ExchangeState::Finished, ExchangeAction::Finish(Some(WorkerError::UnexpectedProtocolMessage)))
            },
            (ExchangeState::Validating, ExchangeEvent::Validated(false)) => (
                ExchangeState::Finished,
                ExchangeAction::Abort,
            ),
            (ExchangeState::Revalidating, ExchangeEvent::Validated(false)) => (
                ExchangeState::Finished,
                ExchangeAction::Abort,
            ),
            _ => (ExchangeState::Finished, ExchangeAction::Finish(Some(WorkerError::UnexpectedProtocolMessage))),
        };
        self.state = state;
        action
    }
}

/// Law: every step of an exchange strictly advances it, so no state is
/// entered twice: the operation runs at most once per exchange.
pub proof fn law_exchange_advances(transfer: bool, state: ExchangeState, event: ExchangeEvent)
    requires
        state != ExchangeState::Finished,
    ensures
        spec_exchange_rank(spec_exchange_step(transfer, state, event).0) > spec_exchange_rank(state),
{
}

/// Law: the operation runs only on a passing validation that follows the
/// exchange's own commit message; an exchange that is finished never asks
/// for anything but to stop.
pub proof fn law_operation_needs_commit_and_revalidation(transfer: bool, state: ExchangeState, event: ExchangeEvent)
    ensures
        spec_exchange_step(transfer, state, event).1 == ExchangeAction::RunOperation <==> (state
            == ExchangeState::Revalidating && event == ExchangeEvent::Validated(true)),
        spec_exchange_step(transfer, state, event).0 == ExchangeState::Revalidating <==> (state
            == ExchangeState::AwaitingCommit && event == ExchangeEvent::Received(spec_commit_message(transfer))),
{
}

/// The `WTSClientProtocolType` value of an RDP client.
pub const WTS_PROTOCOL_RDP: u16 = 2;
/// The `WTSConnectState` value of an active session.
pub const WTS_STATE_ACTIVE: u32 = 0;

/// The session query answered with `size` bytes whose first word is
/// `protocol`: the hand-off needs an RDP session.
pub fn check_rdp_protocol(size: u32, protocol: u16) -> (checked: Result<(), WorkerError>)
    ensures
        checked is Ok <==> size >= 2 && protocol == WTS_PROTOCOL_RDP,
        checked is Err ==> checked == Err::<(), WorkerError>(WorkerError::RdpSessionRequired),
{
    if size >= 2 && protocol == WTS_PROTOCOL_RDP {
        Ok(())
    } else {
        Err(WorkerError::RdpSessionRequired)
    }
}

/// The connect-state query answered with `size` bytes holding `state`: the
/// session must be active.
pub fn check_session_active(size: u32, state: u32) -> (checked: Result<(), WorkerError>)
    ensures
        checked is Ok <==> size >= 4 && state == WTS_STATE_ACTIVE,
        checked is Err ==> checked == Err::<(), WorkerError>(WorkerError::SessionNotActive),
{
    if size >= 4 && state == WTS_STATE_ACTIVE {
        Ok(())
    } else {
        Err(WorkerError::SessionNotActive)
    }
}

/// The UTF-16 units of the unlocked input desktop's name.
pub open spec fn spec_default_desktop() -> Seq<u16> {
    seq![0x44u16, 0x65u16, 0x66u16, 0x61u16, 0x75u16, 0x6cu16, 0x74u16]
}

/// The units of a NUL-terminated name buffer before its first NUL (all of
/// them when there is none).
pub open spec fn spec_until_nul(name: Seq<u16>) -> Seq<u16> {
    if exists|i: int| 0 <= i < name.len() && name[i] == 0 {
        name.take(choose|i: int| 0 <= i < name.len() && name[i] == 0 && forall|j: int| 0 <= j < i ==> name[j] != 0)
    } else {
        name
    }
}

/// The input desktop query succeeded (`queried`) and named the "Default"
/// desktop, i.e. the input desktop is not the lock screen.
pub fn check_input_desktop(queried: bool, name: &[u16]) -> (checked: Result<(), WorkerError>)
    ensures
        checked is Ok <==> queried && spec_until_nul(name@) == spec_default_desktop(),
        checked is Err ==> checked == Err::<(), WorkerError>(WorkerError::UnlockedDesktopRequired),
{
    let mut end: usize = 0;
    while end < name.len() && name[end] != 0
        invariant
            end <= name@.len(),
            forall|j: int| 0 <= j < end ==> name@[j] != 0,
        decreases name@.len() - end,
    {
        end = end + 1;
    }
    proof {
        if end < name@.len() {
            assert(name@[end as int] == 0);
            let first = choose|i: int| 0 <= i < name@.len() && name@[i] == 0 && forall|j: int| 0 <= j < i ==> name@[j] != 0;
            assert(first == end) by {
                if first < end {
                    assert(name@[first] != 0);
                }
                if first > end {
                    assert(name@[end as int] != 0);
                }
            }
            assert(spec_until_nul(name@) == name@.take(end as int));
        } else {
            assert(!(exists|i: int| 0 <= i < name@.len() && name@[i] == 0));
            assert(name@.take(end as int) =~= name@);
        }
    }
    let expected: [u16; 7] = [0x44, 0x65, 0x66, 0x61, 0x75, 0x6c, 0x74];
    let mut matches = queried && end == 7;
    if matches {
        let mut index: usize = 0;
        while index < 7
            invariant
                end == 7,
                end <= name@.len(),
                index <= 7,
                expected@ == spec_default_desktop(),
                matches == (forall|j: int| 0 <= j < index ==> name@[j] == expected@[j]),
            decreases 7 - index,
        {
            matches = matches && name[index] == expected[index];
            index = index + 1;
        }
        proof {
            if matches {
                assert(name@.take(7) =~= spec_default_desktop());
            } else {
                let k = choose|j: int| 0 <= j < 7 && name@[j] != expected@[j];
                assert(name@.take(7)[k] != spec_default_desktop()[k]);
            }
        }
    }
    if matches {
        Ok(())
    } else {
        Err(WorkerError::UnlockedDesktopRequired)
    }
}

/// The answer the hand-off sends for the console transfer it started:
/// "DONE" or "FAIL" once the transfer exited, "UNKN" when the wait expired
/// first (the transfer may still take effect), or `None` to keep waiting.
pub fn transfer_outcome(exited: Option<bool>, expired: bool) -> (outcome: Option<[u8; 4]>)
    ensures
        outcome == match exited {
            Some(success) => Some(if success {
                [0x44u8, 0x4fu8, 0x4eu8, 0x45u8]
            } else {
                [0x46u8, 0x41u8, 0x49u8, 0x4cu8]
            }),
            None => if expired {
                Some([0x55u8, 0x4eu8, 0x4bu8, 0x4eu8])
            } else {
                None::<[u8; 4]>
            },
        },
{
    match exited {
        Some(success) => Some(if success {
            [0x44, 0x4f, 0x4e, 0x45]
        } else {
            [0x46, 0x41, 0x49, 0x4c]
        }),
        None => if expired {
            Some([0x55, 0x4e, 0x4b, 0x4e])
        } else {
            None
        },
    }
}

} // verus!
