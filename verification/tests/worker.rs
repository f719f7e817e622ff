use capture_transfer::worker::{
    authorize_helper, check_input_desktop, check_rdp_protocol, check_session_active, pipe_name, transfer_outcome,
    CommitExchange, ExchangeAction, ExchangeEvent, Identity, WorkerError,
};

#[test]
fn rejects_path_and_command_arguments_as_rendezvous() {
    for invalid in ["", "../worker", "abc /dest:console", "0000000000000000000000000000000g"] {
        assert!(pipe_name(invalid).is_err());
    }
    assert!(pipe_name("0123456789abcdef0123456789abcdef").is_ok());
}

#[test]
fn pipe_name_prefixes_the_nonce() {
    assert_eq!(
        pipe_name("0123456789ABCDEF0123456789abcdef").unwrap(),
        r"\\.\pipe\Porthole.ConsoleWorker.0123456789ABCDEF0123456789abcdef"
    );
    assert_eq!(pipe_name("0123456789abcdef0123456789abcde").unwrap_err(), WorkerError::InvalidRendezvousId);
    assert_eq!(WorkerError::InvalidRendezvousId.message(), "Invalid rendezvous ID");
}

fn identity(elevated: bool) -> Identity {
    Identity { user: "S-1-5-21-1".to_string(), logon: "S-1-5-5-0-1".to_string(), session: 2, elevated }
}

#[test]
fn helper_policy_rejects_user_logon_session_elevation_and_image_mismatch() {
    let helper = identity(false);
    let mut worker = identity(true);
    assert!(authorize_helper(&helper, true, &worker, true).is_ok());
    assert!(authorize_helper(&helper, false, &worker, true).is_err());
    assert!(authorize_helper(&helper, true, &worker, false).is_err());
    worker.session += 1;
    assert_eq!(authorize_helper(&helper, true, &worker, true), Err(WorkerError::HelperIdentityMismatch));
    worker.session = helper.session;
    worker.user.push('0');
    assert!(authorize_helper(&helper, true, &worker, true).is_err());
    worker.user = helper.user.clone();
    worker.logon.push('0');
    assert!(authorize_helper(&helper, true, &worker, true).is_err());
    worker.logon = helper.logon.clone();
    worker.elevated = false;
    assert!(authorize_helper(&helper, true, &worker, true).is_err());
    assert!(authorize_helper(&identity(true), true, &identity(true), true).is_err());
}

#[test]
fn handoff_runs_only_after_its_own_commit_and_a_second_validation() {
    for (commit, runs) in [(*b"CMT1", false), (*b"XXXX", false), (*b"CMT2", true)] {
        let (mut exchange, first) = CommitExchange::new(true);
        assert_eq!(first, ExchangeAction::Validate);
        assert_eq!(exchange.step(ExchangeEvent::Validated(true)), ExchangeAction::SendThenReceive(*b"RDY2"));
        let after_commit = exchange.step(ExchangeEvent::Received(commit));
        if !runs {
            assert_eq!(after_commit, ExchangeAction::Finish(Some(WorkerError::UnexpectedProtocolMessage)));
            continue;
        }
        assert_eq!(after_commit, ExchangeAction::Validate);
        assert_eq!(exchange.step(ExchangeEvent::Validated(true)), ExchangeAction::RunOperation);
        assert_eq!(exchange.step(ExchangeEvent::OperationDone(*b"DONE")), ExchangeAction::SendThenReceive(*b"DONE"));
        assert_eq!(exchange.step(ExchangeEvent::Received(*b"ACK1")), ExchangeAction::Finish(None));
        // Anything after the end only stops it again.
        assert_eq!(
            exchange.step(ExchangeEvent::Validated(true)),
            ExchangeAction::Finish(Some(WorkerError::UnexpectedProtocolMessage))
        );
    }
}

#[test]
fn failed_revalidation_never_runs_the_operation() {
    let (mut exchange, _) = CommitExchange::new(false);
    assert_eq!(exchange.step(ExchangeEvent::Validated(true)), ExchangeAction::SendThenReceive(*b"RDY1"));
    assert_eq!(exchange.step(ExchangeEvent::Received(*b"CMT1")), ExchangeAction::Validate);
    assert_eq!(exchange.step(ExchangeEvent::Validated(false)), ExchangeAction::Abort);
    let (mut exchange, _) = CommitExchange::new(false);
    assert_eq!(exchange.step(ExchangeEvent::Validated(false)), ExchangeAction::Abort);
}

#[test]
fn duplicate_commit_instead_of_ack_fails_the_exchange() {
    let (mut exchange, _) = CommitExchange::new(false);
    exchange.step(ExchangeEvent::Validated(true));
    exchange.step(ExchangeEvent::Received(*b"CMT1"));
    exchange.step(ExchangeEvent::Validated(true));
    exchange.step(ExchangeEvent::OperationDone(*b"DONE"));
    assert_eq!(
        exchange.step(ExchangeEvent::Received(*b"CMT1")),
        ExchangeAction::Finish(Some(WorkerError::UnexpectedProtocolMessage))
    );
}

fn utf16(text: &str) -> Vec<u16> {
    text.encode_utf16().collect()
}

#[test]
fn console_transfer_needs_an_active_unlocked_rdp_session() {
    assert_eq!(check_rdp_protocol(2, 2), Ok(()));
    assert_eq!(check_rdp_protocol(2, 0), Err(WorkerError::RdpSessionRequired));
    assert_eq!(check_rdp_protocol(1, 2), Err(WorkerError::RdpSessionRequired));
    assert_eq!(check_session_active(4, 0), Ok(()));
    assert_eq!(check_session_active(4, 4), Err(WorkerError::SessionNotActive));
    assert_eq!(check_session_active(2, 0), Err(WorkerError::SessionNotActive));

    let mut buffer = utf16("Default");
    buffer.extend([0, 0x57, 0]);
    assert_eq!(check_input_desktop(true, &buffer), Ok(()));
    assert_eq!(check_input_desktop(true, &utf16("Default")), Ok(()));
    assert_eq!(check_input_desktop(false, &buffer), Err(WorkerError::UnlockedDesktopRequired));
    let mut winlogon = utf16("Winlogon");
    winlogon.push(0);
    assert_eq!(check_input_desktop(true, &winlogon), Err(WorkerError::UnlockedDesktopRequired));
    assert_eq!(check_input_desktop(true, &utf16("Defaults")), Err(WorkerError::UnlockedDesktopRequired));
    assert_eq!(WorkerError::UnlockedDesktopRequired.message(), "Unlocked input desktop required");
}

#[test]
fn transfer_answers_done_fail_or_unknown() {
    assert_eq!(transfer_outcome(Some(true), false), Some(*b"DONE"));
    assert_eq!(transfer_outcome(Some(false), true), Some(*b"FAIL"));
    assert_eq!(transfer_outcome(None, true), Some(*b"UNKN"));
    assert_eq!(transfer_outcome(None, false), None);
}
