use crownlines::connection_worker::{
    InboundKind, InboundMessage, InboundReport, SessionDecision, SessionFailure, SocketOutcome,
    SocketStep, TargetChange, VaultWork, WaitDecision, WorkerCommand, WorkerNotice, WorkerReport,
    WorkerState, idle_vault_work, inbound, notice_text, session_command, session_end,
    session_failure,
};
use crownlines::connections::{ConnectionState, ErrorCode, RematchState};
use crownlines::online_connection::{CommandFailure, ConnectionPhase};

const VERSION: u16 = 1;

fn frame(kind: InboundKind) -> Option<InboundMessage> {
    Some(InboundMessage { protocol_version: VERSION, kind })
}

#[test]
fn idle_commands_ask_the_credential_store_only_when_needed() {
    assert_eq!(idle_vault_work(WorkerCommand::Connect { persist: true }), VaultWork::Store);
    assert_eq!(idle_vault_work(WorkerCommand::Connect { persist: false }), VaultWork::Nothing);
    assert_eq!(idle_vault_work(WorkerCommand::Restore), VaultWork::Load);
    assert_eq!(idle_vault_work(WorkerCommand::Forget), VaultWork::Delete);
    assert_eq!(idle_vault_work(WorkerCommand::Ready), VaultWork::Nothing);
    assert_eq!(idle_vault_work(WorkerCommand::Cancel), VaultWork::Nothing);
}

#[test]
fn a_new_seat_connects_even_when_its_credential_is_not_stored() {
    let mut state = WorkerState::new();
    let outcome = state.apply_idle(WorkerCommand::Connect { persist: true }, false);
    assert_eq!(
        outcome.reports,
        vec![WorkerReport::Notice(WorkerNotice::CredentialNotStored)]
    );
    assert_eq!(outcome.target, TargetChange::Replace);
    assert!(outcome.connect);
    assert!(state.has_target);

    let mut stored = WorkerState::new();
    let outcome = stored.apply_idle(WorkerCommand::Connect { persist: true }, true);
    assert_eq!(outcome.reports, vec![WorkerReport::Persisted]);
    assert!(outcome.connect);

    let mut unsaved = WorkerState::new();
    let outcome = unsaved.apply_idle(WorkerCommand::Connect { persist: false }, false);
    assert!(outcome.reports.is_empty());
    assert!(outcome.connect);
}

#[test]
fn an_unavailable_saved_credential_is_rejected_without_connecting() {
    let mut state = WorkerState::new();
    let outcome = state.apply_idle(WorkerCommand::Restore, false);
    assert_eq!(
        outcome.reports,
        vec![
            WorkerReport::Phase(ConnectionPhase::Rejected),
            WorkerReport::Notice(WorkerNotice::CredentialUnavailable),
        ]
    );
    assert_eq!(outcome.target, TargetChange::Keep);
    assert!(!outcome.connect);
    assert!(!state.has_target);

    let outcome = state.apply_idle(WorkerCommand::Restore, true);
    assert_eq!(outcome.reports, vec![WorkerReport::Restored]);
    assert!(outcome.connect);
    assert!(state.has_target);

    let outcome = state.apply_idle(WorkerCommand::Forget, true);
    assert_eq!(outcome.reports, vec![WorkerReport::Forgotten]);
    assert_eq!(outcome.target, TargetChange::Clear);
    assert!(!state.has_target);

    let outcome = state.apply_idle(WorkerCommand::Action, true);
    assert!(outcome.reports.is_empty());
    assert!(!outcome.connect);
}

#[test]
fn dropped_connections_count_up_until_a_retry() {
    let mut state = WorkerState { has_target: true, retry_attempt: 0 };
    assert_eq!(state.after_socket(SocketOutcome::Transient), SocketStep::Wait { attempt: 1 });
    assert_eq!(state.after_socket(SocketOutcome::Transient), SocketStep::Wait { attempt: 2 });
    assert!(state.has_target);
    assert_eq!(state.wait_command(WorkerCommand::Retry), WaitDecision::RetryNow);
    assert_eq!(state, WorkerState { has_target: true, retry_attempt: 0 });

    let mut saturated = WorkerState { has_target: true, retry_attempt: u32::MAX };
    assert_eq!(
        saturated.after_socket(SocketOutcome::Transient),
        SocketStep::Wait { attempt: u32::MAX }
    );

    let mut retried = WorkerState { has_target: true, retry_attempt: 5 };
    assert_eq!(retried.after_socket(SocketOutcome::RetryNow), SocketStep::Reconnect);
    assert_eq!(retried, WorkerState { has_target: true, retry_attempt: 0 });
}

#[test]
fn stopped_sessions_forget_the_target() {
    let mut cancelled = WorkerState { has_target: true, retry_attempt: 3 };
    assert_eq!(
        cancelled.after_socket(SocketOutcome::Cancelled),
        SocketStep::Stopped(WorkerReport::Phase(ConnectionPhase::Offline))
    );
    assert_eq!(cancelled, WorkerState { has_target: false, retry_attempt: 0 });

    let mut rejected = WorkerState { has_target: true, retry_attempt: 3 };
    assert_eq!(
        rejected.after_socket(SocketOutcome::Rejected),
        SocketStep::Stopped(WorkerReport::Phase(ConnectionPhase::Rejected))
    );
    assert!(!rejected.has_target);

    let mut switched = WorkerState { has_target: true, retry_attempt: 3 };
    assert_eq!(
        switched.after_socket(SocketOutcome::Switch(WorkerCommand::Restore)),
        SocketStep::Switch(WorkerCommand::Restore)
    );
    assert_eq!(switched, WorkerState { has_target: false, retry_attempt: 0 });
}

#[test]
fn commands_while_waiting_to_reconnect() {
    let mut state = WorkerState { has_target: true, retry_attempt: 2 };
    assert_eq!(state.wait_command(WorkerCommand::Action), WaitDecision::KeepWaiting);
    assert_eq!(state.wait_command(WorkerCommand::Control), WaitDecision::KeepWaiting);
    assert_eq!(state, WorkerState { has_target: true, retry_attempt: 2 });
    assert_eq!(
        state.wait_command(WorkerCommand::Ready),
        WaitDecision::Idle(WorkerCommand::Ready)
    );

    let mut leaving = state;
    assert_eq!(
        leaving.wait_command(WorkerCommand::LeaveAndForget { has_saved: true }),
        WaitDecision::Stop { delete_saved: true, report: WorkerReport::Forgotten }
    );
    assert_eq!(leaving, WorkerState { has_target: false, retry_attempt: 2 });

    let mut cancelling = state;
    assert_eq!(
        cancelling.wait_command(WorkerCommand::Cancel),
        WaitDecision::Stop {
            delete_saved: false,
            report: WorkerReport::Phase(ConnectionPhase::Offline),
        }
    );
    assert!(!cancelling.has_target);

    let mut switching = state;
    let outcome = switching.apply_idle_while_waiting(WorkerCommand::Connect { persist: false }, true);
    assert!(outcome.connect);
    assert_eq!(switching, WorkerState { has_target: true, retry_attempt: 0 });

    let mut failed_restore = state;
    let outcome = failed_restore.apply_idle_while_waiting(WorkerCommand::Restore, false);
    assert!(!outcome.connect);
    assert_eq!(failed_restore, WorkerState { has_target: true, retry_attempt: 2 });
}

#[test]
fn commands_during_a_session() {
    assert_eq!(session_command(WorkerCommand::Ready), SessionDecision::Send);
    assert_eq!(session_command(WorkerCommand::Action), SessionDecision::Send);
    assert_eq!(session_command(WorkerCommand::Control), SessionDecision::Send);
    assert_eq!(
        session_command(WorkerCommand::LeaveAndForget { has_saved: false }),
        SessionDecision::Leave { delete_saved: false }
    );
    assert_eq!(session_command(WorkerCommand::Forget), SessionDecision::Forget);
    assert_eq!(
        session_command(WorkerCommand::Retry),
        SessionDecision::End(SocketOutcome::RetryNow)
    );
    assert_eq!(
        session_command(WorkerCommand::Cancel),
        SessionDecision::End(SocketOutcome::Cancelled)
    );
    assert_eq!(
        session_command(WorkerCommand::Connect { persist: true }),
        SessionDecision::End(SocketOutcome::Switch(WorkerCommand::Connect { persist: true }))
    );

    assert_eq!(session_end(SessionDecision::Send, true), None);
    assert_eq!(session_end(SessionDecision::Send, false), Some(SocketOutcome::Transient));
    assert_eq!(
        session_end(SessionDecision::Leave { delete_saved: true }, false),
        Some(SocketOutcome::Cancelled)
    );
    assert_eq!(session_end(SessionDecision::Forget, true), Some(SocketOutcome::Cancelled));
}

#[test]
fn only_an_invalid_address_ends_the_session_for_good() {
    assert_eq!(
        session_failure(SessionFailure::InvalidAddress),
        (Some(WorkerNotice::InvalidServerAddress), SocketOutcome::Rejected)
    );
    assert_eq!(session_failure(SessionFailure::ConnectFailed), (None, SocketOutcome::Transient));
    assert_eq!(session_failure(SessionFailure::SendFailed), (None, SocketOutcome::Transient));
    assert_eq!(session_failure(SessionFailure::Closed), (None, SocketOutcome::Transient));
    assert_eq!(
        notice_text(WorkerNotice::InvalidServerAddress),
        "The saved server address is invalid or insecure."
    );
}

#[test]
fn undecodable_or_foreign_frames_close_the_session() {
    assert_eq!(
        inbound(&None, VERSION),
        (vec![InboundReport::Notice(WorkerNotice::IncompatibleMessage)], false)
    );
    let foreign = Some(InboundMessage { protocol_version: 2, kind: InboundKind::Snapshot });
    assert_eq!(
        inbound(&foreign, VERSION),
        (vec![InboundReport::Notice(WorkerNotice::IncompatibleProtocol)], false)
    );
    assert_eq!(
        notice_text(WorkerNotice::IncompatibleProtocol),
        "The client and server protocol versions are incompatible."
    );
}

#[test]
fn frames_report_connected_then_their_content() {
    let connected = InboundReport::Phase(ConnectionPhase::Connected);
    assert_eq!(
        inbound(&frame(InboundKind::Snapshot), VERSION),
        (vec![connected, InboundReport::Snapshot], true)
    );
    assert_eq!(
        inbound(&frame(InboundKind::Acknowledgement), VERSION),
        (vec![connected, InboundReport::Acknowledgement, InboundReport::Snapshot], true)
    );
    assert_eq!(
        inbound(&frame(InboundKind::RoomState(ConnectionState::Finished)), VERSION),
        (
            vec![
                connected,
                InboundReport::RoomState(ConnectionState::Finished),
                InboundReport::Phase(ConnectionPhase::Terminal),
            ],
            true
        )
    );
    assert_eq!(
        inbound(&frame(InboundKind::RoomState(ConnectionState::OpponentDisconnected)), VERSION),
        (vec![connected, InboundReport::RoomState(ConnectionState::OpponentDisconnected)], true)
    );
    assert_eq!(
        inbound(&frame(InboundKind::Rematch(RematchState::Declined)), VERSION),
        (vec![connected, InboundReport::RematchState(RematchState::Declined)], true)
    );
}

#[test]
fn refused_commands_and_refused_credentials() {
    let connected = InboundReport::Phase(ConnectionPhase::Connected);
    let refused_seat = frame(InboundKind::Error {
        code: ErrorCode::Unauthorized,
        message: "Seat credential rejected.".to_owned(),
        retryable: false,
        has_snapshot: false,
    });
    assert_eq!(
        inbound(&refused_seat, VERSION),
        (vec![connected, InboundReport::Notice(WorkerNotice::CredentialRejected)], false)
    );
    let wrong_turn = frame(InboundKind::Error {
        code: ErrorCode::Unauthorized,
        message: "Not your turn.".to_owned(),
        retryable: false,
        has_snapshot: true,
    });
    assert_eq!(
        inbound(&wrong_turn, VERSION),
        (
            vec![
                connected,
                InboundReport::Snapshot,
                InboundReport::CommandRejected { failure: CommandFailure::WrongTurn, retryable: false },
            ],
            true
        )
    );
    let clock = frame(InboundKind::Error {
        code: ErrorCode::InvalidAction,
        message: "Clock expired.".to_owned(),
        retryable: true,
        has_snapshot: false,
    });
    assert_eq!(
        inbound(&clock, VERSION),
        (
            vec![
                connected,
                InboundReport::CommandRejected {
                    failure: CommandFailure::ClockExpired,
                    retryable: true,
                },
            ],
            true
        )
    );
}
