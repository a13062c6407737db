use crownlines::ai_supervisor::{AiSupervisor, SnapshotKey, WorkerMessage, thinking_message};
use crownlines::connections::{ConnectionState, DrawCommand, ErrorCode, RematchCommand, RematchState};
use crownlines::lifecycle::{ClientFlow, LifecycleKeys};
use crownlines::online_connection::{
    ActionTarget, CommandFailure, ConnectionEvent, ConnectionPhase, ControlTarget,
    OnlineConnection, OnlineControlKind, PendingAction, PendingControl, RetryRequest, SnapshotDisposition, SnapshotIdentity,
    SnapshotReport, classify_command_failure, classify_snapshot, retry_base_delay_millis,
};
use crownlines::online_lifecycle::{
    ControlRequest, LifecycleControls, MatchView, OnlineLifecycleState, active_controls,
    resignation_available, terminal_controls,
};
use crownlines::online_lobby::{
    LobbyReply, judge_lobby_reply, LobbyInput, LobbyResponse, LobbyScreen, LobbySubmission, OnlineLobby, OnlineSeat,
    ProtocolError, decode_public_server_error, http_endpoint, normalize_room_code,
    room_share_text, safe_protocol_error, shareable_server_address, validate_response_version,
    websocket_endpoint,
};
use crownlines::panels::{clock_running, connection_phase_label, room_state_label};
use crownlines::rooms::Player;

fn identity(match_id: u128, revision: u64, hash: &str) -> SnapshotIdentity {
    SnapshotIdentity {
        match_id,
        scenario_id: "crownlines-standard".to_owned(),
        revision,
        state_hash: hash.to_owned(),
    }
}

fn report(match_id: u128, revision: u64, hash: &str, displayed: Option<&str>) -> SnapshotReport {
    SnapshotReport {
        identity: identity(match_id, revision, hash),
        valid: true,
        scenario_check: Ok(()),
        displayed_state_hash: displayed.map(str::to_owned),
        room_finished: false,
        has_outcome: false,
        rematch_state: None,
    }
}

fn lobby() -> OnlineLobby {
    OnlineLobby {
        screen: LobbyScreen::Closed,
        server_url: "ws://127.0.0.1:5000".to_owned(),
        player_name: "Player".to_owned(),
        room_code: String::new(),
        selected_scenario: 1,
        clock: None,
        share_server_address: false,
        request_pending: false,
        ready_requested: false,
        status: String::new(),
        seat: None,
    }
}

fn no_lifecycle_keys() -> LifecycleKeys {
    LifecycleKeys {
        previous_scenario: false,
        next_scenario: false,
        toggle_clock: false,
        base_down: false,
        base_up: false,
        increment_down: false,
        increment_up: false,
        swap_names: false,
        start_local: false,
        pause: false,
        resign: false,
        offer_draw: false,
        accept_draw: false,
        decline_draw: false,
        escape: false,
        enter: false,
        rematch: false,
    }
}

fn no_lobby_input() -> LobbyInput {
    LobbyInput {
        open_online: false,
        host: false,
        join: false,
        back: false,
        submit: false,
        toggle_share_address: false,
        copy_invitation: false,
        ready: false,
        leave: false,
        host_keys: no_lifecycle_keys(),
    }
}

fn no_controls() -> LifecycleControls {
    LifecycleControls {
        leave: false,
        rematch: false,
        decline_rematch: false,
        request_resign: false,
        confirm_resign: false,
        cancel_resign: false,
        offer_draw: false,
        accept_draw: false,
        decline_draw: false,
    }
}

fn key(revision: u64, epoch: u64) -> SnapshotKey {
    SnapshotKey {
        epoch,
        session_id: 1,
        scenario_id: "crownlines-standard".to_owned(),
        revision,
        active_player: Player::South,
        position_key: "position".to_owned(),
    }
}

#[test]
fn retry_backoff_is_jittered_and_capped() {
    assert_eq!(retry_base_delay_millis(1), 500);
    assert_eq!(retry_base_delay_millis(2), 1_000);
    assert_eq!(retry_base_delay_millis(5), 8_000);
    assert_eq!(retry_base_delay_millis(20), 30_000);
    assert_eq!(retry_base_delay_millis(u32::MAX), 30_000);
}

#[test]
fn websocket_endpoint_requires_tls_except_on_loopback() {
    assert_eq!(
        websocket_endpoint("ws://127.0.0.1:5000").unwrap(),
        "ws://127.0.0.1:5000/ws"
    );
    assert_eq!(
        websocket_endpoint("wss://play.example.com/socket").unwrap(),
        "wss://play.example.com/ws"
    );
    assert!(websocket_endpoint("ws://example.com").is_none());
    assert!(websocket_endpoint("wss://user@play.example.com").is_none());
    assert!(websocket_endpoint("wss://user@example.com?token=no").is_none());
}

#[test]
fn obsolete_turn_and_clock_failures_are_distinguished() {
    assert_eq!(
        classify_command_failure(ErrorCode::Unauthorized, "Not your turn."),
        CommandFailure::WrongTurn
    );
    assert_eq!(
        classify_command_failure(ErrorCode::InvalidAction, "Clock expired."),
        CommandFailure::ClockExpired
    );
    assert_eq!(
        classify_command_failure(ErrorCode::StaleRevision, "Stale."),
        CommandFailure::Stale
    );
    assert_eq!(
        classify_command_failure(ErrorCode::InvalidAction, "Illegal move."),
        CommandFailure::Rejected
    );
}

#[test]
fn snapshot_ordering_ignores_old_checks_equal_and_detects_divergence() {
    let last = identity(7, 5, "hash-5");
    assert_eq!(
        classify_snapshot(Some(&last), &identity(7, 4, "hash-4"), None),
        Ok(SnapshotDisposition::Older)
    );
    assert_eq!(
        classify_snapshot(Some(&last), &identity(7, 5, "hash-5"), Some("hash-5")),
        Ok(SnapshotDisposition::Equal)
    );
    assert_eq!(
        classify_snapshot(Some(&last), &identity(7, 5, "other"), Some("hash-5")),
        Ok(SnapshotDisposition::Diverged)
    );
    assert_eq!(
        classify_snapshot(Some(&last), &identity(7, 5, "hash-5"), Some("displayed-drift")),
        Ok(SnapshotDisposition::Diverged)
    );
    assert_eq!(
        classify_snapshot(Some(&last), &identity(7, 6, "hash-6"), None),
        Ok(SnapshotDisposition::Replace)
    );
    assert_eq!(
        classify_snapshot(None, &identity(7, 1, "hash-1"), None),
        Ok(SnapshotDisposition::Replace)
    );
    let mut other_scenario = identity(7, 6, "hash-6");
    other_scenario.scenario_id = "crownlines-large".to_owned();
    assert_eq!(
        classify_snapshot(Some(&last), &other_scenario, None).unwrap_err(),
        "The server changed scenarios within an active match."
    );
}

#[test]
fn retry_clones_the_original_revision_and_idempotency_key() {
    let mut connection = OnlineConnection::new();
    connection.phase = ConnectionPhase::Connected;
    connection.active_match = Some(9);
    assert_eq!(connection.action_target(), ActionTarget::Send(9));
    connection.record_action(9, 4, 77, true, 10_000);
    assert!(connection.action_outbox_locked);
    assert_eq!(connection.due_retries(12_000), (false, false));
    assert_eq!(connection.due_retries(13_000), (true, false));
    connection.record_action_retry(13_000);
    let pending = connection.pending_action.unwrap();
    assert_eq!(pending.expected_revision, 4);
    assert_eq!(pending.idempotency_key, 77);
    assert_eq!(pending.attempts, 2);
    assert_eq!(connection.action_target(), ActionTarget::Blocked);
}

#[test]
fn acknowledgements_resolve_only_the_pending_command() {
    let mut connection = OnlineConnection::new();
    connection.active_match = Some(9);
    connection.record_action(9, 4, 77, true, 0);
    let effects = connection.handle_event(
        ConnectionEvent::Acknowledgement {
            match_id: 9,
            idempotency_key: 78,
        },
        1,
    );
    assert!(effects.resolve.is_none());
    assert_eq!(
        connection.status,
        "Received an acknowledgement for a non-pending command."
    );
    let effects = connection.handle_event(
        ConnectionEvent::Acknowledgement {
            match_id: 9,
            idempotency_key: 77,
        },
        1,
    );
    assert_eq!(effects.resolve.as_deref(), Some("Command accepted by the server."));
    assert!(connection.pending_action.is_none());
    assert!(!connection.action_outbox_locked);
}

#[test]
fn refused_controls_are_resolved_and_retryable_refusals_keep_waiting() {
    let mut connection = OnlineConnection::new();
    connection.active_match = Some(3);
    assert_eq!(connection.control_target(), ControlTarget::Send);
    connection.record_control(55, OnlineControlKind::Draw, true, 100);
    let effects = connection.handle_event(
        ConnectionEvent::CommandRejected {
            failure: CommandFailure::Rejected,
            retryable: true,
        },
        400,
    );
    assert!(effects.control_resolved.is_none());
    assert_eq!(connection.pending_control.unwrap().last_sent_millis, 400);
    let effects = connection.handle_event(
        ConnectionEvent::CommandRejected {
            failure: CommandFailure::WrongTurn,
            retryable: false,
        },
        500,
    );
    assert!(effects.clear_selection);
    assert_eq!(effects.control_resolved, Some((OnlineControlKind::Draw, false)));
    assert_eq!(
        effects.resolve.as_deref(),
        Some("Command rejected: it is not this seat's turn.")
    );
    assert!(connection.pending_control.is_none());
}

#[test]
fn canonical_replacement_preserves_only_valid_board_context() {
    let mut connection = OnlineConnection::new();
    let effects = connection.handle_event(ConnectionEvent::Snapshot(report(7, 1, "h1", None)), 0);
    assert!(effects.replace_game && effects.present_snapshot);
    assert_eq!(effects.adopt_match, Some(7));
    assert_eq!(connection.phase, ConnectionPhase::Connected);
    let effects = connection.handle_event(
        ConnectionEvent::Snapshot(report(7, 1, "h1", Some("h1"))),
        0,
    );
    assert!(!effects.replace_game && effects.present_snapshot);
    let effects = connection.handle_event(
        ConnectionEvent::Snapshot(report(7, 1, "h1", Some("other"))),
        0,
    );
    assert!(effects.clear_selection && effects.discard_queued);
    assert!(connection.force_resync_requested);
    assert_eq!(connection.phase, ConnectionPhase::Connecting);
    assert!(connection.last_snapshot.is_none());
    let effects = connection.handle_event(ConnectionEvent::Snapshot(report(8, 1, "h1", None)), 0);
    assert!(effects.cancel_transport);
    assert_eq!(connection.phase, ConnectionPhase::Rejected);
    assert_eq!(
        connection.status,
        "The server snapshot belongs to a different match."
    );
}

#[test]
fn older_snapshots_change_nothing_and_finished_rooms_are_terminal() {
    let mut connection = OnlineConnection::new();
    let mut finished = report(7, 3, "h3", None);
    finished.room_finished = true;
    connection.handle_event(ConnectionEvent::Snapshot(finished), 0);
    assert_eq!(connection.phase, ConnectionPhase::Terminal);
    let effects = connection.handle_event(ConnectionEvent::Snapshot(report(7, 2, "h2", None)), 0);
    assert!(!effects.present_snapshot && !effects.replace_game);
    assert_eq!(connection.last_snapshot.as_ref().unwrap().revision, 3);
}

#[test]
fn accepted_rematch_forgets_the_finished_match_and_resyncs() {
    let mut connection = OnlineConnection::new();
    connection.active_match = Some(1);
    connection.record_control(5, OnlineControlKind::Rematch, true, 0);
    let effects = connection.handle_event(ConnectionEvent::RematchState(RematchState::Accepted), 0);
    assert_eq!(
        effects.control_resolved,
        Some((OnlineControlKind::Rematch, true))
    );
    assert_eq!(effects.rematch_state, Some(Some(RematchState::Accepted)));
    assert!(connection.active_match.is_none());
    assert!(connection.force_resync_requested);
}

#[test]
fn rejected_authentication_and_forgotten_seats_clear_pending_work() {
    let mut connection = OnlineConnection::new();
    connection.active_match = Some(1);
    connection.record_action(1, 0, 2, true, 0);
    let effects = connection.handle_event(ConnectionEvent::Phase(ConnectionPhase::Rejected), 0);
    assert!(connection.pending_action.is_none());
    assert!(effects.discard_queued);
    connection.record_control(3, OnlineControlKind::Leave, false, 10_000);
    assert_eq!(connection.pending_control.unwrap().last_sent_millis, 7_000);
    let effects = connection.handle_event(ConnectionEvent::Forgotten, 0);
    assert!(effects.forget_seat);
    assert_eq!(connection.phase, ConnectionPhase::Offline);
    assert!(connection.pending_control.is_none());
}

#[test]
fn connection_keys_restore_saved_seats_only_when_offline() {
    let mut connection = OnlineConnection::new();
    let controls = connection.connection_keys(true, true, true, false, true);
    assert_eq!(controls.retry, Some(RetryRequest::Restore));
    assert!(!controls.cancel);
    connection.phase = ConnectionPhase::Retrying {
        attempt: 2,
        delay_millis: 1_000,
    };
    let controls = connection.connection_keys(true, true, true, true, true);
    assert_eq!(controls.retry, Some(RetryRequest::Retry));
    assert!(controls.cancel && controls.forget);
    assert!(connection.observed_lobby_match.is_none());
    let controls = connection.connection_keys(false, true, true, true, true);
    assert_eq!(controls.retry, None);
}

#[test]
fn lobby_seats_are_connected_once_and_saved_seats_restored_once() {
    let mut connection = OnlineConnection::new();
    let plan = connection.plan_restore(None, Some(4));
    assert!(plan.restore_saved);
    assert_eq!(plan.connect, None);
    let plan = connection.plan_restore(Some(4), Some(4));
    assert!(!plan.restore_saved);
    assert_eq!(plan.connect, Some(4));
    assert!(plan.reuse_saved_credential);
    let plan = connection.plan_restore(Some(4), Some(4));
    assert_eq!(plan.connect, None);
}

#[test]
fn resignation_is_confirmable_only_for_active_non_terminal_seat() {
    let view = MatchView {
        has_outcome: false,
        active_player: Player::North,
        draw_offer: None,
    };
    assert!(resignation_available(&view, Player::North));
    assert!(!resignation_available(&view, Player::South));
    let finished = MatchView {
        has_outcome: true,
        ..view
    };
    assert!(!resignation_available(&finished, Player::North));
}

#[test]
fn draw_ui_shows_exactly_one_offer_and_opponent_choices() {
    let view = MatchView {
        has_outcome: false,
        active_player: Player::North,
        draw_offer: Some(Player::North),
    };
    let text = active_controls(&view, Player::South, false, false, "");
    assert!(text.contains("Opponent offered draw - Y accept - N decline"));
    assert_eq!(text.matches("offered draw").count(), 1);
}

#[test]
fn terminal_summary_names_exact_reason_winner_rematch_and_leave() {
    let text = terminal_controls(
        "Timeout",
        Some(Player::South),
        Some(RematchState::Requested),
        false,
        false,
        "",
    );
    assert!(text.contains("Timeout - South wins"));
    assert!(text.contains("R accept - N decline"));
    assert!(text.contains("L leave finished room"));
}

#[test]
fn online_controls_confirm_resignations_and_answer_offers() {
    let mut state = OnlineLifecycleState::new();
    let view = MatchView {
        has_outcome: false,
        active_player: Player::North,
        draw_offer: None,
    };
    let request = LifecycleControls {
        request_resign: true,
        ..no_controls()
    };
    assert_eq!(
        state.handle_input(false, true, Some(Player::North), &view, false, &request),
        None
    );
    assert!(state.confirm_resign);
    let confirm = LifecycleControls {
        confirm_resign: true,
        ..no_controls()
    };
    assert_eq!(
        state.handle_input(false, true, Some(Player::North), &view, false, &confirm),
        Some(ControlRequest::Resign)
    );
    let offered = MatchView {
        draw_offer: Some(Player::South),
        ..view
    };
    let mut state = OnlineLifecycleState::new();
    let decline = LifecycleControls {
        decline_draw: true,
        ..no_controls()
    };
    assert_eq!(
        state.handle_input(false, true, Some(Player::North), &offered, false, &decline),
        Some(ControlRequest::Draw(DrawCommand::Reject))
    );
    assert_eq!(
        state.handle_input(false, true, Some(Player::North), &offered, true, &decline),
        None
    );
    let finished = MatchView {
        has_outcome: true,
        ..view
    };
    state.observe_rematch(Some(RematchState::Requested));
    let rematch = LifecycleControls {
        rematch: true,
        ..no_controls()
    };
    assert_eq!(
        state.handle_input(false, true, Some(Player::North), &finished, false, &rematch),
        Some(ControlRequest::Rematch(RematchCommand::Accept))
    );
    state.observe_resolution(OnlineControlKind::Rematch, true);
    assert_eq!(state.status, "Rematch control accepted by the server.");
}

#[test]
fn room_codes_are_normalized_before_protocol_validation() {
    assert_eq!(normalize_room_code(" ab-c 234 "), "ABC234");
}

#[test]
fn remote_plaintext_servers_are_rejected_but_loopback_is_allowed() {
    assert_eq!(
        http_endpoint("ws://127.0.0.1:5000", "/rooms").unwrap(),
        "http://127.0.0.1:5000/rooms"
    );
    assert!(http_endpoint("ws://example.com", "/rooms").is_err());
    assert_eq!(
        http_endpoint("wss://play.example.com/socket", "/rooms").unwrap(),
        "https://play.example.com/rooms"
    );
    assert!(http_endpoint("wss://user@play.example.com?secret=no", "/rooms").is_err());
}

#[test]
fn invitation_text_never_contains_the_reconnect_credential() {
    let seat = OnlineSeat {
        match_id: 0,
        room_code: "ABC234".to_owned(),
        seat: Player::North,
        reconnect_token: "top-secret".to_owned(),
    };
    let invitation = room_share_text(&seat.room_code, Some("wss://play.example.com"));
    assert_eq!(invitation, "ABC234\nwss://play.example.com");
    assert!(!invitation.contains(&seat.reconnect_token));
    assert_eq!(
        shareable_server_address("wss://play.example.com/socket").unwrap(),
        "wss://play.example.com"
    );
}

#[test]
fn server_error_bodies_are_mapped_to_fixed_public_copy() {
    let message = decode_public_server_error(404, Some(ErrorCode::RoomNotFound));
    assert_eq!(message, "That room was not found.");
    assert!(!message.contains("sensitive"));
    assert_eq!(
        decode_public_server_error(502, None),
        "The server is temporarily unavailable."
    );
    assert_eq!(
        decode_public_server_error(400, Some(ErrorCode::Internal)),
        "The server rejected the room request."
    );
    assert_eq!(
        safe_protocol_error(ProtocolError::InvalidRoomCode),
        "Enter the six-character room code."
    );
}

#[test]
fn authored_default_scenario_and_response_version_drive_lobby_state() {
    assert_eq!(
        validate_response_version(2, 1).unwrap_err(),
        "The client and server versions are incompatible."
    );
    assert_eq!(validate_response_version(1, 1), Ok(()));
}

#[test]
fn ready_selection_does_not_enter_gameplay_without_a_snapshot() {
    let mut lobby = lobby();
    lobby.screen = LobbyScreen::Waiting;
    lobby.seat = Some(OnlineSeat {
        match_id: 0,
        room_code: "ABC234".to_owned(),
        seat: Player::North,
        reconnect_token: "secret".to_owned(),
    });
    let ready = LobbyInput {
        ready: true,
        ..no_lobby_input()
    };
    let step = lobby.handle_input(ClientFlow::OnlineLobby, &ready, 3);
    assert_eq!(step.flow, ClientFlow::OnlineLobby);
    assert!(lobby.ready_requested);
}

#[test]
fn lobby_screens_submit_only_checked_requests_and_take_responses() {
    let mut lobby = lobby();
    let open = LobbyInput {
        open_online: true,
        ..no_lobby_input()
    };
    let step = lobby.handle_input(ClientFlow::Setup, &open, 3);
    assert_eq!(step.flow, ClientFlow::OnlineLobby);
    assert_eq!(lobby.screen, LobbyScreen::Menu);
    let join = LobbyInput {
        join: true,
        ..no_lobby_input()
    };
    lobby.handle_input(ClientFlow::OnlineLobby, &join, 3);
    assert_eq!(lobby.screen, LobbyScreen::Join);
    let submit = LobbyInput {
        submit: true,
        ..no_lobby_input()
    };
    let step = lobby.handle_input(ClientFlow::OnlineLobby, &submit, 3);
    assert_eq!(step.submit, Some(LobbySubmission::Join));
    assert!(!lobby.check_submission(Err(ProtocolError::InvalidRoomCode), "/rooms/join"));
    assert_eq!(lobby.status, "Enter the six-character room code.");
    assert!(lobby.check_submission(Ok(()), "/rooms/join"));
    lobby.record_submission(LobbySubmission::Join, true);
    assert!(lobby.request_pending);
    lobby.room_code = " abc-234 ".to_owned();
    lobby.handle_response(LobbyResponse::Joined {
        match_id: 12,
        seat: Player::South,
        reconnect_token: "secret".to_owned(),
    });
    assert!(!lobby.request_pending);
    assert_eq!(lobby.screen, LobbyScreen::Waiting);
    assert_eq!(lobby.seat.as_ref().unwrap().room_code, "ABC234");
    assert_eq!(lobby.status, "Joined room ABC234. Select ready when prepared.");
    lobby.share_server_address = true;
    assert_eq!(
        lobby.invitation().unwrap(),
        "ABC234\nws://127.0.0.1:5000"
    );
    lobby.server_url = "ws://example.com".to_owned();
    assert_eq!(lobby.invitation(), None);
    assert_eq!(
        lobby.status,
        "Remote servers must use wss:// so seat setup is protected by TLS."
    );
}

#[test]
fn phases_and_connection_effects_have_distinct_labels() {
    assert_eq!(
        room_state_label(ConnectionState::OpponentDisconnected),
        "opponent disconnected; clock continues"
    );
    assert_eq!(room_state_label(ConnectionState::Finished), "finished");
    assert_eq!(
        connection_phase_label(ConnectionPhase::Retrying {
            attempt: 1,
            delay_millis: 500
        }),
        "retrying"
    );
    assert_ne!(
        connection_phase_label(ConnectionPhase::Connecting),
        connection_phase_label(ConnectionPhase::Connected)
    );
    assert!(clock_running(false, ConnectionState::OpponentDisconnected));
    assert!(!clock_running(true, ConnectionState::Connected));
    assert!(!clock_running(false, ConnectionState::WaitingForReady));
}

#[test]
fn cancelled_job_cannot_match_even_when_position_identity_is_unchanged() {
    let mut supervisor = AiSupervisor::new();
    let frame = supervisor.frame(Some(key(3, 0)), true, WorkerMessage::Nothing, false, false, false);
    assert_eq!(frame.spawn_job, Some(1));
    let frame = supervisor.frame(Some(key(3, 0)), false, WorkerMessage::Nothing, false, false, false);
    assert!(frame.cancel_active);
    assert!(supervisor.active.as_ref().unwrap().cancelled);
    assert!(!supervisor.result_matches_job(1, &key(3, 0)));
}

#[test]
fn revision_and_epoch_changes_make_worker_results_stale() {
    let mut supervisor = AiSupervisor::new();
    supervisor.frame(Some(key(3, 0)), true, WorkerMessage::Nothing, false, false, false);
    assert!(supervisor.result_matches_job(1, &key(3, 0)));
    assert!(!supervisor.result_matches_job(1, &key(4, 0)));
    assert!(!supervisor.result_matches_job(1, &key(3, 1)));
    let frame = supervisor.frame(
        Some(key(3, 0)),
        true,
        WorkerMessage::Finished {
            job_id: 1,
            key: key(3, 0),
        },
        false,
        false,
        false,
    );
    assert!(frame.apply_result && frame.reap);
}

#[test]
fn a_lost_worker_waits_for_retry_or_forfeit() {
    let mut supervisor = AiSupervisor::new();
    supervisor.frame(Some(key(3, 0)), true, WorkerMessage::Nothing, false, false, false);
    let frame = supervisor.frame(Some(key(3, 0)), true, WorkerMessage::Disconnected, false, false, false);
    assert!(frame.disconnected && frame.spawn_job.is_none());
    let frame = supervisor.frame(Some(key(3, 0)), true, WorkerMessage::Nothing, false, false, false);
    assert!(frame.spawn_job.is_none());
    let frame = supervisor.frame(Some(key(3, 0)), true, WorkerMessage::Nothing, false, true, true);
    assert!(frame.forfeit && frame.spawn_job.is_none());
    let frame = supervisor.frame(Some(key(4, 0)), true, WorkerMessage::Nothing, false, false, false);
    assert_eq!(frame.spawn_job, Some(2));
    assert_eq!(
        thinking_message(false, Some(("AI Apprentice", 3, 5_000))),
        "AI Apprentice thinking: depth <= 3, nodes <= 5000. P pauses and cancels."
    );
}

#[test]
fn lobby_replies_are_judged_by_status_size_and_version() {
    let max = 64;
    assert_eq!(
        judge_lobby_reply(LobbyReply::Unreachable, max, None, None, 1),
        Err("The server could not be reached. Check the address and try again.".to_owned())
    );
    assert_eq!(
        judge_lobby_reply(LobbyReply::Unreadable, max, None, None, 1),
        Err("The server response could not be read.".to_owned())
    );
    assert_eq!(
        judge_lobby_reply(LobbyReply::Body { status: 200, length: 65 }, max, Some(1), None, 1),
        Err("The server response was unexpectedly large.".to_owned())
    );
    assert_eq!(
        judge_lobby_reply(LobbyReply::Body { status: 201, length: 64 }, max, Some(1), None, 1),
        Ok(())
    );
    assert_eq!(
        judge_lobby_reply(LobbyReply::Body { status: 200, length: 10 }, max, None, None, 1),
        Err("The server returned an incompatible response.".to_owned())
    );
    assert_eq!(
        judge_lobby_reply(LobbyReply::Body { status: 200, length: 10 }, max, Some(2), None, 1),
        Err("The client and server versions are incompatible.".to_owned())
    );
    assert_eq!(
        judge_lobby_reply(
            LobbyReply::Body { status: 404, length: 10 },
            max,
            None,
            Some(ErrorCode::RoomNotFound),
            1
        ),
        Err("That room was not found.".to_owned())
    );
    assert_eq!(
        judge_lobby_reply(LobbyReply::Body { status: 503, length: 0 }, max, None, None, 1),
        Err("The server is temporarily unavailable.".to_owned())
    );
}

#[test]
fn status_line_names_what_awaits_the_server() {
    let mut connection = OnlineConnection::new();
    assert_eq!(connection.pending_status(), "no command pending");
    assert!(!connection.status_visible(false));
    assert!(connection.status_visible(true));
    connection.pending_control = Some(PendingControl {
        idempotency_key: 7,
        kind: OnlineControlKind::Resign,
        last_sent_millis: 0,
        attempts: 1,
    });
    assert_eq!(connection.pending_status(), "Resign control pending · attempt 1");
    connection.pending_action = Some(PendingAction {
        match_id: 1,
        expected_revision: 4,
        idempotency_key: 9,
        last_sent_millis: 0,
        attempts: 12,
    });
    assert_eq!(connection.pending_status(), "command pending · attempt 12");
    connection.phase = ConnectionPhase::Connecting;
    assert!(connection.status_visible(false));
}

#[test]
fn match_controls_report_each_resignation_step() {
    let live = MatchView { has_outcome: false, active_player: Player::North, draw_offer: None };
    let mut state = OnlineLifecycleState::new();
    let request = LifecycleControls { request_resign: true, ..no_controls() };
    assert_eq!(state.handle_input(false, true, Some(Player::North), &live, false, &request), None);
    assert_eq!(state.status, "Confirm resignation with Enter, or cancel with Escape.");
    let cancel = LifecycleControls { cancel_resign: true, ..no_controls() };
    state.handle_input(false, true, Some(Player::North), &live, false, &cancel);
    assert_eq!(state.status, "Resignation cancelled.");
    state.handle_input(false, true, Some(Player::North), &live, false, &request);
    let moved_on = MatchView { active_player: Player::South, ..live };
    let confirm = LifecycleControls { confirm_resign: true, ..no_controls() };
    assert_eq!(state.handle_input(false, true, Some(Player::North), &moved_on, false, &confirm), None);
    assert_eq!(state.status, "Resignation cancelled because the authoritative turn changed.");
    state.handle_input(false, true, Some(Player::North), &live, false, &request);
    assert_eq!(
        state.handle_input(false, true, Some(Player::North), &live, false, &confirm),
        Some(ControlRequest::Resign)
    );
    assert_eq!(state.status, "Resignation submitted; awaiting the authoritative outcome.");
    let finished = MatchView { has_outcome: true, ..live };
    let leave = LifecycleControls { leave: true, ..no_controls() };
    assert_eq!(
        state.handle_input(false, true, Some(Player::North), &finished, false, &leave),
        Some(ControlRequest::Leave)
    );
    assert_eq!(
        state.status,
        "Leaving this finished room; its durable result remains on the server."
    );
}
