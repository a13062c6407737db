//! The decisions of the online connection worker: what it does with each
//! command while idle, inside a session and while it waits to reconnect, how a
//! session ends, and what each frame from the server makes it report. The
//! worker's socket, timers and credential store carry out what is decided here.
use vstd::prelude::*;

use crate::connections::{ConnectionState, ErrorCode, RematchState};
use crate::online_connection::{classify_command_failure, CommandFailure, ConnectionPhase};

verus! {

/// A command sent to the worker, by what its decisions depend on.
#[derive(Debug, Clone, Copy, PartialEq, Eq, Structural)]
pub enum WorkerCommand {
    /// Connect a freshly joined seat; its credential is stored when `persist`.
    Connect { persist: bool },
    /// Reconnect a saved seat with its stored credential.
    Restore,
    /// Forget a saved seat and its credential.
    Forget,
    Ready,
    Action,
    Control,
    /// Leave the room; `has_saved` when a saved seat's credential goes too.
    LeaveAndForget { has_saved: bool },
    Retry,
    Cancel,
}

/// The operation on the credential store that an idle command needs first.
#[derive(Debug, Clone, Copy, PartialEq, Eq, Structural)]
pub enum VaultWork {
    Nothing,
    Store,
    Load,
    Delete,
}

/// A message the worker shows the player.
#[derive(Debug, Clone, Copy, PartialEq, Eq, Structural)]
pub enum WorkerNotice {
    RuntimeUnavailable,
    CredentialNotStored,
    CredentialUnavailable,
    InvalidServerAddress,
    IncompatibleMessage,
    IncompatibleProtocol,
    CredentialRejected,
}

/// What the worker reports about itself.
#[derive(Debug, Clone, Copy, PartialEq, Eq, Structural)]
pub enum WorkerReport {
    Phase(ConnectionPhase),
    Notice(WorkerNotice),
    /// The seat and its credential are forgotten.
    Forgotten,
    /// The new seat's credential was stored.
    Persisted,
    /// The saved seat's credential was loaded.
    Restored,
}

/// What becomes of the seat the worker connects to.
#[derive(Debug, Clone, Copy, PartialEq, Eq, Structural)]
pub enum TargetChange {
    Keep,
    Replace,
    Clear,
}

/// The worker's own state: whether it has a seat to connect to, and how many
/// reconnections in a row have failed.
#[derive(Debug, Clone, Copy, PartialEq, Eq, Structural)]
pub struct WorkerState {
    pub has_target: bool,
    pub retry_attempt: u32,
}

/// What an idle command leads to.
#[derive(Debug)]
pub struct IdleOutcome {
    pub reports: Vec<WorkerReport>,
    pub target: TargetChange,
    /// The worker connects to its (new) target now.
    pub connect: bool,
}

/// The text of a notice.
pub open spec fn notice_message(notice: WorkerNotice) -> Seq<char> {
    match notice {
        WorkerNotice::RuntimeUnavailable => "The online runtime could not start."@,
        WorkerNotice::CredentialNotStored => "The seat credential could not be stored securely."@,
        WorkerNotice::CredentialUnavailable =>
            "The saved seat credential is unavailable. Forget it or join again."@,
        WorkerNotice::InvalidServerAddress => "The saved server address is invalid or insecure."@,
        WorkerNotice::IncompatibleMessage => "The server sent an incompatible message."@,
        WorkerNotice::IncompatibleProtocol =>
            "The client and server protocol versions are incompatible."@,
        WorkerNotice::CredentialRejected =>
            "The saved seat credential was rejected. Forget it or join again."@,
    }
}

/// The text shown for a notice.
pub fn notice_text(notice: WorkerNotice) -> (text: &'static str)
    ensures
        text@ == notice_message(notice),
{
    match notice {
        WorkerNotice::RuntimeUnavailable => "The online runtime could not start.",
        WorkerNotice::CredentialNotStored => "The seat credential could not be stored securely.",
        WorkerNotice::CredentialUnavailable =>
            "The saved seat credential is unavailable. Forget it or join again.",
        WorkerNotice::InvalidServerAddress => "The saved server address is invalid or insecure.",
        WorkerNotice::IncompatibleMessage => "The server sent an incompatible message.",
        WorkerNotice::IncompatibleProtocol =>
            "The client and server protocol versions are incompatible.",
        WorkerNotice::CredentialRejected =>
            "The saved seat credential was rejected. Forget it or join again.",
    }
}

/// Storing a new seat's credential, loading a saved one and forgetting one
/// each need the credential store; nothing else does.
pub open spec fn vault_work(command: WorkerCommand) -> VaultWork {
    match command {
        WorkerCommand::Connect { persist } => if persist {
            VaultWork::Store
        } else {
            VaultWork::Nothing
        },
        WorkerCommand::Restore => VaultWork::Load,
        WorkerCommand::Forget => VaultWork::Delete,
        _ => VaultWork::Nothing,
    }
}

/// The operation on the credential store that an idle command needs.
pub fn idle_vault_work(command: WorkerCommand) -> (work: VaultWork)
    ensures
        work == vault_work(command),
{
    match command {
        WorkerCommand::Connect { persist } => if persist {
            VaultWork::Store
        } else {
            VaultWork::Nothing
        },
        WorkerCommand::Restore => VaultWork::Load,
        WorkerCommand::Forget => VaultWork::Delete,
        _ => VaultWork::Nothing,
    }
}

/// What an idle command reports, given whether its operation on the
/// credential store succeeded.
pub open spec fn idle_reports(command: WorkerCommand, vault_ok: bool) -> Seq<WorkerReport> {
    match command {
        WorkerCommand::Connect { persist } => if !persist {
            seq![]
        } else if vault_ok {
            seq![WorkerReport::Persisted]
        } else {
            seq![WorkerReport::Notice(WorkerNotice::CredentialNotStored)]
        },
        WorkerCommand::Restore => if vault_ok {
            seq![WorkerReport::Restored]
        } else {
            seq![
                WorkerReport::Phase(ConnectionPhase::Rejected),
                WorkerReport::Notice(WorkerNotice::CredentialUnavailable),
            ]
        },
        WorkerCommand::Forget => seq![WorkerReport::Forgotten],
        _ => seq![],
    }
}

/// A new seat is always connected to, even when its credential could not be
/// stored; a saved seat only when its credential loads; forgetting drops the
/// target; the other commands leave it.
pub open spec fn idle_target(command: WorkerCommand, vault_ok: bool) -> TargetChange {
    match command {
        WorkerCommand::Connect { .. } => TargetChange::Replace,
        WorkerCommand::Restore => if vault_ok {
            TargetChange::Replace
        } else {
            TargetChange::Keep
        },
        WorkerCommand::Forget => TargetChange::Clear,
        _ => TargetChange::Keep,
    }
}

/// Whether the worker has a target after a change.
pub open spec fn target_after(has_target: bool, change: TargetChange) -> bool {
    match change {
        TargetChange::Keep => has_target,
        TargetChange::Replace => true,
        TargetChange::Clear => false,
    }
}

impl WorkerState {
    /// A worker with no seat and no failed reconnection.
    pub fn new() -> (state: Self)
        ensures
            !state.has_target,
            state.retry_attempt == 0,
    {
        WorkerState { has_target: false, retry_attempt: 0 }
    }

    /// Handles a command that arrives while the worker has nothing to connect
    /// to, once its operation on the credential store (`idle_vault_work`) has
    /// run and `vault_ok` tells whether it succeeded.
    pub fn apply_idle(&mut self, command: WorkerCommand, vault_ok: bool) -> (outcome: IdleOutcome)
        ensures
            outcome.reports@ == idle_reports(command, vault_ok),
            outcome.target == idle_target(command, vault_ok),
            outcome.connect == (idle_target(command, vault_ok) == TargetChange::Replace),
            final(self).has_target == target_after(old(self).has_target, outcome.target),
            final(self).retry_attempt == old(self).retry_attempt,
    {
        let mut reports: Vec<WorkerReport> = Vec::new();
        let target = match command {
            WorkerCommand::Connect { persist } => {
                if persist {
                    if vault_ok {
                        reports.push(WorkerReport::Persisted);
                    } else {
                        reports.push(WorkerReport::Notice(WorkerNotice::CredentialNotStored));
                    }
                }
                TargetChange::Replace
            },
            WorkerCommand::Restore => {
                if vault_ok {
                    reports.push(WorkerReport::Restored);
                    TargetChange::Replace
                } else {
                    reports.push(WorkerReport::Phase(ConnectionPhase::Rejected));
                    reports.push(WorkerReport::Notice(WorkerNotice::CredentialUnavailable));
                    TargetChange::Keep
                }
            },
            WorkerCommand::Forget => {
                reports.push(WorkerReport::Forgotten);
                TargetChange::Clear
            },
            _ => TargetChange::Keep,
        };
        match target {
            TargetChange::Replace => {
                self.has_target = true;
            },
            TargetChange::Clear => {
                self.has_target = false;
            },
            TargetChange::Keep => {},
        }
        let connect = match target {
            TargetChange::Replace => true,
            _ => false,
        };
        proof {
            assert(reports@ =~= idle_reports(command, vault_ok));
        }
        IdleOutcome { reports, target, connect }
    }

    /// Handles a command that `wait_command` passed on to the idle handling
    /// while the worker waited to reconnect: as `apply_idle`, and a command
    /// that connects starts the count of failed reconnections afresh.
    pub fn apply_idle_while_waiting(&mut self, command: WorkerCommand, vault_ok: bool) -> (outcome:
        IdleOutcome)
        ensures
            outcome.reports@ == idle_reports(command, vault_ok),
            outcome.target == idle_target(command, vault_ok),
            outcome.connect == (idle_target(command, vault_ok) == TargetChange::Replace),
            final(self).has_target == target_after(old(self).has_target, outcome.target),
            final(self).retry_attempt == (if outcome.connect {
                0
            } else {
                old(self).retry_attempt
            }),
    {
        let outcome = self.apply_idle(command, vault_ok);
        if outcome.connect {
            self.retry_attempt = 0;
        }
        outcome
    }

    /// Decides what follows a session, as `socket_step` says.
    pub fn after_socket(&mut self, outcome: SocketOutcome) -> (step: SocketStep)
        ensures
            (*final(self), step) == socket_step(*old(self), outcome),
    {
        match outcome {
            SocketOutcome::Cancelled => {
                self.has_target = false;
                self.retry_attempt = 0;
                SocketStep::Stopped(WorkerReport::Phase(ConnectionPhase::Offline))
            },
            SocketOutcome::Rejected => {
                self.has_target = false;
                self.retry_attempt = 0;
                SocketStep::Stopped(WorkerReport::Phase(ConnectionPhase::Rejected))
            },
            SocketOutcome::RetryNow => {
                self.retry_attempt = 0;
                SocketStep::Reconnect
            },
            SocketOutcome::Switch(command) => {
                self.has_target = false;
                self.retry_attempt = 0;
                SocketStep::Switch(command)
            },
            SocketOutcome::Transient => {
                self.retry_attempt = self.retry_attempt.saturating_add(1);
                SocketStep::Wait { attempt: self.retry_attempt }
            },
        }
    }

    /// Decides what a command does while the worker waits to reconnect, as
    /// `wait_step` says.
    pub fn wait_command(&mut self, command: WorkerCommand) -> (decision: WaitDecision)
        ensures
            (*final(self), decision) == wait_step(*old(self), command),
    {
        match command {
            WorkerCommand::Retry => {
                self.retry_attempt = 0;
                WaitDecision::RetryNow
            },
            WorkerCommand::Action | WorkerCommand::Control => WaitDecision::KeepWaiting,
            WorkerCommand::LeaveAndForget { has_saved } => {
                self.has_target = false;
                WaitDecision::Stop { delete_saved: has_saved, report: WorkerReport::Forgotten }
            },
            WorkerCommand::Cancel => {
                self.has_target = false;
                WaitDecision::Stop {
                    delete_saved: false,
                    report: WorkerReport::Phase(ConnectionPhase::Offline),
                }
            },
            _ => WaitDecision::Idle(command),
        }
    }
}

/// How a session with the server ended.
#[derive(Debug, Clone, Copy, PartialEq, Eq, Structural)]
pub enum SocketOutcome {
    /// The player stopped the connection.
    Cancelled,
    /// The server or the address refused the seat for good.
    Rejected,
    /// The player asked to reconnect at once.
    RetryNow,
    /// The connection failed or dropped; it is tried again later.
    Transient,
    /// The player switched to another seat.
    Switch(WorkerCommand),
}

/// What the worker does after a session.
#[derive(Debug, Clone, Copy, PartialEq, Eq, Structural)]
pub enum SocketStep {
    /// Connect again to the same seat now.
    Reconnect,
    /// Stop, report this, and wait for a command.
    Stopped(WorkerReport),
    /// Handle this command as an idle one.
    Switch(WorkerCommand),
    /// Report the attempt with its delay and wait that long before connecting
    /// again.
    Wait { attempt: u32 },
}

/// What a command does while the worker waits to reconnect.
#[derive(Debug, Clone, Copy, PartialEq, Eq, Structural)]
pub enum WaitDecision {
    /// The command is dropped and the wait goes on.
    KeepWaiting,
    /// The wait ends and the worker connects at once.
    RetryNow,
    /// The wait ends without a target; the saved credential is deleted first
    /// when `delete_saved`.
    Stop { delete_saved: bool, report: WorkerReport },
    /// The wait ends and the command is handled as an idle one
    /// (`apply_idle_while_waiting`).
    Idle(WorkerCommand),
}

/// The count of failed reconnections after one more, held at the largest
/// `u32`.
pub open spec fn next_attempt(attempt: u32) -> u32 {
    if attempt == u32::MAX {
        attempt
    } else {
        (attempt + 1) as u32
    }
}

/// A stopped or refused session forgets the target and the failures; asking
/// to retry forgets the failures; switching seats forgets both before the new
/// command is handled; a dropped connection counts one more failure.
pub open spec fn socket_step(state: WorkerState, outcome: SocketOutcome) -> (WorkerState, SocketStep) {
    match outcome {
        SocketOutcome::Cancelled => (
            WorkerState { has_target: false, retry_attempt: 0 },
            SocketStep::Stopped(WorkerReport::Phase(ConnectionPhase::Offline)),
        ),
        SocketOutcome::Rejected => (
            WorkerState { has_target: false, retry_attempt: 0 },
            SocketStep::Stopped(WorkerReport::Phase(ConnectionPhase::Rejected)),
        ),
        SocketOutcome::RetryNow => (
            WorkerState { retry_attempt: 0, ..state },
            SocketStep::Reconnect,
        ),
        SocketOutcome::Switch(command) => (
            WorkerState { has_target: false, retry_attempt: 0 },
            SocketStep::Switch(command),
        ),
        SocketOutcome::Transient => (
            WorkerState { retry_attempt: next_attempt(state.retry_attempt), ..state },
            SocketStep::Wait { attempt: next_attempt(state.retry_attempt) },
        ),
    }
}

/// While waiting: retrying reconnects at once and forgets the failures;
/// commands and controls are dropped; leaving or cancelling ends the wait
/// without a target; the other commands are handled as idle ones.
pub open spec fn wait_step(state: WorkerState, command: WorkerCommand) -> (WorkerState, WaitDecision) {
    match command {
        WorkerCommand::Retry => (WorkerState { retry_attempt: 0, ..state }, WaitDecision::RetryNow),
        WorkerCommand::Action | WorkerCommand::Control => (state, WaitDecision::KeepWaiting),
        WorkerCommand::LeaveAndForget { has_saved } => (
            WorkerState { has_target: false, ..state },
            WaitDecision::Stop { delete_saved: has_saved, report: WorkerReport::Forgotten },
        ),
        WorkerCommand::Cancel => (
            WorkerState { has_target: false, ..state },
            WaitDecision::Stop {
                delete_saved: false,
                report: WorkerReport::Phase(ConnectionPhase::Offline),
            },
        ),
        _ => (state, WaitDecision::Idle(command)),
    }
}

/// What a command does during a session.
#[derive(Debug, Clone, Copy, PartialEq, Eq, Structural)]
pub enum SessionDecision {
    /// Send the command's message; a failed send drops the connection.
    Send,
    /// Send the leave message (its failure does not matter), delete the saved
    /// credential when `delete_saved`, report the seat forgotten, and stop.
    Leave { delete_saved: bool },
    /// Delete the saved credential, report the seat forgotten, and stop.
    Forget,
    /// End the session so.
    End(SocketOutcome),
}

/// The decision for each command during a session.
pub open spec fn session_decision(command: WorkerCommand) -> SessionDecision {
    match command {
        WorkerCommand::Ready | WorkerCommand::Action | WorkerCommand::Control => SessionDecision::Send,
        WorkerCommand::LeaveAndForget { has_saved } => SessionDecision::Leave {
            delete_saved: has_saved,
        },
        WorkerCommand::Forget => SessionDecision::Forget,
        WorkerCommand::Retry => SessionDecision::End(SocketOutcome::RetryNow),
        WorkerCommand::Cancel => SessionDecision::End(SocketOutcome::Cancelled),
        WorkerCommand::Connect { .. } | WorkerCommand::Restore => SessionDecision::End(
            SocketOutcome::Switch(command),
        ),
    }
}

/// Decides what a command does during a session.
pub fn session_command(command: WorkerCommand) -> (decision: SessionDecision)
    ensures
        decision == session_decision(command),
{
    match command {
        WorkerCommand::Ready | WorkerCommand::Action | WorkerCommand::Control => SessionDecision::Send,
        WorkerCommand::LeaveAndForget { has_saved } => SessionDecision::Leave {
            delete_saved: has_saved,
        },
        WorkerCommand::Forget => SessionDecision::Forget,
        WorkerCommand::Retry => SessionDecision::End(SocketOutcome::RetryNow),
        WorkerCommand::Cancel => SessionDecision::End(SocketOutcome::Cancelled),
        WorkerCommand::Connect { .. } | WorkerCommand::Restore => SessionDecision::End(
            SocketOutcome::Switch(command),
        ),
    }
}

/// Whether and how the session ends once a decision was carried out;
/// `sent` tells whether the message of a `Send` went out.
pub open spec fn decision_end(decision: SessionDecision, sent: bool) -> Option<SocketOutcome> {
    match decision {
        SessionDecision::Send => if sent {
            None
        } else {
            Some(SocketOutcome::Transient)
        },
        SessionDecision::Leave { .. } | SessionDecision::Forget => Some(SocketOutcome::Cancelled),
        SessionDecision::End(outcome) => Some(outcome),
    }
}

/// How the session continues after a decision was carried out.
pub fn session_end(decision: SessionDecision, sent: bool) -> (end: Option<SocketOutcome>)
    ensures
        end == decision_end(decision, sent),
{
    match decision {
        SessionDecision::Send => if sent {
            None
        } else {
            Some(SocketOutcome::Transient)
        },
        SessionDecision::Leave { .. } | SessionDecision::Forget => Some(SocketOutcome::Cancelled),
        SessionDecision::End(outcome) => Some(outcome),
    }
}

/// The ways a session fails on the worker's side.
#[derive(Debug, Clone, Copy, PartialEq, Eq, Structural)]
pub enum SessionFailure {
    /// The saved server address has no secure WebSocket form.
    InvalidAddress,
    /// The WebSocket could not be opened.
    ConnectFailed,
    /// A message could not be sent.
    SendFailed,
    /// The server closed the socket, or it broke.
    Closed,
}

/// What a failure of the session reports, and how the session ends: only an
/// invalid address is final; everything else is tried again.
pub open spec fn failure_end(failure: SessionFailure) -> (Option<WorkerNotice>, SocketOutcome) {
    match failure {
        SessionFailure::InvalidAddress => (
            Some(WorkerNotice::InvalidServerAddress),
            SocketOutcome::Rejected,
        ),
        _ => (None, SocketOutcome::Transient),
    }
}

/// How a failure ends the session.
pub fn session_failure(failure: SessionFailure) -> (end: (Option<WorkerNotice>, SocketOutcome))
    ensures
        end == failure_end(failure),
{
    match failure {
        SessionFailure::InvalidAddress => (
            Some(WorkerNotice::InvalidServerAddress),
            SocketOutcome::Rejected,
        ),
        _ => (None, SocketOutcome::Transient),
    }
}

/// A frame from the server, by what the worker's reports depend on.
#[derive(Debug)]
pub enum InboundKind {
    Snapshot,
    Acknowledgement,
    Error { code: ErrorCode, message: String, retryable: bool, has_snapshot: bool },
    RoomState(ConnectionState),
    Rematch(RematchState),
}

/// A decoded frame from the server and the protocol version it names.
#[derive(Debug)]
pub struct InboundMessage {
    pub protocol_version: u16,
    pub kind: InboundKind,
}

/// What the worker reports of a frame from the server.
#[derive(Debug, Clone, Copy, PartialEq, Eq, Structural)]
pub enum InboundReport {
    Notice(WorkerNotice),
    Phase(ConnectionPhase),
    /// The snapshot the frame carries.
    Snapshot,
    /// The acknowledgement the frame carries.
    Acknowledgement,
    CommandRejected { failure: CommandFailure, retryable: bool },
    RoomState(ConnectionState),
    RematchState(RematchState),
}

/// How a refused command is told apart, as `classify_command_failure` does.
pub open spec fn command_failure(code: ErrorCode, message: Seq<char>) -> CommandFailure {
    if code == ErrorCode::Unauthorized {
        CommandFailure::WrongTurn
    } else if code == ErrorCode::StaleRevision {
        CommandFailure::Stale
    } else if code == ErrorCode::InvalidAction && message == "Clock expired."@ {
        CommandFailure::ClockExpired
    } else {
        CommandFailure::Rejected
    }
}

/// An unauthorized error without a snapshot: the seat's credential itself was
/// refused.
pub open spec fn credential_refused(kind: InboundKind) -> bool {
    kind matches InboundKind::Error { code, has_snapshot, .. } && code == ErrorCode::Unauthorized
        && !has_snapshot
}

/// What a well-formed frame of the expected version reports after
/// `Connected`.
pub open spec fn kind_reports(kind: InboundKind) -> Seq<InboundReport> {
    match kind {
        InboundKind::Snapshot => seq![InboundReport::Snapshot],
        InboundKind::Acknowledgement => seq![InboundReport::Acknowledgement, InboundReport::Snapshot],
        InboundKind::Error { code, message, retryable, has_snapshot } => if code
            == ErrorCode::Unauthorized && !has_snapshot {
            seq![InboundReport::Notice(WorkerNotice::CredentialRejected)]
        } else {
            (if has_snapshot {
                seq![InboundReport::Snapshot]
            } else {
                seq![]
            }) + seq![
                InboundReport::CommandRejected {
                    failure: command_failure(code, message@),
                    retryable,
                },
            ]
        },
        InboundKind::RoomState(state) => if state == ConnectionState::Finished {
            seq![
                InboundReport::RoomState(ConnectionState::Finished),
                InboundReport::Phase(ConnectionPhase::Terminal),
            ]
        } else {
            seq![InboundReport::RoomState(state)]
        },
        InboundKind::Rematch(state) => seq![InboundReport::RematchState(state)],
    }
}

/// What a frame reports: an undecodable frame or another protocol version
/// only a notice; any other frame first that the seat is connected.
pub open spec fn inbound_reports(decoded: Option<InboundMessage>, expected_version: u16) -> Seq<
    InboundReport,
> {
    match decoded {
        None => seq![InboundReport::Notice(WorkerNotice::IncompatibleMessage)],
        Some(message) => if message.protocol_version != expected_version {
            seq![InboundReport::Notice(WorkerNotice::IncompatibleProtocol)]
        } else {
            seq![InboundReport::Phase(ConnectionPhase::Connected)] + kind_reports(message.kind)
        },
    }
}

/// Whether the session goes on after a frame: not after an undecodable frame,
/// another protocol version, or a refused credential.
pub open spec fn inbound_keeps_open(decoded: Option<InboundMessage>, expected_version: u16) -> bool {
    match decoded {
        None => false,
        Some(message) => message.protocol_version == expected_version && !credential_refused(
            message.kind,
        ),
    }
}

/// Decides what a frame from the server reports and whether the session goes
/// on; `decoded` is none when the frame did not decode.
pub fn inbound(decoded: &Option<InboundMessage>, expected_version: u16) -> (result: (
    Vec<InboundReport>,
    bool,
))
    ensures
        result.0@ == inbound_reports(*decoded, expected_version),
        result.1 == inbound_keeps_open(*decoded, expected_version),
{
    let mut reports: Vec<InboundReport> = Vec::new();
    let message = match decoded {
        None => {
            reports.push(InboundReport::Notice(WorkerNotice::IncompatibleMessage));
            proof {
                assert(reports@ =~= inbound_reports(*decoded, expected_version));
            }
            return (reports, false);
        },
        Some(message) => message,
    };
    if message.protocol_version != expected_version {
        reports.push(InboundReport::Notice(WorkerNotice::IncompatibleProtocol));
        proof {
            assert(reports@ =~= inbound_reports(*decoded, expected_version));
        }
        return (reports, false);
    }
    reports.push(InboundReport::Phase(ConnectionPhase::Connected));
    let keep_open = match &message.kind {
        InboundKind::Snapshot => {
            reports.push(InboundReport::Snapshot);
            true
        },
        InboundKind::Acknowledgement => {
            reports.push(InboundReport::Acknowledgement);
            reports.push(InboundReport::Snapshot);
            true
        },
        InboundKind::Error { code, message, retryable, has_snapshot } => {
            if *code == ErrorCode::Unauthorized && !*has_snapshot {
                reports.push(InboundReport::Notice(WorkerNotice::CredentialRejected));
                false
            } else {
                if *has_snapshot {
                    reports.push(InboundReport::Snapshot);
                }
                let failure = classify_command_failure(*code, message.as_str());
                reports.push(InboundReport::CommandRejected { failure, retryable: *retryable });
                true
            }
        },
        InboundKind::RoomState(state) => {
            if *state == ConnectionState::Finished {
                reports.push(InboundReport::RoomState(ConnectionState::Finished));
                reports.push(InboundReport::Phase(ConnectionPhase::Terminal));
            } else {
                reports.push(InboundReport::RoomState(*state));
            }
            true
        },
        InboundKind::Rematch(state) => {
            reports.push(InboundReport::RematchState(*state));
            true
        },
    };
    proof {
        assert(reports@ =~= inbound_reports(*decoded, expected_version));
    }
    (reports, keep_open)
}

/// Cancelling always leaves the worker without a seat and offline, whether it
/// comes during a session or while the worker waits to reconnect.
pub proof fn law_cancel_leaves_no_target(state: WorkerState, sent: bool)
    ensures
        decision_end(session_decision(WorkerCommand::Cancel), sent) == Some(SocketOutcome::Cancelled),
        !socket_step(state, SocketOutcome::Cancelled).0.has_target,
        socket_step(state, SocketOutcome::Cancelled).1 == SocketStep::Stopped(
            WorkerReport::Phase(ConnectionPhase::Offline),
        ),
        !wait_step(state, WorkerCommand::Cancel).0.has_target,
        wait_step(state, WorkerCommand::Cancel).1 == (WaitDecision::Stop {
            delete_saved: false,
            report: WorkerReport::Phase(ConnectionPhase::Offline),
        }),
{
}

/// Each dropped connection counts one more failure and keeps the seat; asking
/// to retry, during a session or while waiting, keeps the seat and starts the
/// count afresh.
pub proof fn law_failures_count_until_retry(state: WorkerState, sent: bool)
    ensures
        socket_step(state, SocketOutcome::Transient).0.has_target == state.has_target,
        socket_step(state, SocketOutcome::Transient).0.retry_attempt >= state.retry_attempt,
        state.retry_attempt < u32::MAX ==> socket_step(
            state,
            SocketOutcome::Transient,
        ).0.retry_attempt == state.retry_attempt + 1,
        decision_end(session_decision(WorkerCommand::Retry), sent) == Some(SocketOutcome::RetryNow),
        socket_step(state, SocketOutcome::RetryNow).0 == (WorkerState {
            has_target: state.has_target,
            retry_attempt: 0,
        }),
        wait_step(state, WorkerCommand::Retry).0 == (WorkerState {
            has_target: state.has_target,
            retry_attempt: 0,
        }),
{
}

/// A new seat is connected to whether or not its credential could be stored;
/// a saved seat whose credential does not load is never connected to, and the
/// player is told it was rejected.
pub proof fn law_credentials_decide_restores(persist: bool, vault_ok: bool)
    ensures
        idle_target(WorkerCommand::Connect { persist }, vault_ok) == TargetChange::Replace,
        !vault_ok ==> idle_target(WorkerCommand::Restore, vault_ok) == TargetChange::Keep,
        !vault_ok ==> idle_reports(WorkerCommand::Restore, vault_ok).contains(
            WorkerReport::Phase(ConnectionPhase::Rejected),
        ),
{
    if !vault_ok {
        assert(idle_reports(WorkerCommand::Restore, vault_ok)[0] == WorkerReport::Phase(
            ConnectionPhase::Rejected,
        ));
    }
}

/// A frame that keeps the session open first reports the seat connected; a
/// frame that ends it reports, last, a notice saying why.
pub proof fn law_frames_explain_closing(decoded: Option<InboundMessage>, expected_version: u16)
    ensures
        inbound_reports(decoded, expected_version).len() > 0,
        inbound_keeps_open(decoded, expected_version) ==> inbound_reports(decoded, expected_version)[0]
            == InboundReport::Phase(ConnectionPhase::Connected),
        !inbound_keeps_open(decoded, expected_version) ==> inbound_reports(
            decoded,
            expected_version,
        ).last() is Notice,
{
    match decoded {
        None => {},
        Some(message) => {
            if message.protocol_version == expected_version {
                let tail = kind_reports(message.kind);
                assert(tail.len() > 0);
                let all = seq![InboundReport::Phase(ConnectionPhase::Connected)] + tail;
                assert(all[0] == InboundReport::Phase(ConnectionPhase::Connected));
                assert(all.last() == tail.last());
            }
        },
    }
}

} // verus!
