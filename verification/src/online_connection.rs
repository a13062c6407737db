//! The client side of an online seat: the connection's phase, the command and
//! match control awaiting an authoritative answer, the last snapshot shown,
//! and how each event from the connection worker changes them.
use vstd::prelude::*;

use crate::connections::{ConnectionState, ErrorCode, RematchState};
use crate::text::{decimal, decimal_text, same_text};

verus! {

/// How long a command may wait for its answer before it is sent again.
pub const ACTION_RESPONSE_TIMEOUT_MILLIS: u64 = 3_000;

/// The first delay before reconnecting.
pub const RETRY_BASE_MILLIS: u64 = 500;

/// The longest delay before reconnecting.
pub const RETRY_CAP_MILLIS: u64 = 30_000;

/// The largest doubling of the reconnect delay.
pub const RETRY_MAX_EXPONENT: u32 = 16;

/// Where the connection to the match server stands.
#[derive(Debug, Clone, Copy, PartialEq, Eq, Structural)]
pub enum ConnectionPhase {
    Connecting,
    Connected,
    Retrying { attempt: u32, delay_millis: u64 },
    Offline,
    Rejected,
    Terminal,
}

/// A match control that awaits the server's answer.
#[derive(Debug, Clone, Copy, PartialEq, Eq, Structural)]
pub enum OnlineControlKind {
    Draw,
    Resign,
    Rematch,
    Leave,
}

/// Why the server refused a command, as the client tells it apart.
#[derive(Debug, Clone, Copy, PartialEq, Eq, Structural)]
pub enum CommandFailure {
    WrongTurn,
    ClockExpired,
    Stale,
    Rejected,
}

/// Where a seat credential was stored.
#[derive(Debug, Clone, Copy, PartialEq, Eq, Structural)]
pub enum CredentialProtection {
    OperatingSystem,
    UserOnlyFile,
}

/// How the last snapshot shown compares with an incoming one.
#[derive(Debug, Clone, Copy, PartialEq, Eq, Structural)]
pub enum SnapshotDisposition {
    Replace,
    Equal,
    Older,
    Diverged,
}

/// What identifies a snapshot: its match, scenario, revision and state hash.
#[derive(Debug)]
pub struct SnapshotIdentity {
    pub match_id: u128,
    pub scenario_id: String,
    pub revision: u64,
    pub state_hash: String,
}

/// A command sent and not yet answered.
#[derive(Debug, Clone, Copy, PartialEq, Eq, Structural)]
pub struct PendingAction {
    pub match_id: u128,
    pub expected_revision: u64,
    pub idempotency_key: u128,
    pub last_sent_millis: u64,
    pub attempts: u32,
}

/// A match control sent and not yet answered.
#[derive(Debug, Clone, Copy, PartialEq, Eq, Structural)]
pub struct PendingControl {
    pub idempotency_key: u128,
    pub kind: OnlineControlKind,
    pub last_sent_millis: u64,
    pub attempts: u32,
}

/// The client's view of its online seat.
#[derive(Debug)]
pub struct OnlineConnection {
    pub phase: ConnectionPhase,
    pub active_match: Option<u128>,
    pub observed_lobby_match: Option<u128>,
    pub restore_requested: bool,
    pub ready_sent: bool,
    pub status: String,
    pub pending_action: Option<PendingAction>,
    pub pending_control: Option<PendingControl>,
    pub last_snapshot: Option<SnapshotIdentity>,
    pub force_resync_requested: bool,
    pub action_outbox_locked: bool,
    pub control_outbox_locked: bool,
}

/// What the display learned of an incoming snapshot before it is reconciled:
/// whether it is well formed, whether its scenario is installed with the same
/// hash (or why not), the hash of the state now displayed when it can be
/// computed, and what the snapshot says of the room.
#[derive(Debug)]
pub struct SnapshotReport {
    pub identity: SnapshotIdentity,
    pub valid: bool,
    pub scenario_check: Result<(), String>,
    pub displayed_state_hash: Option<String>,
    pub room_finished: bool,
    pub has_outcome: bool,
    pub rematch_state: Option<RematchState>,
}

/// What the connection worker reports.
#[derive(Debug)]
pub enum ConnectionEvent {
    Phase(ConnectionPhase),
    Notice(String),
    Forgotten,
    Persisted { match_id: u128, protection: CredentialProtection, settings_saved: bool },
    Restored { match_id: u128 },
    Acknowledgement { match_id: u128, idempotency_key: u128 },
    CommandRejected { failure: CommandFailure, retryable: bool },
    RoomState(ConnectionState),
    RematchState(RematchState),
    Snapshot(SnapshotReport),
}

/// What the rest of the client must do after an event.
#[derive(Debug)]
pub struct ConnectionEffects {
    /// Ends the board's wait for the server with this message.
    pub resolve: Option<String>,
    /// Drops the selected piece.
    pub clear_selection: bool,
    /// Drops the command and the control still queued to be sent.
    pub discard_queued: bool,
    /// Reports the answer to a match control.
    pub control_resolved: Option<(OnlineControlKind, bool)>,
    /// Reports the rematch state.
    pub rematch_state: Option<Option<RematchState>>,
    /// Reports the room state.
    pub room_state: Option<ConnectionState>,
    /// Forgets the saved seat and returns to setup.
    pub forget_seat: bool,
    /// Shows the restored seat's lobby.
    pub show_restored_lobby: bool,
    /// Moves the lobby seat and the saved seat to this match.
    pub adopt_match: Option<u128>,
    /// Replaces the displayed match by the snapshot.
    pub replace_game: bool,
    /// Shows the online match and presents the snapshot.
    pub present_snapshot: bool,
    /// Stops the connection worker.
    pub cancel_transport: bool,
}

/// No effect at all.
pub open spec fn no_effects(e: ConnectionEffects) -> bool {
    &&& e.resolve is None
    &&& !e.clear_selection
    &&& !e.discard_queued
    &&& e.control_resolved is None
    &&& e.rematch_state is None
    &&& e.room_state is None
    &&& !e.forget_seat
    &&& !e.show_restored_lobby
    &&& e.adopt_match is None
    &&& !e.replace_game
    &&& !e.present_snapshot
    &&& !e.cancel_transport
}

fn quiet() -> (e: ConnectionEffects)
    ensures
        no_effects(e),
{
    ConnectionEffects {
        resolve: None,
        clear_selection: false,
        discard_queued: false,
        control_resolved: None,
        rematch_state: None,
        room_state: None,
        forget_seat: false,
        show_restored_lobby: false,
        adopt_match: None,
        replace_game: false,
        present_snapshot: false,
        cancel_transport: false,
    }
}

fn copy_identity(identity: &SnapshotIdentity) -> (copy: SnapshotIdentity)
    ensures
        copy == *identity,
{
    SnapshotIdentity {
        match_id: identity.match_id,
        scenario_id: identity.scenario_id.clone(),
        revision: identity.revision,
        state_hash: identity.state_hash.clone(),
    }
}

/// How an incoming snapshot compares with the last one shown; `None` when the
/// scenario changed within the same match.
pub open spec fn snapshot_disposition(
    last: Option<SnapshotIdentity>,
    incoming: SnapshotIdentity,
    displayed_hash: Option<Seq<char>>,
) -> Option<SnapshotDisposition> {
    match last {
        None => Some(SnapshotDisposition::Replace),
        Some(last) => if last.match_id != incoming.match_id {
            Some(SnapshotDisposition::Replace)
        } else if last.scenario_id@ != incoming.scenario_id@ {
            None
        } else if incoming.revision < last.revision {
            Some(SnapshotDisposition::Older)
        } else if incoming.revision > last.revision {
            Some(SnapshotDisposition::Replace)
        } else if incoming.state_hash@ == last.state_hash@ && displayed_hash == Some(
            incoming.state_hash@,
        ) {
            Some(SnapshotDisposition::Equal)
        } else {
            Some(SnapshotDisposition::Diverged)
        },
    }
}

/// Compares an incoming snapshot with the last one shown: a first snapshot or
/// one of another match replaces; a lower revision is older; a higher one
/// replaces; at the same revision it is equal only when its hash matches both
/// the last snapshot and the displayed state, and otherwise has diverged. A
/// scenario change within a match is an error.
pub fn classify_snapshot(
    last: Option<&SnapshotIdentity>,
    incoming: &SnapshotIdentity,
    displayed_hash: Option<&str>,
) -> (result: Result<SnapshotDisposition, String>)
    ensures
        match snapshot_disposition(
            match last {
                Some(l) => Some(*l),
                None => None,
            },
            *incoming,
            match displayed_hash {
                Some(h) => Some(h@),
                None => None,
            },
        ) {
            Some(d) => result == Ok::<SnapshotDisposition, String>(d),
            None => result is Err && result->Err_0@
                == "The server changed scenarios within an active match."@,
        },
{
    let last = match last {
        None => return Ok(SnapshotDisposition::Replace),
        Some(last) => last,
    };
    if last.match_id != incoming.match_id {
        return Ok(SnapshotDisposition::Replace);
    }
    if !same_text(last.scenario_id.as_str(), incoming.scenario_id.as_str()) {
        return Err(String::from_str("The server changed scenarios within an active match."));
    }
    if incoming.revision < last.revision {
        return Ok(SnapshotDisposition::Older);
    }
    if incoming.revision > last.revision {
        return Ok(SnapshotDisposition::Replace);
    }
    let same_hash = same_text(incoming.state_hash.as_str(), last.state_hash.as_str());
    let displayed_same = match displayed_hash {
        Some(h) => same_text(incoming.state_hash.as_str(), h),
        None => false,
    };
    if same_hash && displayed_same {
        Ok(SnapshotDisposition::Equal)
    } else {
        Ok(SnapshotDisposition::Diverged)
    }
}

/// A snapshot never moves the display back: an older revision of the same
/// match is never taken, and a newer one always is.
pub proof fn law_snapshots_never_go_back(
    last: SnapshotIdentity,
    incoming: SnapshotIdentity,
    displayed_hash: Option<Seq<char>>,
)
    requires
        last.match_id == incoming.match_id,
        last.scenario_id@ == incoming.scenario_id@,
    ensures
        incoming.revision < last.revision ==> snapshot_disposition(
            Some(last),
            incoming,
            displayed_hash,
        ) == Some(SnapshotDisposition::Older),
        incoming.revision > last.revision ==> snapshot_disposition(
            Some(last),
            incoming,
            displayed_hash,
        ) == Some(SnapshotDisposition::Replace),
{
}

/// The reconciliation of a snapshot report against the active match and the
/// last snapshot shown: the disposition, or the message that rejects it.
pub open spec fn reconciled(
    report: SnapshotReport,
    active_match: Option<u128>,
    last: Option<SnapshotIdentity>,
) -> Result<SnapshotDisposition, Seq<char>> {
    if !report.valid {
        Err("The server sent an invalid match snapshot."@)
    } else if active_match is Some && active_match != Some(report.identity.match_id) {
        Err("The server snapshot belongs to a different match."@)
    } else if report.scenario_check is Err {
        Err(report.scenario_check->Err_0@)
    } else {
        let compares = last is Some && last->0.match_id == report.identity.match_id
            && last->0.revision == report.identity.revision;
        if compares && report.displayed_state_hash is None {
            Err("The displayed canonical state could not be verified."@)
        } else {
            let displayed = if compares {
                Some(report.displayed_state_hash->0@)
            } else {
                None
            };
            match snapshot_disposition(last, report.identity, displayed) {
                Some(d) => Ok(d),
                None => Err("The server changed scenarios within an active match."@),
            }
        }
    }
}

/// The message that resolves the board after a refused command.
pub open spec fn failure_message(failure: CommandFailure) -> Seq<char> {
    match failure {
        CommandFailure::WrongTurn => "Command rejected: it is not this seat's turn."@,
        CommandFailure::ClockExpired => "Command rejected: the authoritative clock expired."@,
        CommandFailure::Stale => "Command cancelled because the match revision changed."@,
        CommandFailure::Rejected => "Command rejected by the server."@,
    }
}

fn failure_text(failure: CommandFailure) -> (text: String)
    ensures
        text@ == failure_message(failure),
{
    match failure {
        CommandFailure::WrongTurn => String::from_str("Command rejected: it is not this seat's turn."),
        CommandFailure::ClockExpired => String::from_str(
            "Command rejected: the authoritative clock expired.",
        ),
        CommandFailure::Stale => String::from_str(
            "Command cancelled because the match revision changed.",
        ),
        CommandFailure::Rejected => String::from_str("Command rejected by the server."),
    }
}

/// The status after a credential was stored.
pub open spec fn persisted_status(protection: CredentialProtection, settings_saved: bool) -> Seq<
    char,
> {
    if !settings_saved {
        "Connected, but the seat could not be saved."@
    } else {
        match protection {
            CredentialProtection::OperatingSystem => "Seat credential protected by the operating system."@,
            CredentialProtection::UserOnlyFile => "Seat credential stored in a user-only (0600) fallback file."@,
        }
    }
}

/// Whether an acknowledgement answers the pending command.
pub open spec fn acknowledges_action(
    pending: Option<PendingAction>,
    match_id: u128,
    idempotency_key: u128,
) -> bool {
    pending matches Some(p) && p.match_id == match_id && p.idempotency_key == idempotency_key
}

/// Whether an acknowledgement answers the pending control.
pub open spec fn acknowledges_control(
    pending: Option<PendingControl>,
    active_match: Option<u128>,
    match_id: u128,
    idempotency_key: u128,
) -> bool {
    pending matches Some(p) && p.idempotency_key == idempotency_key && (active_match is None
        || active_match == Some(match_id))
}

/// Every command and control, pending or queued, is dropped.
pub open spec fn all_cleared(after: OnlineConnection, effects: ConnectionEffects) -> bool {
    &&& after.pending_action is None
    &&& after.pending_control is None
    &&& !after.action_outbox_locked
    &&& !after.control_outbox_locked
    &&& effects.discard_queued
}

/// The fields that an event leaves alone unless it says otherwise.
pub open spec fn same_seat(before: OnlineConnection, after: OnlineConnection) -> bool {
    &&& after.observed_lobby_match == before.observed_lobby_match
    &&& after.restore_requested == before.restore_requested
    &&& after.ready_sent == before.ready_sent
}

/// How one event changes the connection and what it asks of the client.
pub open spec fn handled(
    before: OnlineConnection,
    after: OnlineConnection,
    event: ConnectionEvent,
    now_millis: u64,
    effects: ConnectionEffects,
) -> bool {
    match event {
        ConnectionEvent::Phase(phase) => {
            &&& after.phase == phase
            &&& same_seat(before, after)
            &&& after.status == before.status
            &&& after.active_match == before.active_match
            &&& after.last_snapshot == before.last_snapshot
            &&& after.force_resync_requested == before.force_resync_requested
            &&& if phase == ConnectionPhase::Rejected {
                &&& all_cleared(after, effects)
                &&& effects.resolve matches Some(m) && m@ == "Online authentication was rejected."@
            } else {
                &&& after.pending_action == before.pending_action
                &&& after.pending_control == before.pending_control
                &&& after.action_outbox_locked == before.action_outbox_locked
                &&& after.control_outbox_locked == before.control_outbox_locked
                &&& no_effects(effects)
            }
        },
        ConnectionEvent::Notice(message) => {
            &&& after.status@ == message@
            &&& after == OnlineConnection { status: after.status, ..before }
            &&& no_effects(effects)
        },
        ConnectionEvent::Forgotten => {
            &&& after.phase == ConnectionPhase::Offline
            &&& all_cleared(after, effects)
            &&& after.status@ == "Saved seat credential deleted."@
            &&& effects.resolve matches Some(m) && m@ == "Saved seat credential deleted."@
            &&& effects.forget_seat
            &&& after.active_match == before.active_match
            &&& after.last_snapshot == before.last_snapshot
            &&& same_seat(before, after)
        },
        ConnectionEvent::Persisted { match_id, protection, settings_saved } => {
            &&& after.active_match == Some(match_id)
            &&& after.status@ == persisted_status(protection, settings_saved)
            &&& after == OnlineConnection {
                active_match: after.active_match,
                status: after.status,
                ..before
            }
            &&& no_effects(effects)
        },
        ConnectionEvent::Restored { match_id } => {
            &&& after.observed_lobby_match == Some(match_id)
            &&& after.active_match == Some(match_id)
            &&& after.last_snapshot is None
            &&& !after.force_resync_requested
            &&& after == OnlineConnection {
                observed_lobby_match: after.observed_lobby_match,
                active_match: after.active_match,
                last_snapshot: None,
                force_resync_requested: false,
                ..before
            }
            &&& effects.show_restored_lobby
            &&& no_effects(ConnectionEffects { show_restored_lobby: false, ..effects })
        },
        ConnectionEvent::Acknowledgement { match_id, idempotency_key } => {
            if acknowledges_action(before.pending_action, match_id, idempotency_key) {
                &&& after == OnlineConnection {
                    pending_action: None,
                    action_outbox_locked: false,
                    ..before
                }
                &&& effects.resolve matches Some(m) && m@ == "Command accepted by the server."@
                &&& no_effects(ConnectionEffects { resolve: None, ..effects })
            } else if acknowledges_control(
                before.pending_control,
                before.active_match,
                match_id,
                idempotency_key,
            ) {
                &&& after == OnlineConnection {
                    pending_control: None,
                    control_outbox_locked: false,
                    ..before
                }
                &&& effects.control_resolved == Some((before.pending_control->0.kind, true))
                &&& no_effects(ConnectionEffects { control_resolved: None, ..effects })
            } else {
                &&& after.status@ == "Received an acknowledgement for a non-pending command."@
                &&& after == OnlineConnection { status: after.status, ..before }
                &&& no_effects(effects)
            }
        },
        ConnectionEvent::CommandRejected { failure, retryable } => {
            &&& effects.clear_selection == (failure == CommandFailure::WrongTurn || failure
                == CommandFailure::ClockExpired)
            &&& if retryable && failure != CommandFailure::Stale {
                &&& after.pending_action == (match before.pending_action {
                    Some(p) => Some(PendingAction { last_sent_millis: now_millis, ..p }),
                    None => None,
                })
                &&& after.pending_control == (match before.pending_control {
                    Some(p) => Some(PendingControl { last_sent_millis: now_millis, ..p }),
                    None => None,
                })
                &&& after.status@ == "The server asked the client to retry the same command."@
                &&& after == OnlineConnection {
                    pending_action: after.pending_action,
                    pending_control: after.pending_control,
                    status: after.status,
                    ..before
                }
                &&& no_effects(ConnectionEffects { clear_selection: false, ..effects })
            } else {
                &&& after == OnlineConnection {
                    pending_action: None,
                    action_outbox_locked: false,
                    pending_control: None,
                    control_outbox_locked: if before.pending_control is Some {
                        false
                    } else {
                        before.control_outbox_locked
                    },
                    ..before
                }
                &&& effects.control_resolved == (match before.pending_control {
                    Some(p) => Some((p.kind, false)),
                    None => None,
                })
                &&& effects.resolve matches Some(m) && m@ == failure_message(failure)
                &&& no_effects(
                    ConnectionEffects {
                        clear_selection: false,
                        control_resolved: None,
                        resolve: None,
                        ..effects
                    },
                )
            }
        },
        ConnectionEvent::RoomState(state) => {
            &&& after == before
            &&& effects.room_state == Some(state)
            &&& no_effects(ConnectionEffects { room_state: None, ..effects })
        },
        ConnectionEvent::RematchState(state) => {
            let answers = before.pending_control matches Some(p) && p.kind
                == OnlineControlKind::Rematch;
            let control_after = if answers {
                None
            } else {
                before.pending_control
            };
            let control_lock = if answers {
                false
            } else {
                before.control_outbox_locked
            };
            &&& effects.rematch_state == Some(Some(state))
            &&& effects.control_resolved == (if answers {
                Some((OnlineControlKind::Rematch, true))
            } else {
                None
            })
            &&& no_effects(
                ConnectionEffects { rematch_state: None, control_resolved: None, ..effects },
            )
            &&& if state == RematchState::Accepted {
                after == OnlineConnection {
                    pending_control: control_after,
                    control_outbox_locked: control_lock,
                    active_match: None,
                    last_snapshot: None,
                    force_resync_requested: true,
                    pending_action: None,
                    action_outbox_locked: false,
                    ..before
                }
            } else {
                after == OnlineConnection {
                    pending_control: control_after,
                    control_outbox_locked: control_lock,
                    ..before
                }
            }
        },
        ConnectionEvent::Snapshot(report) => match reconciled(
            report,
            before.active_match,
            before.last_snapshot,
        ) {
            Ok(SnapshotDisposition::Older) => after == before && no_effects(effects),
            Ok(SnapshotDisposition::Diverged) => {
                &&& all_cleared(after, effects)
                &&& after == OnlineConnection {
                    last_snapshot: None,
                    force_resync_requested: true,
                    pending_action: None,
                    pending_control: None,
                    phase: ConnectionPhase::Connecting,
                    action_outbox_locked: false,
                    control_outbox_locked: false,
                    ..before
                }
                &&& effects.clear_selection
                &&& effects.resolve matches Some(m) && m@
                    == "Canonical state disagreed at the same revision; forcing a clean resync."@
                &&& no_effects(
                    ConnectionEffects {
                        discard_queued: false,
                        clear_selection: false,
                        resolve: None,
                        ..effects
                    },
                )
            },
            Ok(d) => {
                &&& after == OnlineConnection {
                    active_match: Some(report.identity.match_id),
                    last_snapshot: Some(report.identity),
                    phase: if report.room_finished || report.has_outcome {
                        ConnectionPhase::Terminal
                    } else {
                        ConnectionPhase::Connected
                    },
                    ..before
                }
                &&& effects.adopt_match == (if before.active_match != Some(
                    report.identity.match_id,
                ) {
                    Some(report.identity.match_id)
                } else {
                    None
                })
                &&& effects.replace_game == (d == SnapshotDisposition::Replace)
                &&& effects.present_snapshot
                &&& effects.rematch_state == Some(report.rematch_state)
                &&& no_effects(
                    ConnectionEffects {
                        adopt_match: None,
                        replace_game: false,
                        present_snapshot: false,
                        rematch_state: None,
                        ..effects
                    },
                )
            },
            Err(message) => {
                &&& after.status@ == message
                &&& after == OnlineConnection {
                    phase: ConnectionPhase::Rejected,
                    status: after.status,
                    ..before
                }
                &&& effects.cancel_transport
                &&& no_effects(ConnectionEffects { cancel_transport: false, ..effects })
            },
        },
    }
}

impl OnlineConnection {
    /// A connection that has done nothing yet.
    pub fn new() -> (connection: Self)
        ensures
            connection.phase == ConnectionPhase::Offline,
            connection.active_match is None,
            connection.observed_lobby_match is None,
            !connection.restore_requested,
            !connection.ready_sent,
            connection.status@.len() == 0,
            connection.pending_action is None,
            connection.pending_control is None,
            connection.last_snapshot is None,
            !connection.force_resync_requested,
            !connection.action_outbox_locked,
            !connection.control_outbox_locked,
    {
        OnlineConnection {
            phase: ConnectionPhase::Offline,
            active_match: None,
            observed_lobby_match: None,
            restore_requested: false,
            ready_sent: false,
            status: String::new(),
            pending_action: None,
            pending_control: None,
            last_snapshot: None,
            force_resync_requested: false,
            action_outbox_locked: false,
            control_outbox_locked: false,
        }
    }

    fn clear_all(&mut self)
        ensures
            final(self).pending_action is None,
            final(self).pending_control is None,
            !final(self).action_outbox_locked,
            !final(self).control_outbox_locked,
            *final(self) == (OnlineConnection {
                pending_action: None,
                pending_control: None,
                action_outbox_locked: false,
                control_outbox_locked: false,
                ..*old(self)
            }),
    {
        self.pending_action = None;
        self.pending_control = None;
        self.action_outbox_locked = false;
        self.control_outbox_locked = false;
    }

    /// Reconciles a snapshot report against the active match and the last
    /// snapshot shown.
    pub fn reconcile(&self, report: &SnapshotReport) -> (result: Result<SnapshotDisposition, String>)
        ensures
            match reconciled(*report, self.active_match, self.last_snapshot) {
                Ok(d) => result == Ok::<SnapshotDisposition, String>(d),
                Err(m) => result is Err && result->Err_0@ == m,
            },
    {
        if !report.valid {
            return Err(String::from_str("The server sent an invalid match snapshot."));
        }
        if let Some(active) = self.active_match {
            if active != report.identity.match_id {
                return Err(String::from_str("The server snapshot belongs to a different match."));
            }
        }
        if let Err(message) = &report.scenario_check {
            return Err(message.clone());
        }
        let compares = match &self.last_snapshot {
            Some(last) => last.match_id == report.identity.match_id && last.revision
                == report.identity.revision,
            None => false,
        };
        let displayed: Option<&str> = if compares {
            match &report.displayed_state_hash {
                Some(h) => Some(h.as_str()),
                None => {
                    return Err(
                        String::from_str("The displayed canonical state could not be verified."),
                    );
                },
            }
        } else {
            None
        };
        let last: Option<&SnapshotIdentity> = match &self.last_snapshot {
            Some(l) => Some(l),
            None => None,
        };
        classify_snapshot(last, &report.identity, displayed)
    }

    fn on_phase(&mut self, phase: ConnectionPhase, now_millis: u64) -> (effects: ConnectionEffects)
        ensures
            handled(*old(self), *final(self), ConnectionEvent::Phase(phase), now_millis, effects),
    {
        let mut effects = quiet();
        if phase == ConnectionPhase::Rejected {
            self.clear_all();
            effects.discard_queued = true;
            effects.resolve = Some(String::from_str("Online authentication was rejected."));
        }
        self.phase = phase;
        effects
    }

    fn on_notice(&mut self, message: String, now_millis: u64) -> (effects: ConnectionEffects)
        ensures
            handled(*old(self), *final(self), ConnectionEvent::Notice(message), now_millis, effects),
    {
        self.status = message;
        quiet()
    }

    fn on_forgotten(&mut self, now_millis: u64) -> (effects: ConnectionEffects)
        ensures
            handled(*old(self), *final(self), ConnectionEvent::Forgotten, now_millis, effects),
    {
        let mut effects = quiet();
        self.phase = ConnectionPhase::Offline;
        self.clear_all();
        effects.discard_queued = true;
        effects.resolve = Some(String::from_str("Saved seat credential deleted."));
        self.status = String::from_str("Saved seat credential deleted.");
        effects.forget_seat = true;
        effects
    }

    fn on_persisted(
        &mut self,
        match_id: u128,
        protection: CredentialProtection,
        settings_saved: bool,
        now_millis: u64,
    ) -> (effects: ConnectionEffects)
        ensures
            handled(
                *old(self),
                *final(self),
                ConnectionEvent::Persisted { match_id, protection, settings_saved },
                now_millis,
                effects,
            ),
    {
        self.active_match = Some(match_id);
        self.status = if !settings_saved {
            String::from_str("Connected, but the seat could not be saved.")
        } else {
            match protection {
                CredentialProtection::OperatingSystem => String::from_str(
                    "Seat credential protected by the operating system.",
                ),
                CredentialProtection::UserOnlyFile => String::from_str(
                    "Seat credential stored in a user-only (0600) fallback file.",
                ),
            }
        };
        quiet()
    }

    fn on_restored(&mut self, match_id: u128, now_millis: u64) -> (effects: ConnectionEffects)
        ensures
            handled(*old(self), *final(self), ConnectionEvent::Restored { match_id }, now_millis, effects),
    {
        let mut effects = quiet();
        effects.show_restored_lobby = true;
        self.observed_lobby_match = Some(match_id);
        self.active_match = Some(match_id);
        self.last_snapshot = None;
        self.force_resync_requested = false;
        effects
    }

    fn on_acknowledgement(&mut self, match_id: u128, idempotency_key: u128, now_millis: u64) -> (effects:
        ConnectionEffects)
        ensures
            handled(
                *old(self),
                *final(self),
                ConnectionEvent::Acknowledgement { match_id, idempotency_key },
                now_millis,
                effects,
            ),
    {
        let mut effects = quiet();
        let matches_action = match self.pending_action {
            Some(p) => p.match_id == match_id && p.idempotency_key == idempotency_key,
            None => false,
        };
        let matches_control = match self.pending_control {
            Some(p) => p.idempotency_key == idempotency_key && match self.active_match {
                Some(active) => active == match_id,
                None => true,
            },
            None => false,
        };
        if matches_action {
            self.pending_action = None;
            self.action_outbox_locked = false;
            effects.resolve = Some(String::from_str("Command accepted by the server."));
        } else if matches_control {
            let kind = self.pending_control.unwrap().kind;
            self.pending_control = None;
            self.control_outbox_locked = false;
            effects.control_resolved = Some((kind, true));
        } else {
            self.status = String::from_str("Received an acknowledgement for a non-pending command.");
        }
        effects
    }

    fn on_rejected(&mut self, failure: CommandFailure, retryable: bool, now_millis: u64) -> (effects:
        ConnectionEffects)
        ensures
            handled(
                *old(self),
                *final(self),
                ConnectionEvent::CommandRejected { failure, retryable },
                now_millis,
                effects,
            ),
    {
        let mut effects = quiet();
        effects.clear_selection = failure == CommandFailure::WrongTurn || failure
            == CommandFailure::ClockExpired;
        if retryable && failure != CommandFailure::Stale {
            if let Some(p) = self.pending_action {
                self.pending_action = Some(PendingAction { last_sent_millis: now_millis, ..p });
            }
            if let Some(p) = self.pending_control {
                self.pending_control = Some(PendingControl { last_sent_millis: now_millis, ..p });
            }
            self.status = String::from_str("The server asked the client to retry the same command.");
        } else {
            self.pending_action = None;
            self.action_outbox_locked = false;
            if let Some(p) = self.pending_control {
                effects.control_resolved = Some((p.kind, false));
                self.control_outbox_locked = false;
            }
            self.pending_control = None;
            effects.resolve = Some(failure_text(failure));
        }
        effects
    }

    fn on_rematch(&mut self, state: RematchState, now_millis: u64) -> (effects: ConnectionEffects)
        ensures
            handled(*old(self), *final(self), ConnectionEvent::RematchState(state), now_millis, effects),
    {
        let mut effects = quiet();
        let answers = match self.pending_control {
            Some(p) => p.kind == OnlineControlKind::Rematch,
            None => false,
        };
        if answers {
            self.pending_control = None;
            self.control_outbox_locked = false;
            effects.control_resolved = Some((OnlineControlKind::Rematch, true));
        }
        effects.rematch_state = Some(Some(state));
        if state == RematchState::Accepted {
            self.active_match = None;
            self.last_snapshot = None;
            self.force_resync_requested = true;
            self.pending_action = None;
            self.action_outbox_locked = false;
        }
        effects
    }

    fn on_snapshot(&mut self, report: SnapshotReport, now_millis: u64) -> (effects: ConnectionEffects)
        ensures
            handled(*old(self), *final(self), ConnectionEvent::Snapshot(report), now_millis, effects),
    {
        let mut effects = quiet();
        match self.reconcile(&report) {
            Ok(SnapshotDisposition::Older) => {},
            Ok(SnapshotDisposition::Diverged) => {
                self.last_snapshot = None;
                self.force_resync_requested = true;
                self.clear_all();
                self.phase = ConnectionPhase::Connecting;
                effects.discard_queued = true;
                effects.clear_selection = true;
                effects.resolve = Some(
                    String::from_str(
                        "Canonical state disagreed at the same revision; forcing a clean resync.",
                    ),
                );
            },
            Ok(d) => {
                let id = report.identity.match_id;
                if self.active_match != Some(id) {
                    effects.adopt_match = Some(id);
                }
                self.active_match = Some(id);
                self.last_snapshot = Some(copy_identity(&report.identity));
                self.phase = if report.room_finished || report.has_outcome {
                    ConnectionPhase::Terminal
                } else {
                    ConnectionPhase::Connected
                };
                effects.replace_game = d == SnapshotDisposition::Replace;
                effects.present_snapshot = true;
                effects.rematch_state = Some(report.rematch_state);
            },
            Err(message) => {
                self.phase = ConnectionPhase::Rejected;
                self.status = message;
                effects.cancel_transport = true;
            },
        }
        effects
    }

    /// Applies one event of the connection worker at `now_millis`.
    pub fn handle_event(&mut self, event: ConnectionEvent, now_millis: u64) -> (effects:
        ConnectionEffects)
        ensures
            handled(*old(self), *final(self), event, now_millis, effects),
    {
        match event {
            ConnectionEvent::Phase(phase) => self.on_phase(phase, now_millis),
            ConnectionEvent::Notice(message) => self.on_notice(message, now_millis),
            ConnectionEvent::Forgotten => self.on_forgotten(now_millis),
            ConnectionEvent::Persisted { match_id, protection, settings_saved } => self.on_persisted(
                match_id,
                protection,
                settings_saved,
                now_millis,
            ),
            ConnectionEvent::Restored { match_id } => self.on_restored(match_id, now_millis),
            ConnectionEvent::Acknowledgement { match_id, idempotency_key } => self.on_acknowledgement(
                match_id,
                idempotency_key,
                now_millis,
            ),
            ConnectionEvent::CommandRejected { failure, retryable } => self.on_rejected(
                failure,
                retryable,
                now_millis,
            ),
            ConnectionEvent::RoomState(state) => {
                let mut effects = quiet();
                effects.room_state = Some(state);
                effects
            },
            ConnectionEvent::RematchState(state) => self.on_rematch(state, now_millis),
            ConnectionEvent::Snapshot(report) => self.on_snapshot(report, now_millis),
        }
    }
}

/// No event of the worker ever creates a pending command or control, or
/// changes which one is pending: only queueing does; events only answer them.
pub proof fn law_events_only_answer_pending(
    before: OnlineConnection,
    after: OnlineConnection,
    event: ConnectionEvent,
    now_millis: u64,
    effects: ConnectionEffects,
)
    requires
        handled(before, after, event, now_millis, effects),
    ensures
        after.pending_action matches Some(a) ==> before.pending_action matches Some(b)
            && a.idempotency_key == b.idempotency_key && a.match_id == b.match_id,
        after.pending_control matches Some(a) ==> before.pending_control matches Some(b)
            && a.idempotency_key == b.idempotency_key && a.kind == b.kind,
{
}

/// A rejected authentication, a forgotten seat and a diverged snapshot each
/// leave nothing pending, locked or queued.
pub proof fn law_resets_clear_everything(
    before: OnlineConnection,
    after: OnlineConnection,
    event: ConnectionEvent,
    now_millis: u64,
    effects: ConnectionEffects,
)
    requires
        handled(before, after, event, now_millis, effects),
        event matches ConnectionEvent::Phase(p) ==> p == ConnectionPhase::Rejected,
        event matches ConnectionEvent::Snapshot(r) ==> reconciled(
            r,
            before.active_match,
            before.last_snapshot,
        ) == Ok::<SnapshotDisposition, Seq<char>>(SnapshotDisposition::Diverged),
        event is Phase || event is Forgotten || event is Snapshot,
    ensures
        all_cleared(after, effects),
{
}

/// How the client tells a refused command apart: an unauthorized seat is
/// acting out of turn, a stale revision is stale, an invalid action whose
/// message is exactly "Clock expired." hit the clock; the rest are refusals.
pub fn classify_command_failure(code: ErrorCode, message: &str) -> (failure: CommandFailure)
    ensures
        failure == (if code == ErrorCode::Unauthorized {
            CommandFailure::WrongTurn
        } else if code == ErrorCode::StaleRevision {
            CommandFailure::Stale
        } else if code == ErrorCode::InvalidAction && message@ == "Clock expired."@ {
            CommandFailure::ClockExpired
        } else {
            CommandFailure::Rejected
        }),
{
    if code == ErrorCode::Unauthorized {
        CommandFailure::WrongTurn
    } else if code == ErrorCode::StaleRevision {
        CommandFailure::Stale
    } else if code == ErrorCode::InvalidAction && same_text(message, "Clock expired.") {
        CommandFailure::ClockExpired
    } else {
        CommandFailure::Rejected
    }
}

/// Two to the power `e`.
pub open spec fn doubling(e: nat) -> nat
    decreases e,
{
    if e == 0 {
        1
    } else {
        2 * doubling((e - 1) as nat)
    }
}

/// The reconnect delay before jitter: the base delay doubled once per
/// attempt after the first, at most sixteen times, and at most the cap.
pub open spec fn retry_base_delay(attempt: u32) -> nat {
    let exponent: nat = if attempt == 0 {
        0
    } else if attempt - 1 > RETRY_MAX_EXPONENT {
        RETRY_MAX_EXPONENT as nat
    } else {
        (attempt - 1) as nat
    };
    let delay: nat = (RETRY_BASE_MILLIS * doubling(exponent)) as nat;
    if delay > RETRY_CAP_MILLIS {
        RETRY_CAP_MILLIS as nat
    } else {
        delay
    }
}

/// Computes the reconnect delay before jitter, in milliseconds.
pub fn retry_base_delay_millis(attempt: u32) -> (delay: u64)
    ensures
        delay == retry_base_delay(attempt),
        delay <= RETRY_CAP_MILLIS,
{
    let exponent: u32 = if attempt == 0 {
        0
    } else if attempt - 1 > RETRY_MAX_EXPONENT {
        RETRY_MAX_EXPONENT
    } else {
        attempt - 1
    };
    let mut delay: u64 = RETRY_BASE_MILLIS;
    let mut i: u32 = 0;
    while i < exponent
        invariant
            i <= exponent <= RETRY_MAX_EXPONENT,
            delay == RETRY_BASE_MILLIS * doubling(i as nat),
            doubling(i as nat) <= 65536,
        decreases exponent - i,
    {
        assert(doubling((i + 1) as nat) == 2 * doubling(i as nat));
        proof {
            lemma_doubling_bound((i + 1) as nat);
        }
        delay = delay * 2;
        i = i + 1;
    }
    if delay > RETRY_CAP_MILLIS {
        RETRY_CAP_MILLIS
    } else {
        delay
    }
}

proof fn lemma_doubling_bound(e: nat)
    requires
        e <= 16,
    ensures
        doubling(e) <= 65536,
{
    lemma_doubling_monotone(e, 16);
    assert(doubling(16) == 65536) by {
        reveal_with_fuel(doubling, 17);
    }
}

/// The reconnect delay only grows with the attempt, up to the cap.
pub proof fn law_retry_delay_grows(first: u32, second: u32)
    requires
        first <= second,
    ensures
        retry_base_delay(first) <= retry_base_delay(second),
        retry_base_delay(second) <= RETRY_CAP_MILLIS,
{
    let e1: nat = if first == 0 {
        0
    } else if first - 1 > RETRY_MAX_EXPONENT {
        RETRY_MAX_EXPONENT as nat
    } else {
        (first - 1) as nat
    };
    let e2: nat = if second == 0 {
        0
    } else if second - 1 > RETRY_MAX_EXPONENT {
        RETRY_MAX_EXPONENT as nat
    } else {
        (second - 1) as nat
    };
    lemma_doubling_monotone(e1, e2);
}

proof fn lemma_doubling_monotone(a: nat, b: nat)
    requires
        a <= b,
    ensures
        doubling(a) <= doubling(b),
    decreases b,
{
    if a < b {
        lemma_doubling_monotone(a, (b - 1) as nat);
    }
}

/// What to do with a command that the board asks to send.
#[derive(Debug, Clone, Copy, PartialEq, Eq, Structural)]
pub enum ActionTarget {
    /// Another command awaits its answer: keep the board locked.
    Blocked,
    /// No authenticated match is active: the command is dropped.
    NoActiveMatch,
    /// Send it to this match.
    Send(u128),
}

/// What to do with a match control that the player asks to send.
#[derive(Debug, Clone, Copy, PartialEq, Eq, Structural)]
pub enum ControlTarget {
    /// A command or control awaits its answer: keep it queued.
    Blocked,
    /// Send it.
    Send,
}

/// What the connection keys ask of the worker.
#[derive(Debug, Clone, Copy, PartialEq, Eq, Structural)]
pub enum RetryRequest {
    /// Restore the saved seat.
    Restore,
    /// Retry the current target now.
    Retry,
}

/// The worker commands that the connection keys produce in one frame.
#[derive(Debug, Clone, Copy, PartialEq, Eq, Structural)]
pub struct ConnectionControls {
    pub retry: Option<RetryRequest>,
    pub cancel: bool,
    pub forget: bool,
}

/// What the client must ask of the worker to reach its lobby seat.
#[derive(Debug, Clone, Copy, PartialEq, Eq, Structural)]
pub struct RestorePlan {
    /// Restore the saved seat (once per run, when no lobby seat is known).
    pub restore_saved: bool,
    /// Connect to this match's seat.
    pub connect: Option<u128>,
    /// Use the saved credential for it; otherwise a fresh one.
    pub reuse_saved_credential: bool,
}

/// The last-sent time of a command sent now, or of one that could not be
/// sent (set one timeout back, so that the first retry comes at once).
pub open spec fn sent_time(sent: bool, now_millis: u64) -> u64 {
    if sent {
        now_millis
    } else if now_millis >= ACTION_RESPONSE_TIMEOUT_MILLIS {
        (now_millis - ACTION_RESPONSE_TIMEOUT_MILLIS) as u64
    } else {
        now_millis
    }
}

fn sent_time_of(sent: bool, now_millis: u64) -> (time: u64)
    ensures
        time == sent_time(sent, now_millis),
{
    if sent {
        now_millis
    } else if now_millis >= ACTION_RESPONSE_TIMEOUT_MILLIS {
        now_millis - ACTION_RESPONSE_TIMEOUT_MILLIS
    } else {
        now_millis
    }
}

/// Whether a command sent at `last_sent` has waited out the timeout at `now`.
pub open spec fn timed_out(last_sent_millis: u64, now_millis: u64) -> bool {
    now_millis >= last_sent_millis && now_millis - last_sent_millis >= ACTION_RESPONSE_TIMEOUT_MILLIS
}

impl OnlineConnection {
    /// Decides where a command goes: it waits while another is pending, is
    /// dropped with no active match, or goes to the active match. The board
    /// outbox stays locked while waiting and is unlocked when dropped.
    pub fn action_target(&mut self) -> (target: ActionTarget)
        ensures
            target == (if old(self).pending_action is Some {
                ActionTarget::Blocked
            } else if old(self).active_match is None {
                ActionTarget::NoActiveMatch
            } else {
                ActionTarget::Send(old(self).active_match->0)
            }),
            *final(self) == (OnlineConnection {
                action_outbox_locked: match target {
                    ActionTarget::Blocked => true,
                    ActionTarget::NoActiveMatch => false,
                    ActionTarget::Send(_) => old(self).action_outbox_locked,
                },
                ..*old(self)
            }),
    {
        if self.pending_action.is_some() {
            self.action_outbox_locked = true;
            return ActionTarget::Blocked;
        }
        match self.active_match {
            None => {
                self.action_outbox_locked = false;
                ActionTarget::NoActiveMatch
            },
            Some(id) => ActionTarget::Send(id),
        }
    }

    /// Records a command handed to the worker (`sent`) or left for the retry
    /// timer because the channel was busy.
    pub fn record_action(
        &mut self,
        match_id: u128,
        expected_revision: u64,
        idempotency_key: u128,
        sent: bool,
        now_millis: u64,
    )
        ensures
            final(self).pending_action == Some(
                PendingAction {
                    match_id,
                    expected_revision,
                    idempotency_key,
                    last_sent_millis: sent_time(sent, now_millis),
                    attempts: if sent {
                        1u32
                    } else {
                        0u32
                    },
                },
            ),
            final(self).status@ == (if sent {
                "Command pending authoritative acknowledgement."@
            } else {
                "Command queued; the bounded network channel is busy."@
            }),
            *final(self) == (OnlineConnection {
                pending_action: final(self).pending_action,
                status: final(self).status,
                action_outbox_locked: true,
                ..*old(self)
            }),
    {
        self.pending_action = Some(
            PendingAction {
                match_id,
                expected_revision,
                idempotency_key,
                last_sent_millis: sent_time_of(sent, now_millis),
                attempts: if sent {
                    1
                } else {
                    0
                },
            },
        );
        self.action_outbox_locked = true;
        self.status = if sent {
            String::from_str("Command pending authoritative acknowledgement.")
        } else {
            String::from_str("Command queued; the bounded network channel is busy.")
        };
    }

    /// Decides whether a match control may go now: only while no command and
    /// no control awaits an answer; otherwise it stays queued and locked.
    pub fn control_target(&mut self) -> (target: ControlTarget)
        ensures
            target == (if old(self).pending_action is Some || old(self).pending_control is Some {
                ControlTarget::Blocked
            } else {
                ControlTarget::Send
            }),
            *final(self) == (OnlineConnection {
                control_outbox_locked: if target == ControlTarget::Blocked {
                    true
                } else {
                    old(self).control_outbox_locked
                },
                ..*old(self)
            }),
    {
        if self.pending_action.is_some() || self.pending_control.is_some() {
            self.control_outbox_locked = true;
            ControlTarget::Blocked
        } else {
            ControlTarget::Send
        }
    }

    /// Drops a control that names no match.
    pub fn reject_malformed_control(&mut self)
        ensures
            final(self).status@ == "The lifecycle command was malformed."@,
            *final(self) == (OnlineConnection {
                status: final(self).status,
                control_outbox_locked: false,
                ..*old(self)
            }),
    {
        self.control_outbox_locked = false;
        self.status = String::from_str("The lifecycle command was malformed.");
    }

    /// Records a match control handed to the worker (`sent`) or left for the
    /// retry timer.
    pub fn record_control(
        &mut self,
        idempotency_key: u128,
        kind: OnlineControlKind,
        sent: bool,
        now_millis: u64,
    )
        ensures
            final(self).pending_control == Some(
                PendingControl {
                    idempotency_key,
                    kind,
                    last_sent_millis: sent_time(sent, now_millis),
                    attempts: if sent {
                        1u32
                    } else {
                        0u32
                    },
                },
            ),
            final(self).status@ == (if sent {
                "Match control pending authoritative response."@
            } else {
                "Match control queued; the bounded network channel is busy."@
            }),
            *final(self) == (OnlineConnection {
                pending_control: final(self).pending_control,
                status: final(self).status,
                control_outbox_locked: true,
                ..*old(self)
            }),
    {
        self.pending_control = Some(
            PendingControl {
                idempotency_key,
                kind,
                last_sent_millis: sent_time_of(sent, now_millis),
                attempts: if sent {
                    1
                } else {
                    0
                },
            },
        );
        self.control_outbox_locked = true;
        self.status = if sent {
            String::from_str("Match control pending authoritative response.")
        } else {
            String::from_str("Match control queued; the bounded network channel is busy.")
        };
    }

    /// Which pending items are due to be sent again at `now`: only while
    /// connected (or the match is over), after the timeout; a leave is never
    /// sent again.
    pub fn due_retries(&self, now_millis: u64) -> (due: (bool, bool))
        ensures
            due.0 == ((self.phase == ConnectionPhase::Connected || self.phase
                == ConnectionPhase::Terminal) && (self.pending_action matches Some(p) && timed_out(
                p.last_sent_millis,
                now_millis,
            ))),
            due.1 == ((self.phase == ConnectionPhase::Connected || self.phase
                == ConnectionPhase::Terminal) && (self.pending_control matches Some(p) && p.kind
                != OnlineControlKind::Leave && timed_out(p.last_sent_millis, now_millis))),
    {
        let live = self.phase == ConnectionPhase::Connected || self.phase
            == ConnectionPhase::Terminal;
        let action = match self.pending_action {
            Some(p) => live && now_millis >= p.last_sent_millis && now_millis - p.last_sent_millis
                >= ACTION_RESPONSE_TIMEOUT_MILLIS,
            None => false,
        };
        let control = match self.pending_control {
            Some(p) => live && p.kind != OnlineControlKind::Leave && now_millis
                >= p.last_sent_millis && now_millis - p.last_sent_millis
                >= ACTION_RESPONSE_TIMEOUT_MILLIS,
            None => false,
        };
        (action, control)
    }

    /// Records that the pending command was sent again at `now`.
    pub fn record_action_retry(&mut self, now_millis: u64)
        ensures
            final(self).pending_action == (match old(self).pending_action {
                Some(p) => Some(
                    PendingAction {
                        last_sent_millis: now_millis,
                        attempts: if p.attempts == u32::MAX {
                            u32::MAX
                        } else {
                            (p.attempts + 1) as u32
                        },
                        ..p
                    },
                ),
                None => None,
            }),
            old(self).pending_action is Some ==> final(self).status@
                == "Command response timed out; retrying the same idempotent intent."@,
            *final(self) == (OnlineConnection {
                pending_action: final(self).pending_action,
                status: final(self).status,
                ..*old(self)
            }),
            old(self).pending_action is None ==> final(self).status == old(self).status,
    {
        if let Some(p) = self.pending_action {
            self.pending_action = Some(
                PendingAction {
                    last_sent_millis: now_millis,
                    attempts: p.attempts.saturating_add(1),
                    ..p
                },
            );
            self.status = String::from_str(
                "Command response timed out; retrying the same idempotent intent.",
            );
        }
    }

    /// Records that the pending control was sent again at `now`.
    pub fn record_control_retry(&mut self, now_millis: u64)
        ensures
            final(self).pending_control == (match old(self).pending_control {
                Some(p) => Some(
                    PendingControl {
                        last_sent_millis: now_millis,
                        attempts: if p.attempts == u32::MAX {
                            u32::MAX
                        } else {
                            (p.attempts + 1) as u32
                        },
                        ..p
                    },
                ),
                None => None,
            }),
            old(self).pending_control is Some ==> final(self).status@
                == "Match control timed out; retrying the same idempotent request."@,
            *final(self) == (OnlineConnection {
                pending_control: final(self).pending_control,
                status: final(self).status,
                ..*old(self)
            }),
            old(self).pending_control is None ==> final(self).status == old(self).status,
    {
        if let Some(p) = self.pending_control {
            self.pending_control = Some(
                PendingControl {
                    last_sent_millis: now_millis,
                    attempts: p.attempts.saturating_add(1),
                    ..p
                },
            );
            self.status = String::from_str(
                "Match control timed out; retrying the same idempotent request.",
            );
        }
    }

    /// Whether the ready request still has to be sent.
    pub fn ready_due(&self, ready_requested: bool) -> (due: bool)
        ensures
            due == (ready_requested && !self.ready_sent),
    {
        ready_requested && !self.ready_sent
    }

    /// Records that the ready request went out.
    pub fn record_ready_sent(&mut self)
        ensures
            *final(self) == (OnlineConnection { ready_sent: true, ..*old(self) }),
    {
        self.ready_sent = true;
    }

    /// Records that the forced resynchronisation went out.
    pub fn record_resync_sent(&mut self)
        ensures
            *final(self) == (OnlineConnection { force_resync_requested: false, ..*old(self) }),
    {
        self.force_resync_requested = false;
    }

    /// The worker commands for one frame of connection keys in an online
    /// flow: retry (restoring the saved seat when offline or rejected and one
    /// is saved), cancel while connecting or retrying, and forget the saved
    /// seat (which also forgets the lobby match seen).
    pub fn connection_keys(
        &mut self,
        in_online_flow: bool,
        retry_key: bool,
        cancel_key: bool,
        forget_key: bool,
        has_saved_seat: bool,
    ) -> (controls: ConnectionControls)
        ensures
            controls.retry == (if in_online_flow && retry_key {
                if (old(self).phase == ConnectionPhase::Offline || old(self).phase
                    == ConnectionPhase::Rejected) && has_saved_seat {
                    Some(RetryRequest::Restore)
                } else {
                    Some(RetryRequest::Retry)
                }
            } else {
                None
            }),
            controls.cancel == (in_online_flow && cancel_key && (old(self).phase
                == ConnectionPhase::Connecting || old(self).phase is Retrying)),
            controls.forget == (in_online_flow && forget_key && has_saved_seat),
            *final(self) == (OnlineConnection {
                observed_lobby_match: if controls.forget {
                    None
                } else {
                    old(self).observed_lobby_match
                },
                ..*old(self)
            }),
    {
        if !in_online_flow {
            return ConnectionControls { retry: None, cancel: false, forget: false };
        }
        let retry = if retry_key {
            if (self.phase == ConnectionPhase::Offline || self.phase == ConnectionPhase::Rejected)
                && has_saved_seat {
                Some(RetryRequest::Restore)
            } else {
                Some(RetryRequest::Retry)
            }
        } else {
            None
        };
        let cancel = cancel_key && match self.phase {
            ConnectionPhase::Connecting | ConnectionPhase::Retrying { .. } => true,
            _ => false,
        };
        let forget = forget_key && has_saved_seat;
        if forget {
            self.observed_lobby_match = None;
        }
        ConnectionControls { retry, cancel, forget }
    }

    /// What to ask of the worker to reach the lobby seat: once per run, the
    /// saved seat is restored when the lobby has none; a lobby seat not yet
    /// seen is connected to (reusing the saved credential of the same match),
    /// which resets the ready request and the snapshots seen.
    pub fn plan_restore(
        &mut self,
        lobby_match: Option<u128>,
        saved_match: Option<u128>,
    ) -> (plan: RestorePlan)
        ensures
            plan.restore_saved == (!old(self).restore_requested && lobby_match is None
                && saved_match is Some),
            final(self).restore_requested,
            plan.connect == (match lobby_match {
                Some(id) => if old(self).observed_lobby_match == Some(id) {
                    None
                } else {
                    Some(id)
                },
                None => None,
            }),
            plan.reuse_saved_credential == (plan.connect is Some && saved_match == lobby_match),
            plan.connect is Some ==> *final(self) == (OnlineConnection {
                restore_requested: true,
                observed_lobby_match: lobby_match,
                ready_sent: false,
                last_snapshot: None,
                force_resync_requested: false,
                ..*old(self)
            }),
            plan.connect is None ==> *final(self) == (OnlineConnection {
                restore_requested: true,
                ..*old(self)
            }),
    {
        let restore_saved = !self.restore_requested && lobby_match.is_none()
            && saved_match.is_some();
        self.restore_requested = true;
        let id = match lobby_match {
            None => {
                return RestorePlan { restore_saved, connect: None, reuse_saved_credential: false };
            },
            Some(id) => id,
        };
        if self.observed_lobby_match == Some(id) {
            return RestorePlan { restore_saved, connect: None, reuse_saved_credential: false };
        }
        self.observed_lobby_match = Some(id);
        self.ready_sent = false;
        self.last_snapshot = None;
        self.force_resync_requested = false;
        RestorePlan { restore_saved, connect: Some(id), reuse_saved_credential: saved_match == Some(id) }
    }
}

/// The name of a match control in the status line.
pub open spec fn control_kind_name(kind: OnlineControlKind) -> Seq<char> {
    match kind {
        OnlineControlKind::Draw => "Draw"@,
        OnlineControlKind::Resign => "Resign"@,
        OnlineControlKind::Rematch => "Rematch"@,
        OnlineControlKind::Leave => "Leave"@,
    }
}

/// What awaits the server, as the status line shows it: the command first,
/// else the match control, with the number of times it was sent.
pub open spec fn pending_text(connection: OnlineConnection) -> Seq<char> {
    match connection.pending_action {
        Some(pending) => "command pending · attempt "@ + decimal(pending.attempts as nat),
        None => match connection.pending_control {
            Some(pending) => control_kind_name(pending.kind) + " control pending · attempt "@
                + decimal(pending.attempts as nat),
            None => "no command pending"@,
        },
    }
}

fn append_text(text: &mut String, part: &str)
    ensures
        final(text)@ == old(text)@ + part@,
{
    vstd::string::StringExecFns::append(text, part);
}

impl OnlineConnection {
    /// The part of the status line that says what awaits the server.
    pub fn pending_status(&self) -> (text: String)
        ensures
            text@ == pending_text(*self),
    {
        match &self.pending_action {
            Some(pending) => {
                let mut text = String::from_str("command pending · attempt ");
                let count = decimal_text(pending.attempts as u64);
                append_text(&mut text, count.as_str());
                text
            },
            None => match &self.pending_control {
                Some(pending) => {
                    let mut text = String::from_str(
                        match pending.kind {
                            OnlineControlKind::Draw => "Draw",
                            OnlineControlKind::Resign => "Resign",
                            OnlineControlKind::Rematch => "Rematch",
                            OnlineControlKind::Leave => "Leave",
                        },
                    );
                    append_text(&mut text, " control pending · attempt ");
                    let count = decimal_text(pending.attempts as u64);
                    append_text(&mut text, count.as_str());
                    text
                },
                None => String::from_str("no command pending"),
            },
        }
    }

    /// The status line is shown while a seat is saved or the connection is
    /// anything but offline.
    pub fn status_visible(&self, has_saved_seat: bool) -> (visible: bool)
        ensures
            visible == (has_saved_seat || self.phase != ConnectionPhase::Offline),
    {
        has_saved_seat || !matches!(self.phase, ConnectionPhase::Offline)
    }
}

} // verus!
