//! Decisions of the match WebSocket and the HTTP lobby: which room state a
//! connection sees, how an authenticated message is routed, and which public
//! error answers a refusal.
use vstd::prelude::*;

use crate::actors::{ActorSubmitError, CommandRejection};
use crate::rooms::{
    fresh_lobby, joined_lobby, started_room, ClockSettings, Player, Room, RoomError, RoomPhase,
    PROTOCOL_VERSION,
};
use crate::text::{decimal, decimal_text};

verus! {

/// Room state as the protocol reports it to connections.
#[derive(Debug, Clone, Copy, PartialEq, Eq, Structural)]
pub enum ConnectionState {
    WaitingForOpponent,
    WaitingForReady,
    Connected,
    OpponentDisconnected,
    Finished,
}

/// Error categories of the protocol.
#[derive(Debug, Clone, Copy, PartialEq, Eq, Structural)]
pub enum ErrorCode {
    InvalidRequest,
    RoomNotFound,
    RoomFull,
    Unauthorized,
    RateLimited,
    IncompatibleProtocol,
    StaleRevision,
    InvalidAction,
    Internal,
}

/// Where a rematch negotiation stands.
#[derive(Debug, Clone, Copy, PartialEq, Eq, Structural)]
pub enum RematchState {
    Requested,
    Accepted,
    Declined,
}

/// The connection state that a room phase is reported as.
pub open spec fn phase_state(phase: RoomPhase) -> ConnectionState {
    match phase {
        RoomPhase::WaitingForOpponent => ConnectionState::WaitingForOpponent,
        RoomPhase::WaitingForReady => ConnectionState::WaitingForReady,
        RoomPhase::Playing => ConnectionState::Connected,
        RoomPhase::Finished => ConnectionState::Finished,
    }
}

/// Reports a room phase as a connection state.
pub fn connection_state_for_phase(phase: RoomPhase) -> (state: ConnectionState)
    ensures
        state == phase_state(phase),
{
    match phase {
        RoomPhase::WaitingForOpponent => ConnectionState::WaitingForOpponent,
        RoomPhase::WaitingForReady => ConnectionState::WaitingForReady,
        RoomPhase::Playing => ConnectionState::Connected,
        RoomPhase::Finished => ConnectionState::Finished,
    }
}

/// A seat's draw control for its own match is submitted as that seat's draw
/// action: an offer offers, and an answer accepts exactly when the control is
/// Accept (a rejection never accepts the draw).
pub proof fn law_draw_answers_follow_the_command(
    match_id: u128,
    command: DrawCommand,
    seat: Player,
)
    ensures
        accepted_route(ClientRequest::Draw { match_id, command }, seat) matches Route::SubmitDraw(
            action,
        ) && match action {
            DrawAction::OfferDraw { player } => command == DrawCommand::Offer && player == seat,
            DrawAction::RespondToDraw { player, accept } => command != DrawCommand::Offer
                && player == seat && (accept <==> command == DrawCommand::Accept),
        },
{
}

/// Distinct room phases are reported as distinct connection states, so a
/// connection can always tell which phase the room is in.
pub proof fn law_connection_state_names_the_phase(a: RoomPhase, b: RoomPhase)
    ensures
        phase_state(a) == phase_state(b) <==> a == b,
{
}

/// What a room reports follows the lobby: a freshly opened lobby waits for an
/// opponent, a lobby the guest has just joined waits for readiness, and a
/// started match is reported connected.
pub proof fn law_reported_state_follows_the_lobby(
    room: Room,
    after: Room,
    code: Seq<char>,
    match_id: u128,
    scenario_id: Seq<char>,
    scenario_hash: Seq<char>,
    clock: Option<ClockSettings>,
    name: Seq<char>,
    token: Seq<char>,
    now: u64,
)
    ensures
        fresh_lobby(room, code, match_id, scenario_id, scenario_hash, clock, name, token, now)
            ==> phase_state(room.phase) == ConnectionState::WaitingForOpponent,
        joined_lobby(room, after, name, token, now) ==> phase_state(after.phase)
            == ConnectionState::WaitingForReady,
        started_room(room, after, match_id, now) ==> phase_state(after.phase)
            == ConnectionState::Connected,
{
}

/// Every message for the authenticated match is routed by its own kind, and
/// only a rematch decline withdraws the negotiation; a message for another
/// match is refused as unauthorized, whatever it is.
pub proof fn law_routes_follow_the_request(request: ClientRequest, authenticated_match: u128, seat: Player)
    requires
        request_match(request) is Some,
    ensures
        request_match(request)->0 == authenticated_match ==> match request {
            ClientRequest::Ready { .. } => accepted_route(request, seat) == Route::Ready,
            ClientRequest::Action { .. } => accepted_route(request, seat) == Route::SubmitAction,
            ClientRequest::Draw { .. } => accepted_route(request, seat) is SubmitDraw,
            ClientRequest::Rematch { command, .. } => (accepted_route(request, seat)
                == Route::DeclineRematch <==> command == RematchCommand::Decline)
                && (accepted_route(request, seat) == Route::DeclineRematch || accepted_route(
                request,
                seat,
            ) == Route::AcceptRematch),
            ClientRequest::Leave { .. } => accepted_route(request, seat) == Route::Leave,
            ClientRequest::Authenticate => false,
        },
{
}

/// Which seats of a match hold an open connection.
#[derive(Debug, Clone, Copy, PartialEq, Eq, Structural, Default)]
pub struct SeatPresence {
    pub north: bool,
    pub south: bool,
}

/// The room state of a match with `presence` whose latest snapshot has (or has
/// not) ended: finished once ended, connected while both seats are present,
/// else an opponent is away.
pub open spec fn presence_state(presence: SeatPresence, ended: bool) -> ConnectionState {
    if ended {
        ConnectionState::Finished
    } else if presence.north && presence.south {
        ConnectionState::Connected
    } else {
        ConnectionState::OpponentDisconnected
    }
}

impl SeatPresence {
    /// Records that `seat` connected or disconnected, and returns the room state
    /// that all connections of the match are told.
    pub fn set_seat_connected(&mut self, seat: Player, connected: bool, ended: bool) -> (state:
        ConnectionState)
        ensures
            final(self).north == if seat == Player::North {
                connected
            } else {
                old(self).north
            },
            final(self).south == if seat == Player::South {
                connected
            } else {
                old(self).south
            },
            state == presence_state(*final(self), ended),
    {
        match seat {
            Player::North => self.north = connected,
            Player::South => self.south = connected,
        }
        if ended {
            ConnectionState::Finished
        } else if self.north && self.south {
            ConnectionState::Connected
        } else {
            ConnectionState::OpponentDisconnected
        }
    }
}

/// A disconnection never reports both seats connected, and a finished match
/// stays finished whoever comes and goes.
pub proof fn law_presence_reports(presence: SeatPresence, ended: bool)
    ensures
        ended ==> presence_state(presence, ended) == ConnectionState::Finished,
        !presence.north || !presence.south ==> presence_state(presence, ended)
            != ConnectionState::Connected,
{
}

/// The public reply to a refused command.
pub fn rejection_reply(reason: &CommandRejection) -> (reply: (ErrorCode, &'static str))
    ensures
        reply.0 == match reason {
            CommandRejection::WrongSeat => ErrorCode::Unauthorized,
            _ => ErrorCode::InvalidAction,
        },
        reply.1@ == match reason {
            CommandRejection::WrongSeat => "Wrong seat."@,
            CommandRejection::InactivePhase => "Match is not active."@,
            CommandRejection::ExpiredTime => "Clock expired."@,
            CommandRejection::IllegalAction(_) => "Action is illegal."@,
        },
{
    match reason {
        CommandRejection::WrongSeat => (ErrorCode::Unauthorized, "Wrong seat."),
        CommandRejection::InactivePhase => (ErrorCode::InvalidAction, "Match is not active."),
        CommandRejection::ExpiredTime => (ErrorCode::InvalidAction, "Clock expired."),
        CommandRejection::IllegalAction(_) => (ErrorCode::InvalidAction, "Action is illegal."),
    }
}

/// The public reply to a command that could not reach its actor: a full queue
/// is rate limiting, anything else an internal error; retryable as the error is.
pub fn submit_error_reply(error: &ActorSubmitError) -> (reply: (ErrorCode, bool))
    ensures
        reply.0 == if *error == ActorSubmitError::QueueFull {
            ErrorCode::RateLimited
        } else {
            ErrorCode::Internal
        },
        reply.1 == !(*error is Load),
{
    let code = match error {
        ActorSubmitError::QueueFull => ErrorCode::RateLimited,
        _ => ErrorCode::Internal,
    };
    (code, error.retryable())
}

/// An HTTP error reply of the lobby.
#[derive(Debug, Clone, Copy, PartialEq, Eq)]
pub struct HttpError {
    pub status: u16,
    pub code: ErrorCode,
    pub message: &'static str,
    pub retryable: bool,
}

/// The HTTP reply to a refused lobby request; only server-side failures (status
/// 5xx) are retryable.
pub fn http_error(error: RoomError) -> (reply: HttpError)
    ensures
        (reply.status, reply.code) == match error {
            RoomError::InvalidRequest | RoomError::UnknownScenario => (400u16, ErrorCode::InvalidRequest),
            RoomError::NotFound => (404u16, ErrorCode::RoomNotFound),
            RoomError::Full => (409u16, ErrorCode::RoomFull),
            RoomError::Unauthorized => (401u16, ErrorCode::Unauthorized),
            RoomError::WrongPhase => (409u16, ErrorCode::InvalidRequest),
            RoomError::CodeSpaceExhausted => (503u16, ErrorCode::Internal),
            RoomError::RateLimited => (429u16, ErrorCode::RateLimited),
            RoomError::IncompatibleProtocol => (426u16, ErrorCode::IncompatibleProtocol),
        },
        reply.message@ == match error {
            RoomError::InvalidRequest | RoomError::UnknownScenario => "The room request is invalid."@,
            RoomError::NotFound => "The room was not found."@,
            RoomError::Full => "The room is full."@,
            RoomError::Unauthorized => "The seat credential is invalid."@,
            RoomError::WrongPhase => "The room is not in the required phase."@,
            RoomError::CodeSpaceExhausted => "A room code is temporarily unavailable."@,
            RoomError::RateLimited => "Too many requests."@,
            RoomError::IncompatibleProtocol => "The client protocol is not the server protocol."@,
        },
        reply.retryable == (500 <= reply.status < 600),
{
    let (status, code, message): (u16, ErrorCode, &'static str) = match error {
        RoomError::InvalidRequest | RoomError::UnknownScenario => (400, ErrorCode::InvalidRequest, "The room request is invalid."),
        RoomError::NotFound => (404, ErrorCode::RoomNotFound, "The room was not found."),
        RoomError::Full => (409, ErrorCode::RoomFull, "The room is full."),
        RoomError::Unauthorized => (401, ErrorCode::Unauthorized, "The seat credential is invalid."),
        RoomError::WrongPhase => (409, ErrorCode::InvalidRequest, "The room is not in the required phase."),
        RoomError::CodeSpaceExhausted => (503, ErrorCode::Internal, "A room code is temporarily unavailable."),
        RoomError::RateLimited => (429, ErrorCode::RateLimited, "Too many requests."),
        RoomError::IncompatibleProtocol => (
            426,
            ErrorCode::IncompatibleProtocol,
            "The client protocol is not the server protocol.",
        ),
    };
    HttpError { status, code, message, retryable: 500 <= status && status < 600 }
}

/// What a connection speaking protocol `client` is told when the server
/// speaks another version: both versions, named.
pub open spec fn protocol_mismatch_text(client: u16) -> Seq<char> {
    "Client protocol "@ + decimal(client as nat) + " is not supported; server protocol is "@
        + decimal(PROTOCOL_VERSION as nat) + "."@
}

fn append_text(text: &mut String, part: &str)
    ensures
        final(text)@ == old(text)@ + part@,
{
    vstd::string::StringExecFns::append(text, part);
}

/// Accepts a connection's protocol version only when it is the server's;
/// otherwise gives the message that names both versions.
pub fn check_protocol(client: u16) -> (result: Result<(), String>)
    ensures
        result is Ok <==> client == PROTOCOL_VERSION,
        result matches Err(m) ==> m@ == protocol_mismatch_text(client),
{
    if client == PROTOCOL_VERSION {
        return Ok(());
    }
    let mut text = String::from_str("Client protocol ");
    let c = decimal_text(client as u64);
    append_text(&mut text, c.as_str());
    append_text(&mut text, " is not supported; server protocol is ");
    let v = decimal_text(PROTOCOL_VERSION as u64);
    append_text(&mut text, v.as_str());
    append_text(&mut text, ".");
    Err(text)
}

/// The draw controls of the protocol.
#[derive(Debug, Clone, Copy, PartialEq, Eq, Structural)]
pub enum DrawCommand {
    Offer,
    Accept,
    Reject,
}

/// The rematch controls of the protocol.
#[derive(Debug, Clone, Copy, PartialEq, Eq, Structural)]
pub enum RematchCommand {
    Request,
    Accept,
    Decline,
}

/// What an authenticated client sent, with the match its context names.
#[derive(Debug, Clone, Copy, PartialEq, Eq, Structural)]
pub enum ClientRequest {
    Authenticate,
    Ready { match_id: u128 },
    Action { match_id: u128 },
    Draw { match_id: u128, command: DrawCommand },
    Rematch { match_id: u128, command: RematchCommand },
    Leave { match_id: u128 },
}

/// The draw action that a seat's draw control stands for.
#[derive(Debug, Clone, Copy, PartialEq, Eq, Structural)]
pub enum DrawAction {
    OfferDraw { player: Player },
    RespondToDraw { player: Player, accept: bool },
}

/// What the connection does with one authenticated message.
#[derive(Debug, Clone, Copy, PartialEq, Eq)]
pub enum Route {
    /// Answer with an error and keep the connection.
    Refuse { code: ErrorCode, message: &'static str },
    /// Mark the seat ready.
    Ready,
    /// Submit the client's canonical action to the match actor.
    SubmitAction,
    /// Submit the seat's draw action to the match actor.
    SubmitDraw(DrawAction),
    /// Withdraw the rematch negotiation.
    DeclineRematch,
    /// Accept (or request) a rematch.
    AcceptRematch,
    /// Leave the lobby and close the connection.
    Leave,
}

/// The match that a request's context names (none for an authentication).
pub open spec fn request_match(request: ClientRequest) -> Option<u128> {
    match request {
        ClientRequest::Authenticate => None,
        ClientRequest::Ready { match_id } => Some(match_id),
        ClientRequest::Action { match_id } => Some(match_id),
        ClientRequest::Draw { match_id, .. } => Some(match_id),
        ClientRequest::Rematch { match_id, .. } => Some(match_id),
        ClientRequest::Leave { match_id } => Some(match_id),
    }
}

/// The route of a request for the authenticated match: draw controls become
/// the seat's draw actions, a declined rematch withdraws the negotiation, any
/// other rematch control accepts.
pub open spec fn accepted_route(request: ClientRequest, seat: Player) -> Route {
    match request {
        ClientRequest::Ready { .. } => Route::Ready,
        ClientRequest::Action { .. } => Route::SubmitAction,
        ClientRequest::Draw { command, .. } => Route::SubmitDraw(
            match command {
                DrawCommand::Offer => DrawAction::OfferDraw { player: seat },
                DrawCommand::Accept => DrawAction::RespondToDraw { player: seat, accept: true },
                DrawCommand::Reject => DrawAction::RespondToDraw { player: seat, accept: false },
            },
        ),
        ClientRequest::Rematch { command, .. } => if command == RematchCommand::Decline {
            Route::DeclineRematch
        } else {
            Route::AcceptRematch
        },
        _ => Route::Leave,
    }
}

/// Routes one message of `seat`, authenticated for `authenticated_match`:
/// a second authentication is refused, a message for another match is refused
/// as the wrong match, and the rest follow `accepted_route`.
pub fn route_message(request: ClientRequest, authenticated_match: u128, seat: Player) -> (route: Route)
    ensures
        match request_match(request) {
            None => route is Refuse && route->code == ErrorCode::InvalidRequest && route->message@
                == "Already authenticated."@,
            Some(m) => if m != authenticated_match {
                route is Refuse && route->code == ErrorCode::Unauthorized && route->message@
                    == "Wrong match."@
            } else {
                route == accepted_route(request, seat)
            },
        },
{
    let match_id = match request {
        ClientRequest::Authenticate => {
            return Route::Refuse { code: ErrorCode::InvalidRequest, message: "Already authenticated." };
        },
        ClientRequest::Ready { match_id } => match_id,
        ClientRequest::Action { match_id } => match_id,
        ClientRequest::Draw { match_id, .. } => match_id,
        ClientRequest::Rematch { match_id, .. } => match_id,
        ClientRequest::Leave { match_id } => match_id,
    };
    if match_id != authenticated_match {
        return Route::Refuse { code: ErrorCode::Unauthorized, message: "Wrong match." };
    }
    match request {
        ClientRequest::Authenticate => Route::Refuse {
            code: ErrorCode::InvalidRequest,
            message: "Already authenticated.",
        },
        ClientRequest::Ready { .. } => Route::Ready,
        ClientRequest::Action { .. } => Route::SubmitAction,
        ClientRequest::Draw { command, .. } => Route::SubmitDraw(
            match command {
                DrawCommand::Offer => DrawAction::OfferDraw { player: seat },
                DrawCommand::Accept => DrawAction::RespondToDraw { player: seat, accept: true },
                DrawCommand::Reject => DrawAction::RespondToDraw { player: seat, accept: false },
            },
        ),
        ClientRequest::Rematch { command, .. } => if command == RematchCommand::Decline {
            Route::DeclineRematch
        } else {
            Route::AcceptRematch
        },
        ClientRequest::Leave { .. } => Route::Leave,
    }
}

/// What follows a ready request.
#[derive(Debug, Clone, Copy, PartialEq, Eq, Structural)]
pub enum ReadyFollowUp {
    /// Both seats are ready: start the authoritative match, then report the
    /// room connected.
    StartMatch,
    /// Report the room's new state.
    Publish(ConnectionState),
    /// Answer that the ready request was rejected.
    Reject,
}

/// Decides the follow-up of a ready request from its outcome.
pub fn ready_follow_up(outcome: Result<RoomPhase, RoomError>) -> (follow_up: ReadyFollowUp)
    ensures
        follow_up == match outcome {
            Ok(RoomPhase::Playing) => ReadyFollowUp::StartMatch,
            Ok(phase) => ReadyFollowUp::Publish(phase_state(phase)),
            Err(_) => ReadyFollowUp::Reject,
        },
{
    match outcome {
        Ok(RoomPhase::Playing) => ReadyFollowUp::StartMatch,
        Ok(phase) => ReadyFollowUp::Publish(connection_state_for_phase(phase)),
        Err(_) => ReadyFollowUp::Reject,
    }
}

/// What follows a rematch acceptance.
#[derive(Debug, Clone, Copy, PartialEq, Eq, Structural)]
pub enum RematchFollowUp {
    /// One seat has accepted: report the request.
    PublishRequested,
    /// Both accepted: start the new match, report acceptance, and close this
    /// connection (the clients reconnect to the new match).
    StartAndClose,
    /// Refused: nothing to report.
    Ignore,
}

/// Decides the follow-up of a rematch acceptance from its outcome.
pub fn rematch_follow_up(outcome: Result<RoomPhase, RoomError>) -> (follow_up: RematchFollowUp)
    ensures
        follow_up == match outcome {
            Ok(RoomPhase::Finished) => RematchFollowUp::PublishRequested,
            Ok(RoomPhase::Playing) => RematchFollowUp::StartAndClose,
            _ => RematchFollowUp::Ignore,
        },
{
    match outcome {
        Ok(RoomPhase::Finished) => RematchFollowUp::PublishRequested,
        Ok(RoomPhase::Playing) => RematchFollowUp::StartAndClose,
        _ => RematchFollowUp::Ignore,
    }
}

} // verus!
