//! The online lobby: the server address rules, room code normalisation, the
//! public messages for refused requests, the invitation text, and the screens
//! of hosting, joining and waiting for a match.
use vstd::prelude::*;

use crate::connections::ErrorCode;
use crate::lifecycle::{ClientFlow, LifecycleKeys, cycled_scenario, edited_clock, update_clock_setup};
use crate::rooms::{ClockSettings, Player};
use crate::text::{decimal, decimal_text, is_whitespace, is_whitespace_char, push_char, same_text, trim, trim_text};

verus! {

/// What a server address is made of, as the URL parser reads it.
#[derive(Debug)]
pub struct UrlParts {
    pub scheme: String,
    pub username: String,
    pub password: Option<String>,
    pub host: Option<String>,
    pub query: Option<String>,
    pub fragment: Option<String>,
}

/// What the URL parser makes of a text: its parts, or nothing when it is not
/// a URL.
pub uninterp spec fn parsed_url(text: Seq<char>) -> Option<UrlParts>;

/// The text of the URL parsed from `text` after its scheme is set to
/// `scheme`, its path to `path`, its query to `query` and its fragment to
/// `fragment`; nothing when the text is not a URL or the scheme cannot be set.
pub uninterp spec fn rebuilt_url(
    text: Seq<char>,
    scheme: Seq<char>,
    path: Seq<char>,
    query: Option<Seq<char>>,
    fragment: Option<Seq<char>>,
) -> Option<Seq<char>>;

/// Parses `text` as a URL with `url::Url::parse` and hands out its parts.
#[verifier::external_body]
fn parse_url(text: &str) -> (parts: Option<UrlParts>)
    ensures
        parts == parsed_url(text@),
{
    match url::Url::parse(text) {
        Ok(url) => Some(
            UrlParts {
                scheme: url.scheme().to_owned(),
                username: url.username().to_owned(),
                password: url.password().map(str::to_owned),
                host: url.host_str().map(str::to_owned),
                query: url.query().map(str::to_owned),
                fragment: url.fragment().map(str::to_owned),
            },
        ),
        Err(_) => None,
    }
}

/// An optional text as characters.
pub open spec fn text_view(part: Option<&str>) -> Option<Seq<char>> {
    match part {
        Some(t) => Some(t@),
        None => None,
    }
}

/// Parses `text` with `url::Url::parse`, then calls `set_scheme`,
/// `set_path`, `set_query` and `set_fragment` with the given parts, and gives
/// the URL's text; nothing when parsing or setting the scheme fails.
#[verifier::external_body]
fn rebuild_url(text: &str, scheme: &str, path: &str, query: Option<&str>, fragment: Option<&str>) -> (url:
    Option<String>)
    ensures
        match url {
            Some(u) => rebuilt_url(text@, scheme@, path@, text_view(query), text_view(fragment)) == Some(u@),
            None => rebuilt_url(text@, scheme@, path@, text_view(query), text_view(fragment)) is None,
        },
{
    let mut url = match url::Url::parse(text) {
        Ok(url) => url,
        Err(_) => return None,
    };
    if url.set_scheme(scheme).is_err() {
        return None;
    }
    url.set_path(path);
    url.set_query(query);
    url.set_fragment(fragment);
    Some(url.to_string())
}

/// Whether a host is the local machine.
pub open spec fn local_host(host: Option<String>) -> bool {
    match host {
        Some(h) => h@ == "localhost"@ || h@ == "127.0.0.1"@ || h@ == "::1"@,
        None => false,
    }
}

/// Whether a host is the local machine.
pub fn is_local_host(host: &Option<String>) -> (local: bool)
    ensures
        local == local_host(*host),
{
    match host {
        Some(h) => same_text(h.as_str(), "localhost") || same_text(h.as_str(), "127.0.0.1")
            || same_text(h.as_str(), "::1"),
        None => false,
    }
}

/// Whether the parts carry credentials, query data or a fragment.
pub open spec fn has_extras(parts: UrlParts) -> bool {
    parts.username@.len() > 0 || parts.password is Some || parts.query is Some
        || parts.fragment is Some
}

/// The HTTP address of `path` on a match server given by its WebSocket
/// address, or why the address is refused.
pub open spec fn http_endpoint_of(server_url: Seq<char>, path: Seq<char>) -> Result<
    Seq<char>,
    Seq<char>,
> {
    let text = trim(server_url);
    match parsed_url(text) {
        None => Err("Enter a valid ws:// or wss:// server address."@),
        Some(parts) => if has_extras(parts) {
            Err("Server addresses cannot contain credentials, query data, or fragments."@)
        } else if parts.scheme@ == "wss"@ {
            match rebuilt_url(text, "https"@, path, None, None) {
                Some(u) => Ok(u),
                None => Err("The secure server address is invalid."@),
            }
        } else if parts.scheme@ == "ws"@ && local_host(parts.host) {
            match rebuilt_url(text, "http"@, path, None, None) {
                Some(u) => Ok(u),
                None => Err("The local server address is invalid."@),
            }
        } else if parts.scheme@ == "ws"@ {
            Err("Remote servers must use wss:// so seat setup is protected by TLS."@)
        } else {
            Err("Server addresses must begin with ws:// or wss://."@)
        },
    }
}

/// The HTTP address of `path` on a match server given by its WebSocket
/// address: `wss://` becomes `https://`, `ws://` is allowed for the local
/// machine only and becomes `http://`; credentials, query data and fragments
/// are refused.
pub fn http_endpoint(server_url: &str, path: &str) -> (endpoint: Result<String, String>)
    ensures
        match http_endpoint_of(server_url@, path@) {
            Ok(u) => endpoint is Ok && endpoint->Ok_0@ == u,
            Err(m) => endpoint is Err && endpoint->Err_0@ == m,
        },
{
    let text = trim_text(server_url);
    let parts = match parse_url(text.as_str()) {
        None => return Err(String::from_str("Enter a valid ws:// or wss:// server address.")),
        Some(parts) => parts,
    };
    if parts.username.unicode_len() > 0 || parts.password.is_some() || parts.query.is_some()
        || parts.fragment.is_some() {
        return Err(
            String::from_str(
                "Server addresses cannot contain credentials, query data, or fragments.",
            ),
        );
    }
    if same_text(parts.scheme.as_str(), "wss") {
        match rebuild_url(text.as_str(), "https", path, None, None) {
            Some(u) => Ok(u),
            None => Err(String::from_str("The secure server address is invalid.")),
        }
    } else if same_text(parts.scheme.as_str(), "ws") && is_local_host(&parts.host) {
        match rebuild_url(text.as_str(), "http", path, None, None) {
            Some(u) => Ok(u),
            None => Err(String::from_str("The local server address is invalid.")),
        }
    } else if same_text(parts.scheme.as_str(), "ws") {
        Err(String::from_str("Remote servers must use wss:// so seat setup is protected by TLS."))
    } else {
        Err(String::from_str("Server addresses must begin with ws:// or wss://."))
    }
}

/// The WebSocket address of a match server: `wss://`, or `ws://` on the local
/// machine, without credentials, query data or fragment, at path `/ws`.
pub open spec fn websocket_endpoint_of(server_url: Seq<char>) -> Option<Seq<char>> {
    let text = trim(server_url);
    match parsed_url(text) {
        None => None,
        Some(parts) => if has_extras(parts) {
            None
        } else if parts.scheme@ == "wss"@ || (parts.scheme@ == "ws"@ && local_host(parts.host)) {
            rebuilt_url(text, parts.scheme@, "/ws"@, None, None)
        } else {
            None
        },
    }
}

/// The WebSocket address that the connection worker dials, or nothing when
/// the address is invalid or insecure.
pub fn websocket_endpoint(server_url: &str) -> (endpoint: Option<String>)
    ensures
        match endpoint {
            Some(u) => websocket_endpoint_of(server_url@) == Some(u@),
            None => websocket_endpoint_of(server_url@) is None,
        },
{
    let text = trim_text(server_url);
    let parts = match parse_url(text.as_str()) {
        None => return None,
        Some(parts) => parts,
    };
    if parts.username.unicode_len() > 0 || parts.password.is_some() || parts.query.is_some()
        || parts.fragment.is_some() {
        return None;
    }
    if same_text(parts.scheme.as_str(), "wss") || (same_text(parts.scheme.as_str(), "ws")
        && is_local_host(&parts.host)) {
        rebuild_url(text.as_str(), parts.scheme.as_str(), "/ws", None, None)
    } else {
        None
    }
}

/// A text without its trailing slashes.
pub open spec fn without_trailing_slashes(s: Seq<char>) -> Seq<char>
    decreases s.len(),
{
    if s.len() > 0 && s.last() == '/' {
        without_trailing_slashes(s.drop_last())
    } else {
        s
    }
}

fn strip_trailing_slashes(s: &str) -> (result: String)
    ensures
        result@ == without_trailing_slashes(s@),
{
    let mut end: usize = s.unicode_len();
    assert(s@.subrange(0, end as int) =~= s@);
    while end > 0 && s.get_char(end - 1) == '/'
        invariant
            end <= s@.len(),
            without_trailing_slashes(s@.subrange(0, end as int)) == without_trailing_slashes(s@),
        decreases end,
    {
        assert(s@.subrange(0, end as int).drop_last() =~= s@.subrange(0, end - 1));
        end = end - 1;
    }
    let mut result = String::new();
    let mut i: usize = 0;
    while i < end
        invariant
            i <= end <= s@.len(),
            result@ == s@.subrange(0, i as int),
        decreases end - i,
    {
        push_char(&mut result, s.get_char(i));
        assert(s@.subrange(0, i as int).push(s@[i as int]) =~= s@.subrange(0, i + 1));
        i = i + 1;
    }
    assert(s@.subrange(0, end as int) == without_trailing_slashes(s@));
    result
}

/// The server address to share in an invitation: valid as a lobby address,
/// then without its path and trailing slashes.
pub open spec fn shareable_address_of(server_url: Seq<char>) -> Result<Seq<char>, Seq<char>> {
    match http_endpoint_of(server_url, "/rooms"@) {
        Err(m) => Err(m),
        Ok(_) => {
            let text = trim(server_url);
            match parsed_url(text) {
                None => Err("Enter a valid ws:// or wss:// server address."@),
                Some(parts) => match rebuilt_url(text, parts.scheme@, ""@, None, None) {
                    Some(u) => Ok(without_trailing_slashes(u)),
                    None => Err("Enter a valid ws:// or wss:// server address."@),
                },
            }
        },
    }
}

/// The server address to share in an invitation, or why it cannot be shared.
pub fn shareable_server_address(server_url: &str) -> (address: Result<String, String>)
    ensures
        match shareable_address_of(server_url@) {
            Ok(a) => address is Ok && address->Ok_0@ == a,
            Err(m) => address is Err && address->Err_0@ == m,
        },
{
    match http_endpoint(server_url, "/rooms") {
        Err(m) => return Err(m),
        Ok(_) => {},
    }
    let text = trim_text(server_url);
    let parts = match parse_url(text.as_str()) {
        None => return Err(String::from_str("Enter a valid ws:// or wss:// server address.")),
        Some(parts) => parts,
    };
    match rebuild_url(text.as_str(), parts.scheme.as_str(), "", None, None) {
        Some(u) => Ok(strip_trailing_slashes(u.as_str())),
        None => Err(String::from_str("Enter a valid ws:// or wss:// server address.")),
    }
}

/// What `char::to_uppercase` yields for a character.
pub uninterp spec fn unicode_uppercase(c: char) -> Seq<char>;

/// The characters of `char::to_uppercase` for `c`, as a `String`.
#[verifier::external_body]
fn uppercase_of(c: char) -> (upper: String)
    ensures
        upper@ == unicode_uppercase(c),
{
    c.to_uppercase().to_string()
}

/// A room code as typed, normalised: whitespace and hyphens dropped, every
/// other character in upper case.
pub open spec fn normalized_room_code(value: Seq<char>) -> Seq<char>
    decreases value.len(),
{
    if value.len() == 0 {
        Seq::empty()
    } else {
        let rest = normalized_room_code(value.drop_last());
        let c = value.last();
        if is_whitespace(c) || c == '-' {
            rest
        } else {
            rest + unicode_uppercase(c)
        }
    }
}

/// Normalises a typed room code before it is checked and sent.
pub fn normalize_room_code(value: &str) -> (code: String)
    ensures
        code@ == normalized_room_code(value@),
{
    let mut code = String::new();
    let mut i: usize = 0;
    let n = value.unicode_len();
    while i < n
        invariant
            i <= n == value@.len(),
            code@ == normalized_room_code(value@.subrange(0, i as int)),
        decreases n - i,
    {
        let c = value.get_char(i);
        assert(value@.subrange(0, i + 1).drop_last() =~= value@.subrange(0, i as int));
        if !is_whitespace_char(c) && c != '-' {
            let upper = uppercase_of(c);
            vstd::string::StringExecFns::append(&mut code, upper.as_str());
        }
        i = i + 1;
    }
    assert(value@.subrange(0, n as int) =~= value@);
    code
}

/// The invitation text: the room code, and the trimmed server address on a
/// line of its own when one is shared. The seat credential is never part of it.
pub open spec fn share_text(room_code: Seq<char>, server_url: Option<Seq<char>>) -> Seq<char> {
    match server_url {
        None => room_code,
        Some(url) => room_code + seq!['\n'] + trim(url),
    }
}

/// Builds the invitation text.
pub fn room_share_text(room_code: &str, server_url: Option<&str>) -> (text: String)
    ensures
        text@ == share_text(
            room_code@,
            match server_url {
                Some(u) => Some(u@),
                None => None,
            },
        ),
{
    let mut text = room_code.to_owned();
    match server_url {
        None => text,
        Some(url) => {
            push_char(&mut text, '\n');
            let trimmed = trim_text(url);
            vstd::string::StringExecFns::append(&mut text, trimmed.as_str());
            text
        },
    }
}

/// Why the room details were refused before any request was sent.
#[derive(Debug, Clone, Copy, PartialEq, Eq, Structural)]
pub enum ProtocolError {
    InvalidPlayerName,
    InvalidRoomCode,
    InvalidScenarioId,
    InvalidClock,
    UnsupportedProtocol,
    InvalidRequest,
}

/// The public message for refused room details.
pub open spec fn protocol_error_message(error: ProtocolError) -> Seq<char> {
    match error {
        ProtocolError::InvalidPlayerName => "Enter a player name of 1-24 characters."@,
        ProtocolError::InvalidRoomCode => "Enter the six-character room code."@,
        ProtocolError::InvalidScenarioId => "Select an installed scenario."@,
        ProtocolError::InvalidClock => "Choose a supported clock configuration."@,
        _ => "The room details are invalid."@,
    }
}

/// The public message for refused room details.
pub fn safe_protocol_error(error: ProtocolError) -> (message: String)
    ensures
        message@ == protocol_error_message(error),
{
    match error {
        ProtocolError::InvalidPlayerName => String::from_str("Enter a player name of 1-24 characters."),
        ProtocolError::InvalidRoomCode => String::from_str("Enter the six-character room code."),
        ProtocolError::InvalidScenarioId => String::from_str("Select an installed scenario."),
        ProtocolError::InvalidClock => String::from_str("Choose a supported clock configuration."),
        _ => String::from_str("The room details are invalid."),
    }
}

/// The public message for a refused room request, from the HTTP status and
/// the error code of the body when it holds one; the server's own wording is
/// never shown.
pub open spec fn public_server_error(status: u16, code: Option<ErrorCode>) -> Seq<char> {
    match code {
        Some(ErrorCode::RoomNotFound) => "That room was not found."@,
        Some(ErrorCode::RoomFull) => "That room already has two players."@,
        Some(ErrorCode::RateLimited) => "Too many requests; wait briefly and retry."@,
        Some(ErrorCode::IncompatibleProtocol) => "The client and server versions are incompatible."@,
        Some(ErrorCode::InvalidRequest) => "The room details were rejected."@,
        _ => if 500 <= status <= 599 {
            "The server is temporarily unavailable."@
        } else {
            "The server rejected the room request."@
        },
    }
}

/// Maps a refused room request to its public message.
pub fn decode_public_server_error(status: u16, code: Option<ErrorCode>) -> (message: String)
    ensures
        message@ == public_server_error(status, code),
{
    match code {
        Some(ErrorCode::RoomNotFound) => String::from_str("That room was not found."),
        Some(ErrorCode::RoomFull) => String::from_str("That room already has two players."),
        Some(ErrorCode::RateLimited) => String::from_str("Too many requests; wait briefly and retry."),
        Some(ErrorCode::IncompatibleProtocol) => String::from_str(
            "The client and server versions are incompatible.",
        ),
        Some(ErrorCode::InvalidRequest) => String::from_str("The room details were rejected."),
        _ => if 500 <= status && status <= 599 {
            String::from_str("The server is temporarily unavailable.")
        } else {
            String::from_str("The server rejected the room request.")
        },
    }
}

/// Accepts a room response only in the protocol version the client speaks.
pub fn validate_response_version(version: u16, expected: u16) -> (result: Result<(), String>)
    ensures
        result is Ok <==> version == expected,
        result is Err ==> result->Err_0@ == "The client and server versions are incompatible."@,
{
    if version == expected {
        Ok(())
    } else {
        Err(String::from_str("The client and server versions are incompatible."))
    }
}

/// What came of sending a room request over HTTP.
#[derive(Debug, Clone, Copy, PartialEq, Eq, Structural)]
pub enum LobbyReply {
    /// The server could not be reached.
    Unreachable,
    /// The reply's body could not be read.
    Unreadable,
    /// A reply with this HTTP status and a body of this many bytes.
    Body { status: u16, length: usize },
}

/// How a room request ends: an unreachable server, an unreadable or too large
/// body each have their message; a successful status needs a body that decodes
/// in the client's protocol version; any other status is answered by its
/// public message.
pub open spec fn lobby_reply_result(
    reply: LobbyReply,
    max_response_bytes: usize,
    decoded_version: Option<u16>,
    error_code: Option<ErrorCode>,
    expected_version: u16,
) -> Result<(), Seq<char>> {
    match reply {
        LobbyReply::Unreachable => Err(
            "The server could not be reached. Check the address and try again."@,
        ),
        LobbyReply::Unreadable => Err("The server response could not be read."@),
        LobbyReply::Body { status, length } => if length > max_response_bytes {
            Err("The server response was unexpectedly large."@)
        } else if 200 <= status <= 299 {
            match decoded_version {
                None => Err("The server returned an incompatible response."@),
                Some(version) => if version == expected_version {
                    Ok(())
                } else {
                    Err("The client and server versions are incompatible."@)
                },
            }
        } else {
            Err(public_server_error(status, error_code))
        },
    }
}

/// Judges the reply to a room request. `decoded_version` is the protocol
/// version of a successful body when it decoded, `error_code` the code of an
/// error body when it held one; each is only read where the status calls for
/// it.
pub fn judge_lobby_reply(
    reply: LobbyReply,
    max_response_bytes: usize,
    decoded_version: Option<u16>,
    error_code: Option<ErrorCode>,
    expected_version: u16,
) -> (result: Result<(), String>)
    ensures
        match lobby_reply_result(
            reply,
            max_response_bytes,
            decoded_version,
            error_code,
            expected_version,
        ) {
            Ok(()) => result is Ok,
            Err(message) => result matches Err(e) && e@ == message,
        },
{
    match reply {
        LobbyReply::Unreachable => Err(
            String::from_str("The server could not be reached. Check the address and try again."),
        ),
        LobbyReply::Unreadable => Err(String::from_str("The server response could not be read.")),
        LobbyReply::Body { status, length } => {
            if length > max_response_bytes {
                Err(String::from_str("The server response was unexpectedly large."))
            } else if 200 <= status && status <= 299 {
                match decoded_version {
                    None => Err(String::from_str("The server returned an incompatible response.")),
                    Some(version) => validate_response_version(version, expected_version),
                }
            } else {
                Err(decode_public_server_error(status, error_code))
            }
        },
    }
}

/// The lobby screen shown.
#[derive(Debug, Clone, Copy, PartialEq, Eq, Structural)]
pub enum LobbyScreen {
    Closed,
    Menu,
    Host,
    Join,
    Waiting,
}

/// A seat the server gave this client.
#[derive(Debug)]
pub struct OnlineSeat {
    pub match_id: u128,
    pub room_code: String,
    pub seat: Player,
    pub reconnect_token: String,
}

/// The lobby's state.
#[derive(Debug)]
pub struct OnlineLobby {
    pub screen: LobbyScreen,
    pub server_url: String,
    pub player_name: String,
    pub room_code: String,
    pub selected_scenario: usize,
    pub clock: Option<ClockSettings>,
    pub share_server_address: bool,
    pub request_pending: bool,
    pub ready_requested: bool,
    pub status: String,
    pub seat: Option<OnlineSeat>,
}

/// The lobby controls used this frame, by key or by button.
#[derive(Debug, Clone, Copy, PartialEq, Eq, Structural)]
pub struct LobbyInput {
    pub open_online: bool,
    pub host: bool,
    pub join: bool,
    pub back: bool,
    pub submit: bool,
    pub toggle_share_address: bool,
    pub copy_invitation: bool,
    pub ready: bool,
    pub leave: bool,
    pub host_keys: LifecycleKeys,
}

/// A room request to send.
#[derive(Debug, Clone, Copy, PartialEq, Eq, Structural)]
pub enum LobbySubmission {
    Create,
    Join,
}

/// What the lobby asks for after a frame of input.
#[derive(Debug, Clone, Copy, PartialEq, Eq, Structural)]
pub struct LobbyStep {
    pub flow: ClientFlow,
    pub submit: Option<LobbySubmission>,
    pub copy_invitation: bool,
}

/// A room response of the lobby worker.
#[derive(Debug)]
pub enum LobbyResponse {
    Created { match_id: u128, room_code: String, seat: Player, reconnect_token: String },
    Joined { match_id: u128, seat: Player, reconnect_token: String },
    Failed(String),
}

impl OnlineLobby {
    /// Shows the lobby menu with no status.
    pub fn open_menu(&mut self)
        ensures
            final(self).screen == LobbyScreen::Menu,
            final(self).status@.len() == 0,
            final(self).seat == old(self).seat,
            final(self).request_pending == old(self).request_pending,
            final(self).ready_requested == old(self).ready_requested,
            final(self).selected_scenario == old(self).selected_scenario,
            final(self).clock == old(self).clock,
            final(self).server_url == old(self).server_url,
            final(self).share_server_address == old(self).share_server_address,
    {
        self.screen = LobbyScreen::Menu;
        self.status = String::new();
    }

    /// One frame of lobby input in `flow`, with `scenario_count` scenarios:
    /// opens the lobby from setup; in the menu chooses hosting, joining or
    /// going back; on the host and join screens edits the settings and
    /// submits or goes back (both only while no request is pending); while
    /// waiting toggles sharing the address, copies the invitation, selects
    /// ready, or leaves the seat.
    pub fn handle_input(&mut self, flow: ClientFlow, input: &LobbyInput, scenario_count: usize) -> (step:
        LobbyStep)
        requires
            0 < scenario_count,
            old(self).selected_scenario < scenario_count,
        ensures
            final(self).selected_scenario < scenario_count,
            flow == ClientFlow::Setup && input.open_online ==> step == (LobbyStep {
                flow: ClientFlow::OnlineLobby,
                submit: None,
                copy_invitation: false,
            }) && final(self).screen == LobbyScreen::Menu && final(self).status@.len() == 0,
            flow != ClientFlow::OnlineLobby && !(flow == ClientFlow::Setup && input.open_online)
                ==> step == (LobbyStep { flow, submit: None, copy_invitation: false })
                && final(self).screen == old(self).screen,
            flow == ClientFlow::OnlineLobby ==> match old(self).screen {
                LobbyScreen::Menu => if input.host {
                    final(self).screen == LobbyScreen::Host && step.flow == flow
                } else if input.join {
                    final(self).screen == LobbyScreen::Join && step.flow == flow
                } else if input.back {
                    final(self).screen == LobbyScreen::Closed && step.flow == ClientFlow::Setup
                } else {
                    final(self).screen == LobbyScreen::Menu && step.flow == flow
                },
                LobbyScreen::Host => {
                    &&& final(self).selected_scenario == cycled_scenario(
                        old(self).selected_scenario as int,
                        scenario_count as int,
                        input.host_keys,
                    )
                    &&& final(self).clock == edited_clock(old(self).clock, input.host_keys)
                    &&& step.submit == (if input.submit && !old(self).request_pending {
                        Some(LobbySubmission::Create)
                    } else {
                        None
                    })
                    &&& final(self).screen == (if !input.submit && input.back
                        && !old(self).request_pending {
                        LobbyScreen::Menu
                    } else {
                        LobbyScreen::Host
                    })
                },
                LobbyScreen::Join => {
                    &&& step.submit == (if input.submit && !old(self).request_pending {
                        Some(LobbySubmission::Join)
                    } else {
                        None
                    })
                    &&& final(self).screen == (if !input.submit && input.back
                        && !old(self).request_pending {
                        LobbyScreen::Menu
                    } else {
                        LobbyScreen::Join
                    })
                },
                LobbyScreen::Waiting => {
                    &&& final(self).share_server_address == (old(self).share_server_address
                        != input.toggle_share_address)
                    &&& step.copy_invitation == input.copy_invitation
                    &&& input.ready && !input.leave ==> final(self).ready_requested
                        && final(self).status@
                        == "Ready selected. Waiting for the authoritative match connection."@
                    &&& input.leave ==> final(self).seat is None && !final(self).ready_requested
                        && final(self).screen == LobbyScreen::Menu
                    &&& !input.leave ==> final(self).screen == LobbyScreen::Waiting
                    &&& step.flow == flow
                },
                LobbyScreen::Closed => final(self).screen == LobbyScreen::Closed && step.flow == flow,
            },
            flow == ClientFlow::OnlineLobby && old(self).screen != LobbyScreen::Waiting
                ==> !step.copy_invitation,
            flow == ClientFlow::OnlineLobby && old(self).screen != LobbyScreen::Host
                && old(self).screen != LobbyScreen::Join ==> step.submit is None,
            flow == ClientFlow::OnlineLobby ==> final(self).request_pending == old(self).request_pending,
    {
        let mut step = LobbyStep { flow, submit: None, copy_invitation: false };
        if flow == ClientFlow::Setup && input.open_online {
            self.open_menu();
            step.flow = ClientFlow::OnlineLobby;
            return step;
        }
        if flow != ClientFlow::OnlineLobby {
            return step;
        }
        match self.screen {
            LobbyScreen::Closed => {},
            LobbyScreen::Menu => {
                if input.host {
                    self.screen = LobbyScreen::Host;
                } else if input.join {
                    self.screen = LobbyScreen::Join;
                } else if input.back {
                    self.screen = LobbyScreen::Closed;
                    step.flow = ClientFlow::Setup;
                }
            },
            LobbyScreen::Host => {
                let keys = input.host_keys;
                if keys.previous_scenario {
                    let selected = self.selected_scenario;
                    self.selected_scenario = if selected == 0 {
                        scenario_count - 1
                    } else {
                        selected - 1
                    };
                    proof {
                        let c = scenario_count as int;
                        let s0 = selected as int;
                        if s0 == 0 {
                            vstd::arithmetic::div_mod::lemma_small_mod((c - 1) as nat, c as nat);
                        } else {
                            vstd::arithmetic::div_mod::lemma_mod_add_multiples_vanish(s0 - 1, c);
                            vstd::arithmetic::div_mod::lemma_small_mod((s0 - 1) as nat, c as nat);
                        }
                    }
                }
                if keys.next_scenario {
                    self.selected_scenario = (self.selected_scenario + 1) % scenario_count;
                }
                self.clock = update_clock_setup(self.clock, &keys);
                if input.submit && !self.request_pending {
                    step.submit = Some(LobbySubmission::Create);
                } else if input.back && !self.request_pending {
                    self.screen = LobbyScreen::Menu;
                }
            },
            LobbyScreen::Join => {
                if input.submit && !self.request_pending {
                    step.submit = Some(LobbySubmission::Join);
                } else if input.back && !self.request_pending {
                    self.screen = LobbyScreen::Menu;
                }
            },
            LobbyScreen::Waiting => {
                if input.toggle_share_address {
                    self.share_server_address = !self.share_server_address;
                }
                step.copy_invitation = input.copy_invitation;
                if input.ready {
                    self.ready_requested = true;
                    self.status = String::from_str(
                        "Ready selected. Waiting for the authoritative match connection.",
                    );
                }
                if input.leave {
                    self.seat = None;
                    self.ready_requested = false;
                    self.screen = LobbyScreen::Menu;
                }
            },
        }
        step
    }

    /// Checks a room request before it is sent: the room details (as the
    /// protocol checks them), then the server address for `path`. Gives
    /// whether the request may be sent; otherwise the status says why.
    pub fn check_submission(&mut self, details: Result<(), ProtocolError>, path: &str) -> (ok:
        bool)
        ensures
            ok == (details is Ok && http_endpoint_of(old(self).server_url@, path@) is Ok),
            details matches Err(e) ==> final(self).status@ == protocol_error_message(e),
            details is Ok ==> (http_endpoint_of(old(self).server_url@, path@) matches Err(m)
                ==> final(self).status@ == m),
            ok ==> final(self).status == old(self).status,
            final(self).server_url == old(self).server_url,
            final(self).request_pending == old(self).request_pending,
            final(self).seat == old(self).seat,
            final(self).screen == old(self).screen,
    {
        if let Err(e) = details {
            self.status = safe_protocol_error(e);
            return false;
        }
        match http_endpoint(self.server_url.as_str(), path) {
            Err(m) => {
                self.status = m;
                false
            },
            Ok(_) => true,
        }
    }

    /// Records whether a checked room request was handed to the worker.
    pub fn record_submission(&mut self, kind: LobbySubmission, sent: bool)
        ensures
            final(self).request_pending == (old(self).request_pending || sent),
            final(self).status@ == (if !sent {
                "A room request is already in progress."@
            } else if kind == LobbySubmission::Create {
                "Creating private room…"@
            } else {
                "Joining private room…"@
            }),
            final(self).seat == old(self).seat,
            final(self).screen == old(self).screen,
    {
        if sent {
            self.request_pending = true;
            self.status = if kind == LobbySubmission::Create {
                String::from_str("Creating private room…")
            } else {
                String::from_str("Joining private room…")
            };
        } else {
            self.status = String::from_str("A room request is already in progress.");
        }
    }

    /// Takes the worker's answer to a room request: a created or joined room
    /// gives the seat (a joined room keeps the normalised code typed) and
    /// shows the waiting screen; a failure shows its message.
    pub fn handle_response(&mut self, response: LobbyResponse)
        ensures
            !final(self).request_pending,
            match response {
                LobbyResponse::Created { match_id, room_code, seat, reconnect_token } => {
                    &&& final(self).seat matches Some(s) && s.match_id == match_id && s.room_code@
                        == room_code@ && s.seat == seat && s.reconnect_token@ == reconnect_token@
                    &&& final(self).screen == LobbyScreen::Waiting
                },
                LobbyResponse::Joined { match_id, seat, reconnect_token } => {
                    &&& final(self).seat matches Some(s) && s.match_id == match_id && s.room_code@
                        == normalized_room_code(old(self).room_code@) && s.seat == seat
                        && s.reconnect_token@ == reconnect_token@
                    &&& final(self).screen == LobbyScreen::Waiting
                },
                LobbyResponse::Failed(message) => {
                    &&& final(self).status@ == message@
                    &&& final(self).seat == old(self).seat
                    &&& final(self).screen == old(self).screen
                },
            },
    {
        self.request_pending = false;
        match response {
            LobbyResponse::Created { match_id, room_code, seat, reconnect_token } => {
                let mut status = String::from_str("Room ");
                vstd::string::StringExecFns::append(&mut status, room_code.as_str());
                vstd::string::StringExecFns::append(
                    &mut status,
                    " created. Waiting for an opponent.",
                );
                self.seat = Some(OnlineSeat { match_id, room_code, seat, reconnect_token });
                self.screen = LobbyScreen::Waiting;
                self.status = status;
            },
            LobbyResponse::Joined { match_id, seat, reconnect_token } => {
                let room_code = normalize_room_code(self.room_code.as_str());
                let mut status = String::from_str("Joined room ");
                vstd::string::StringExecFns::append(&mut status, room_code.as_str());
                vstd::string::StringExecFns::append(
                    &mut status,
                    ". Select ready when prepared.",
                );
                self.seat = Some(OnlineSeat { match_id, room_code, seat, reconnect_token });
                self.screen = LobbyScreen::Waiting;
                self.status = status;
            },
            LobbyResponse::Failed(message) => {
                self.status = message;
            },
        }
    }

    /// The invitation to copy: the seat's room code, with the shareable
    /// server address when sharing it is on. Nothing without a seat; when the
    /// address cannot be shared the status says why and nothing is copied.
    pub fn invitation(&mut self) -> (text: Option<String>)
        ensures
            old(self).seat is None ==> text is None && final(self).status == old(self).status,
            old(self).seat matches Some(s) ==> if !old(self).share_server_address {
                text matches Some(t) && t@ == share_text(s.room_code@, None)
            } else {
                match shareable_address_of(old(self).server_url@) {
                    Ok(a) => text matches Some(t) && t@ == share_text(s.room_code@, Some(a)),
                    Err(m) => text is None && final(self).status@ == m,
                }
            },
            final(self).seat == old(self).seat,
    {
        let room_code = match &self.seat {
            None => return None,
            Some(seat) => seat.room_code.clone(),
        };
        if !self.share_server_address {
            return Some(room_share_text(room_code.as_str(), None));
        }
        match shareable_server_address(self.server_url.as_str()) {
            Ok(address) => {
                Some(room_share_text(room_code.as_str(), Some(address.as_str())))
            },
            Err(message) => {
                self.status = message;
                None
            },
        }
    }

    /// Records the outcome of copying the invitation to the clipboard.
    pub fn record_copy(&mut self, copied: bool)
        ensures
            final(self).status@ == (if copied {
                "Room invitation copied without the seat credential."@
            } else {
                "Clipboard unavailable; copy the displayed room code manually."@
            }),
            final(self).seat == old(self).seat,
    {
        self.status = if copied {
            String::from_str("Room invitation copied without the seat credential.")
        } else {
            String::from_str("Clipboard unavailable; copy the displayed room code manually.")
        };
    }
}

/// A control of the lobby screens.
#[derive(Debug, Clone, Copy, PartialEq, Eq, Structural)]
pub enum LobbyControl {
    Host,
    Join,
    Back,
    PreviousScenario,
    NextScenario,
    ToggleClock,
    DecreaseBase,
    IncreaseBase,
    DecreaseIncrement,
    IncreaseIncrement,
    Create,
    SubmitJoin,
    ToggleShareAddress,
    CopyInvitation,
    Ready,
    Leave,
}

/// A text field of the lobby screens.
#[derive(Debug, Clone, Copy, PartialEq, Eq, Structural)]
pub enum OnlineField {
    ServerUrl,
    PlayerName,
    RoomCode,
}

/// Whether a control is shown on a screen (the clock steps only while a
/// clock is set).
pub open spec fn control_shown(screen: LobbyScreen, control: LobbyControl, clock_set: bool) -> bool {
    match screen {
        LobbyScreen::Closed => false,
        LobbyScreen::Menu => control == LobbyControl::Host || control == LobbyControl::Join
            || control == LobbyControl::Back,
        LobbyScreen::Host => match control {
            LobbyControl::Back | LobbyControl::PreviousScenario | LobbyControl::NextScenario
            | LobbyControl::ToggleClock | LobbyControl::Create => true,
            LobbyControl::DecreaseBase | LobbyControl::IncreaseBase
            | LobbyControl::DecreaseIncrement | LobbyControl::IncreaseIncrement => clock_set,
            _ => false,
        },
        LobbyScreen::Join => control == LobbyControl::Back || control == LobbyControl::SubmitJoin,
        LobbyScreen::Waiting => control == LobbyControl::ToggleShareAddress || control
            == LobbyControl::CopyInvitation || control == LobbyControl::Ready || control
            == LobbyControl::Leave,
    }
}

/// Whether a control is shown on a screen.
pub fn control_visible(screen: LobbyScreen, control: LobbyControl, clock_set: bool) -> (shown: bool)
    ensures
        shown == control_shown(screen, control, clock_set),
{
    match screen {
        LobbyScreen::Closed => false,
        LobbyScreen::Menu => match control {
            LobbyControl::Host | LobbyControl::Join | LobbyControl::Back => true,
            _ => false,
        },
        LobbyScreen::Host => match control {
            LobbyControl::Back | LobbyControl::PreviousScenario | LobbyControl::NextScenario
            | LobbyControl::ToggleClock | LobbyControl::Create => true,
            LobbyControl::DecreaseBase | LobbyControl::IncreaseBase
            | LobbyControl::DecreaseIncrement | LobbyControl::IncreaseIncrement => clock_set,
            _ => false,
        },
        LobbyScreen::Join => match control {
            LobbyControl::Back | LobbyControl::SubmitJoin => true,
            _ => false,
        },
        LobbyScreen::Waiting => match control {
            LobbyControl::ToggleShareAddress | LobbyControl::CopyInvitation
            | LobbyControl::Ready | LobbyControl::Leave => true,
            _ => false,
        },
    }
}

/// Whether a text field is shown on a screen: address and name on the menu
/// and host screens, all three when joining, none otherwise.
pub fn field_visible(screen: LobbyScreen, field: OnlineField) -> (shown: bool)
    ensures
        shown == match screen {
            LobbyScreen::Closed | LobbyScreen::Waiting => false,
            LobbyScreen::Menu | LobbyScreen::Host => field != OnlineField::RoomCode,
            LobbyScreen::Join => true,
        },
{
    match screen {
        LobbyScreen::Closed | LobbyScreen::Waiting => false,
        LobbyScreen::Menu | LobbyScreen::Host => match field {
            OnlineField::RoomCode => false,
            _ => true,
        },
        LobbyScreen::Join => true,
    }
}

/// Every control is reachable: each one is shown on some screen.
pub proof fn law_every_control_has_a_screen(control: LobbyControl)
    ensures
        exists|screen: LobbyScreen| #[trigger] control_shown(screen, control, true),
{
    let screen = match control {
        LobbyControl::Host | LobbyControl::Join => LobbyScreen::Menu,
        LobbyControl::Back | LobbyControl::PreviousScenario | LobbyControl::NextScenario
        | LobbyControl::ToggleClock | LobbyControl::DecreaseBase | LobbyControl::IncreaseBase
        | LobbyControl::DecreaseIncrement | LobbyControl::IncreaseIncrement
        | LobbyControl::Create => LobbyScreen::Host,
        LobbyControl::SubmitJoin => LobbyScreen::Join,
        _ => LobbyScreen::Waiting,
    };
    assert(control_shown(screen, control, true));
}

fn append(text: &mut String, part: &str)
    ensures
        final(text)@ == old(text)@ + part@,
{
    vstd::string::StringExecFns::append(text, part);
}

/// The text of the clock setting: untimed, or its minutes and seconds.
pub open spec fn clock_label(clock: Option<ClockSettings>) -> Seq<char> {
    match clock {
        None => "untimed"@,
        Some(c) => decimal(c.base_minutes as nat) + " min + "@ + decimal(
            c.increment_seconds as nat,
        ) + " sec"@,
    }
}

fn clock_label_text(clock: Option<ClockSettings>) -> (text: String)
    ensures
        text@ == clock_label(clock),
{
    match clock {
        None => String::from_str("untimed"),
        Some(c) => {
            let mut text = decimal_text(c.base_minutes as u64);
            append(&mut text, " min + ");
            let seconds = decimal_text(c.increment_seconds as u64);
            append(&mut text, seconds.as_str());
            append(&mut text, " sec");
            text
        },
    }
}

impl OnlineLobby {
    /// The body text of the shown screen, given the label of the selected
    /// scenario (its name and board size) and the text of the seat's match
    /// identifier.
    pub fn screen_text(&self, scenario_label: &str, match_text: &str) -> (text: String)
        ensures
            text@ == match self.screen {
                LobbyScreen::Closed => Seq::empty(),
                LobbyScreen::Menu => "CROWNLINES - ONLINE\nH host a private room - J join with a code\nTab edits server/name fields - Esc local setup"@,
                LobbyScreen::Host => "HOST PRIVATE ROOM\nServer: "@ + self.server_url@ + "\nName: "@
                    + self.player_name@ + "\nScenario: "@ + scenario_label@ + " - Clock: "@
                    + clock_label(self.clock)
                    + "\nPageUp/PageDown scenario - C clock - -/+ base - ,/. increment\nEnter create - Esc back\n"@
                    + self.status@,
                LobbyScreen::Join => "JOIN PRIVATE ROOM\nServer: "@ + self.server_url@ + "\nName: "@
                    + self.player_name@ + "\nRoom code: "@ + normalized_room_code(self.room_code@)
                    + "\nTab edits fields - Enter join - Esc back\n"@ + self.status@,
                LobbyScreen::Waiting => "PRIVATE ROOM "@ + (match self.seat {
                    Some(s) => s.room_code@,
                    None => "------"@,
                }) + "\nSeat: "@ + (match self.seat {
                    Some(s) => match s.seat {
                        Player::North => "North"@,
                        Player::South => "South"@,
                    },
                    None => "unknown"@,
                }) + " - Match: "@ + (match self.seat {
                    Some(_) => match_text@,
                    None => "unknown"@,
                }) + " - Credential stored: "@ + (if self.seat matches Some(s)
                    && s.reconnect_token@.len() > 0 {
                    "yes"@
                } else {
                    "no"@
                }) + "\nR ready - C copy invitation - A include server address: "@ + (
                if self.share_server_address {
                    "yes"@
                } else {
                    "no"@
                }) + " - Esc leave screen\n"@ + self.status@,
            },
    {
        match self.screen {
            LobbyScreen::Closed => String::new(),
            LobbyScreen::Menu => String::from_str(
                "CROWNLINES - ONLINE\nH host a private room - J join with a code\nTab edits server/name fields - Esc local setup",
            ),
            LobbyScreen::Host => {
                let mut text = String::from_str("HOST PRIVATE ROOM\nServer: ");
                append(&mut text, self.server_url.as_str());
                append(&mut text, "\nName: ");
                append(&mut text, self.player_name.as_str());
                append(&mut text, "\nScenario: ");
                append(&mut text, scenario_label);
                append(&mut text, " - Clock: ");
                let clock = clock_label_text(self.clock);
                append(&mut text, clock.as_str());
                append(
                    &mut text,
                    "\nPageUp/PageDown scenario - C clock - -/+ base - ,/. increment\nEnter create - Esc back\n",
                );
                append(&mut text, self.status.as_str());
                text
            },
            LobbyScreen::Join => {
                let mut text = String::from_str("JOIN PRIVATE ROOM\nServer: ");
                append(&mut text, self.server_url.as_str());
                append(&mut text, "\nName: ");
                append(&mut text, self.player_name.as_str());
                append(&mut text, "\nRoom code: ");
                let code = normalize_room_code(self.room_code.as_str());
                append(&mut text, code.as_str());
                append(&mut text, "\nTab edits fields - Enter join - Esc back\n");
                append(&mut text, self.status.as_str());
                text
            },
            LobbyScreen::Waiting => {
                let mut text = String::from_str("PRIVATE ROOM ");
                match &self.seat {
                    Some(s) => append(&mut text, s.room_code.as_str()),
                    None => append(&mut text, "------"),
                }
                append(&mut text, "\nSeat: ");
                match &self.seat {
                    Some(s) => match s.seat {
                        Player::North => append(&mut text, "North"),
                        Player::South => append(&mut text, "South"),
                    },
                    None => append(&mut text, "unknown"),
                }
                append(&mut text, " - Match: ");
                match &self.seat {
                    Some(_) => append(&mut text, match_text),
                    None => append(&mut text, "unknown"),
                }
                append(&mut text, " - Credential stored: ");
                let stored = match &self.seat {
                    Some(s) => s.reconnect_token.unicode_len() > 0,
                    None => false,
                };
                append(&mut text, if stored { "yes" } else { "no" });
                append(&mut text, "\nR ready - C copy invitation - A include server address: ");
                append(&mut text, if self.share_server_address { "yes" } else { "no" });
                append(&mut text, " - Esc leave screen\n");
                append(&mut text, self.status.as_str());
                text
            },
        }
    }
}

/// A plain `ws://` address of the local machine (host `localhost`,
/// `127.0.0.1` or `::1`, with no credentials, query or fragment) is accepted:
/// its HTTP endpoints are the same address over `http://`, and its WebSocket
/// endpoint is the same address at `/ws`. Any other host over `ws://` is
/// refused as a remote server without TLS.
pub proof fn law_loopback_servers_may_use_plain_websockets(server_url: Seq<char>, path: Seq<char>)
    requires
        parsed_url(trim(server_url)) matches Some(parts) && parts.scheme@ == "ws"@ && !has_extras(
            parts,
        ),
    ensures
        ({
            let parts = parsed_url(trim(server_url))->0;
            let loopback = parts.host matches Some(h) && (h@ == "localhost"@ || h@ == "127.0.0.1"@
                || h@ == "::1"@);
            &&& loopback ==> http_endpoint_of(server_url, path) == match rebuilt_url(
                trim(server_url),
                "http"@,
                path,
                None,
                None,
            ) {
                Some(u) => Ok::<Seq<char>, Seq<char>>(u),
                None => Err("The local server address is invalid."@),
            }
            &&& loopback ==> websocket_endpoint_of(server_url) == rebuilt_url(
                trim(server_url),
                "ws"@,
                "/ws"@,
                None,
                None,
            )
            &&& !loopback ==> http_endpoint_of(server_url, path) == Err::<Seq<char>, Seq<char>>(
                "Remote servers must use wss:// so seat setup is protected by TLS."@,
            )
            &&& !loopback ==> websocket_endpoint_of(server_url) is None
        }),
{
    let parts = parsed_url(trim(server_url))->0;
    reveal_strlit("ws");
    reveal_strlit("wss");
    assert("ws"@.len() == 2);
    assert("wss"@.len() == 3);
    assert(parts.scheme@ != "wss"@);
    let loopback = parts.host matches Some(h) && (h@ == "localhost"@ || h@ == "127.0.0.1"@
        || h@ == "::1"@);
    assert(loopback == local_host(parts.host));
}

} // verus!
