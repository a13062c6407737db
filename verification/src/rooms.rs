//! Private rooms: lobby seats, reconnect credentials, readiness, rematches and
//! idle expiry.
//!
//! A room is addressed by its six-character code. Each seat holds only the
//! SHA-256 digest of its reconnect token; a token authenticates by digest.
//! Credential failures are counted per room code and lock the code for the rest
//! of a one-minute window after eight failures. Time is a monotonic millisecond
//! count chosen by the caller.
use vstd::prelude::*;

use crate::lifecycle::{clock_in_bounds, MAX_BASE_MINUTES, MAX_INCREMENT_SECONDS, MIN_BASE_MINUTES};
use crate::keyed::{
    keep_where, lemma_keep_where_step, lemma_map_of_contains, lemma_map_of_index,
    lemma_map_of_len, lemma_map_of_push, lemma_map_of_remove, lemma_map_of_update,
    lemma_take_full, map_of, unique_keys,
};
use vstd::string::StringExecFns;

use crate::text::{
    ascii_upper, lemma_trim_upper_idempotent, push_char, to_ascii_uppercase, trim, trim_text,
};

verus! {

/// Characters of a room code.
pub const ROOM_CODE_CHARS: usize = 6;

/// The version of the client/server protocol that this server speaks.
pub const PROTOCOL_VERSION: u16 = 1;

/// Room codes tried before allocation gives up.
pub const MAX_CODE_ATTEMPTS: usize = 32;

/// Random UUIDs in one reconnect token.
pub const TOKEN_PARTS: usize = 2;

/// Failed credential attempts that lock a room code for the rest of its window.
pub const MAX_INVALID_TOKEN_ATTEMPTS: u8 = 8;

/// Length of one credential-failure window, in milliseconds.
pub const TOKEN_ATTEMPT_WINDOW_MILLIS: u64 = 60_000;

/// The alphabet of room codes: upper-case letters and digits without the
/// easily confused `I`, `O`, `0` and `1`.
pub open spec fn room_code_alphabet() -> Seq<char> {
    seq![
        'A', 'B', 'C', 'D', 'E', 'F', 'G', 'H', 'J', 'K', 'L', 'M', 'N', 'P', 'Q', 'R',
        'S', 'T', 'U', 'V', 'W', 'X', 'Y', 'Z', '2', '3', '4', '5', '6', '7', '8', '9',
    ]
}

/// The side a seat plays.
#[derive(Debug, Clone, Copy, PartialEq, Eq, PartialOrd, Ord, Hash, Structural)]
pub enum Player {
    North,
    South,
}

/// A chess clock: minutes per side and seconds added per move.
#[derive(Debug, Clone, Copy, PartialEq, Eq, Structural)]
pub struct ClockSettings {
    pub base_minutes: u32,
    pub increment_seconds: u32,
}

/// An installed scenario as the rooms see it: its identifier and the hash of
/// its canonical definition.
#[derive(Debug)]
pub struct InstalledScenario {
    pub id: String,
    pub hash: String,
}

impl InstalledScenario {
    /// A copy with the same identifier and hash.
    pub fn duplicate(&self) -> (copy: InstalledScenario)
        ensures
            copy.id@ == self.id@,
            copy.hash@ == self.hash@,
    {
        InstalledScenario { id: self.id.clone(), hash: self.hash.clone() }
    }
}

/// The scenarios installed with this build, by identifier.
#[derive(Debug)]
pub struct ScenarioCatalog {
    entries: Vec<InstalledScenario>,
}

impl ScenarioCatalog {
    pub closed spec fn entries(self) -> Seq<(Seq<char>, Seq<char>)> {
        self.entries@.map_values(|e: InstalledScenario| (e.id@, e.hash@))
    }

    /// The canonical hash of each installed scenario, by identifier.
    pub closed spec fn view(self) -> Map<Seq<char>, Seq<char>> {
        map_of(self.entries())
    }

    /// No identifier is listed twice.
    pub closed spec fn well_formed(self) -> bool {
        unique_keys(self.entries())
    }

    /// A catalog of the given scenarios; a later scenario with the same
    /// identifier replaces an earlier one.
    pub fn from_scenarios(scenarios: Vec<InstalledScenario>) -> (catalog: ScenarioCatalog)
        ensures
            catalog.well_formed(),
            catalog.view() == map_of(
                scenarios@.map_values(|e: InstalledScenario| (e.id@, e.hash@)),
            ),
    {
        let ghost given = scenarios@.map_values(|e: InstalledScenario| (e.id@, e.hash@));
        let mut catalog = ScenarioCatalog { entries: Vec::new() };
        assert(catalog.entries() =~= Seq::empty());
        assert(given.take(0) =~= Seq::empty());
        let mut i: usize = 0;
        while i < scenarios.len()
            invariant
                i <= scenarios@.len(),
                given == scenarios@.map_values(|e: InstalledScenario| (e.id@, e.hash@)),
                catalog.well_formed(),
                catalog.view() == map_of(given.take(i as int)),
            decreases scenarios@.len() - i,
        {
            assert(given.take(i + 1).drop_last() =~= given.take(i as int));
            assert(given[i as int] == (scenarios@[i as int].id@, scenarios@[i as int].hash@));
            let item = scenarios[i].duplicate();
            catalog.insert(item);
            i = i + 1;
        }
        assert(given.take(scenarios@.len() as int) =~= given);
        catalog
    }

    fn insert(&mut self, item: InstalledScenario)
        requires
            old(self).well_formed(),
        ensures
            final(self).well_formed(),
            final(self).view() == old(self).view().insert(item.id@, item.hash@),
    {
        let ghost es = self.entries();
        let found = self.find(&item.id);
        match found {
            Some(k) => {
                let ghost key = item.id@;
                let ghost value = item.hash@;
                self.entries.set(k, item);
                proof {
                    assert(self.entries() =~= es.update(k as int, (key, value)));
                    lemma_map_of_update(es, k as int, value);
                }
            },
            None => {
                let ghost key = item.id@;
                let ghost value = item.hash@;
                self.entries.push(item);
                proof {
                    lemma_map_of_contains(es, key);
                    assert(self.entries() =~= es.push((key, value)));
                    lemma_map_of_push(es, key, value);
                }
            },
        }
    }

    fn find(&self, id: &String) -> (found: Option<usize>)
        ensures
            match found {
                Some(k) => k < self.entries@.len() && self.entries()[k as int].0 == id@,
                None => forall|j: int|
                    0 <= j < self.entries().len() ==> #[trigger] self.entries()[j].0 != id@,
            },
    {
        let mut k: usize = 0;
        while k < self.entries.len()
            invariant
                k <= self.entries@.len(),
                forall|j: int| 0 <= j < k ==> #[trigger] self.entries()[j].0 != id@,
            decreases self.entries@.len() - k,
        {
            assert(self.entries()[k as int] == (
                self.entries@[k as int].id@,
                self.entries@[k as int].hash@,
            ));
            if self.entries[k].id.eq(id) {
                return Some(k);
            }
            k = k + 1;
        }
        None
    }

    /// The installed scenario with identifier `id`.
    pub fn get(&self, id: &String) -> (found: Option<&InstalledScenario>)
        requires
            self.well_formed(),
        ensures
            match found {
                Some(s) => self.view().contains_key(id@) && s.id@ == id@ && s.hash@
                    == self.view()[id@],
                None => !self.view().contains_key(id@),
            },
    {
        let found = self.find(id);
        proof {
            lemma_map_of_contains(self.entries(), id@);
            if let Some(k) = found {
                lemma_map_of_index(self.entries(), k as int);
            }
        }
        match found {
            Some(k) => Some(&self.entries[k]),
            None => None,
        }
    }
}

/// What a room reads of a canonical match state: the scenario it plays and
/// whether it has ended.
#[derive(Debug)]
pub struct MatchProgress {
    pub scenario_id: String,
    pub terminal: bool,
}

/// The lifecycle of a room.
#[derive(Debug, Clone, Copy, PartialEq, Eq, Structural)]
pub enum RoomPhase {
    WaitingForOpponent,
    WaitingForReady,
    Playing,
    Finished,
}

/// Why a room operation was refused.
#[derive(Debug, Clone, Copy, PartialEq, Eq, Structural)]
pub enum RoomError {
    InvalidRequest,
    UnknownScenario,
    NotFound,
    Full,
    Unauthorized,
    WrongPhase,
    CodeSpaceExhausted,
    RateLimited,
    /// The request speaks another protocol version than the server.
    IncompatibleProtocol,
}

/// One occupied seat: the digest of its reconnect token, its display name, and
/// whether it is ready.
#[derive(Debug)]
pub struct Seat {
    pub token_hash: [u8; 32],
    pub name: String,
    pub ready: bool,
}

/// One private room.
#[derive(Debug)]
pub struct Room {
    pub code: String,
    pub match_id: u128,
    pub scenario_id: String,
    pub scenario_hash: String,
    pub clock: Option<ClockSettings>,
    pub phase: RoomPhase,
    pub state: Option<MatchProgress>,
    pub created_at: u64,
    pub last_activity: u64,
    pub ever_started: bool,
    pub north: Seat,
    pub south: Option<Seat>,
    pub rematch_north: bool,
    pub rematch_south: bool,
}

impl Room {
    pub open spec fn north_seat(self) -> Seat {
        self.north
    }

    pub open spec fn south_seat(self) -> Option<Seat> {
        self.south
    }

    /// The seat, if any, whose token digest is `digest`; North is tried first.
    pub open spec fn seat_for_digest(self, digest: Seq<u8>) -> Option<Player> {
        if self.north_seat().token_hash@ == digest {
            Some(Player::North)
        } else if self.south_seat() matches Some(s) && s.token_hash@ == digest {
            Some(Player::South)
        } else {
            None
        }
    }

    /// The display name of a seat.
    pub fn player_name(&self, player: Player) -> (name: Option<&str>)
        ensures
            match player {
                Player::North => name matches Some(n) && n@ == self.north_seat().name@,
                Player::South => match self.south_seat() {
                    Some(s) => name matches Some(n) && n@ == s.name@,
                    None => name is None,
                },
            },
    {
        match player {
            Player::North => Some(self.north.name.as_str()),
            Player::South => match &self.south {
                Some(seat) => Some(seat.name.as_str()),
                None => None,
            },
        }
    }

    /// The seat that `token` authenticates, compared in constant time.
    fn player_for_token(&self, token: &str) -> (player: Option<Player>)
        ensures
            player == self.seat_for_digest(sha256_of_text(token@)),
    {
        let candidate = hash_token(token);
        if constant_time_eq(&self.north.token_hash, &candidate) {
            Some(Player::North)
        } else {
            match &self.south {
                Some(seat) => {
                    if constant_time_eq(&seat.token_hash, &candidate) {
                        Some(Player::South)
                    } else {
                        None
                    }
                },
                None => None,
            }
        }
    }
}

/// The SHA-256 digest of the UTF-8 encoding of `text`.
pub uninterp spec fn sha256_of_text(text: Seq<char>) -> Seq<u8>;

/// The reconnect-token digest: `Sha256::digest` of the sha2 crate over the
/// token's UTF-8 bytes. Trusted to return the 32-byte digest, which is a
/// function of the token alone.
#[verifier::external_body]
fn hash_token(token: &str) -> (digest: [u8; 32])
    ensures
        digest@ == sha256_of_text(token@),
{
    <sha2::Sha256 as sha2::Digest>::digest(token.as_bytes()).into()
}

/// A fresh random (version 4) UUID from `uuid::Uuid::new_v4`, as its 128-bit
/// value. Nothing is claimed of the value.
#[verifier::external_body]
fn new_uuid() -> (value: u128) {
    uuid::Uuid::new_v4().as_u128()
}

/// Compares two digests without an early exit.
pub fn constant_time_eq(left: &[u8; 32], right: &[u8; 32]) -> (equal: bool)
    ensures
        equal == (left@ == right@),
{
    let mut difference: u8 = 0;
    let mut i: usize = 0;
    while i < 32
        invariant
            i <= 32,
            left@.len() == 32,
            right@.len() == 32,
            (difference == 0) == (forall|j: int| 0 <= j < i ==> left@[j] == right@[j]),
        decreases 32 - i,
    {
        let l = left[i];
        let r = right[i];
        let next = difference | (l ^ r);
        assert((next == 0) == (difference == 0 && l == r)) by (bit_vector)
            requires
                next == difference | (l ^ r),
        ;
        difference = next;
        i = i + 1;
    }
    proof {
        if difference == 0 {
            assert(left@ =~= right@);
        }
    }
    difference == 0
}

/// A room code as entered: surrounding whitespace removed, ASCII letters
/// upper-cased.
pub open spec fn normalized_code(code: Seq<char>) -> Seq<char> {
    trim(code).map_values(|c: char| ascii_upper(c))
}

/// Normalizes an entered room code.
pub fn normalize_code(code: &str) -> (normalized: String)
    ensures
        normalized@ == normalized_code(code@),
{
    let trimmed = trim_text(code);
    to_ascii_uppercase(trimmed.as_str())
}

/// The byte `index` (0 = most significant) of a 128-bit UUID value.
pub open spec fn uuid_byte(uuid: u128, index: int) -> u8 {
    ((uuid >> ((15 - index) * 8) as u128) & 0xff) as u8
}

/// The byte `index` (0 = least significant) of a 64-bit seed.
pub open spec fn seed_byte(seed: u64, index: int) -> u8 {
    ((seed >> (index * 8) as u64) & 0xff) as u8
}

/// The room code derived from a UUID and a seed: the first six UUID bytes, each
/// offset (wrapping) by the matching little-endian seed byte, index the alphabet.
pub open spec fn code_from_uuid_spec(uuid: u128, seed: u64) -> Seq<char> {
    Seq::new(
        ROOM_CODE_CHARS as nat,
        |i: int|
            room_code_alphabet()[((uuid_byte(uuid, i) as int + seed_byte(seed, i) as int) % 256)
                % 32],
    )
}

/// Derives a candidate room code from a UUID value and a seed.
pub fn code_from_uuid(uuid: u128, seed: u64) -> (code: String)
    ensures
        code@ == code_from_uuid_spec(uuid, seed),
{
    let alphabet: [char; 32] = [
        'A', 'B', 'C', 'D', 'E', 'F', 'G', 'H', 'J', 'K', 'L', 'M', 'N', 'P', 'Q', 'R', 'S', 'T',
        'U', 'V', 'W', 'X', 'Y', 'Z', '2', '3', '4', '5', '6', '7', '8', '9',
    ];
    assert(alphabet@ =~= room_code_alphabet());
    let mut code = String::new();
    let mut i: usize = 0;
    while i < ROOM_CODE_CHARS
        invariant
            i <= ROOM_CODE_CHARS,
            alphabet@ == room_code_alphabet(),
            code@ =~= code_from_uuid_spec(uuid, seed).take(i as int),
        decreases ROOM_CODE_CHARS - i,
    {
        let shift: u128 = ((15 - i) * 8) as u128;
        let byte: u8 = ((uuid >> shift) & 0xff) as u8;
        let seed_shift: u64 = (i * 8) as u64;
        let offset: u8 = ((seed >> seed_shift) & 0xff) as u8;
        let index = (byte.wrapping_add(offset) as usize) % 32;
        assert(byte.wrapping_add(offset) as int == (byte as int + offset as int) % 256);
        push_char(&mut code, alphabet[index]);
        i = i + 1;
    }
    code
}

/// The lower-case hexadecimal digit of a value below sixteen.
pub open spec fn hex_digit(d: u128) -> char {
    if d < 10 {
        (d + 48) as char
    } else {
        (d + 87) as char
    }
}

/// A UUID value in the simple format of the uuid crate: 32 lower-case
/// hexadecimal digits, most significant first.
pub open spec fn uuid_simple(uuid: u128) -> Seq<char> {
    Seq::new(32, |i: int| hex_digit((uuid >> ((31 - i) * 4) as u128) & 0xf))
}

/// Writes a UUID value in the simple format.
pub fn uuid_simple_text(uuid: u128) -> (text: String)
    ensures
        text@ == uuid_simple(uuid),
{
    let mut text = String::new();
    let mut i: usize = 0;
    while i < 32
        invariant
            i <= 32,
            text@ =~= uuid_simple(uuid).take(i as int),
        decreases 32 - i,
    {
        let shift: u128 = ((31 - i) * 4) as u128;
        let d: u128 = (uuid >> shift) & 0xf;
        assert(d < 16) by (bit_vector)
            requires
                d == (uuid >> shift) & 0xf,
        ;
        let c = if d < 10 {
            ((d as u8) + 48) as char
        } else {
            ((d as u8) + 87) as char
        };
        push_char(&mut text, c);
        i = i + 1;
    }
    text
}

/// Issues a reconnect token: two fresh random UUIDs in the simple format.
fn issue_token() -> (token: String)
    ensures
        token@.len() == 64,
        exists|a: u128, b: u128| token@ == uuid_simple(a) + uuid_simple(b),
{
    let first = new_uuid();
    let second = new_uuid();
    let mut token = uuid_simple_text(first);
    let tail = uuid_simple_text(second);
    token.append(tail.as_str());
    assert(token@ == uuid_simple(first) + uuid_simple(second));
    token
}

/// The credential failures counted for one room code.
#[derive(Debug, Clone, Copy, PartialEq, Eq, Structural)]
pub struct FailedTokenWindow {
    pub started: u64,
    pub attempts: u8,
}

/// The failure window of one room code.
#[derive(Debug)]
pub struct FailedAttempts {
    pub code: String,
    pub window: FailedTokenWindow,
}

/// The request that opens a room, as the lobby protocol carries it.
#[derive(Debug)]
pub struct CreateRoomRequest {
    pub protocol_version: u16,
    pub player_name: String,
    pub scenario_id: String,
    pub clock: Option<ClockSettings>,
}

/// The request that takes the second seat of a room.
#[derive(Debug)]
pub struct JoinRoomRequest {
    pub protocol_version: u16,
    pub player_name: String,
    pub room_code: String,
}

/// A newly opened room: its match, code, the host's seat and raw token.
#[derive(Debug)]
pub struct CreatedRoom {
    pub match_id: u128,
    pub room_code: String,
    pub seat: Player,
    pub reconnect_token: String,
}

/// A newly taken guest seat: the match, the seat and its raw token.
#[derive(Debug)]
pub struct JoinedRoom {
    pub match_id: u128,
    pub seat: Player,
    pub reconnect_token: String,
}

/// A seat as it is stored durably (without any raw token).
#[derive(Debug)]
pub struct PersistedSeatRecord {
    pub player: Player,
    pub display_name: String,
    pub token_hash: [u8; 32],
    pub ready: bool,
}

/// A started room as it is stored durably.
#[derive(Debug)]
pub struct PersistedRoomRecord {
    pub code: String,
    pub match_id: u128,
    pub scenario_id: String,
    pub scenario_hash: String,
    pub clock: Option<ClockSettings>,
    pub phase: RoomPhase,
    pub north: PersistedSeatRecord,
    pub south: PersistedSeatRecord,
}

/// Whether a credential window that started at `started` has ended by `now`.
pub open spec fn token_window_expired(started: u64, now: u64) -> bool {
    now >= started && now - started >= TOKEN_ATTEMPT_WINDOW_MILLIS
}

/// One credential check of `token` for the normalized `code` at `now`: the seat
/// it authenticates or why not, and the failure windows afterwards. A code whose
/// running window holds eight failures is refused without a check; an ended
/// window restarts at `now`; a success forgets the code's failures; a failure
/// (also for a code without a room) counts one more.
pub open spec fn auth_step(
    rooms: Map<Seq<char>, Room>,
    failed: Map<Seq<char>, FailedTokenWindow>,
    code: Seq<char>,
    token: Seq<char>,
    now: u64,
) -> (Result<Player, RoomError>, Map<Seq<char>, FailedTokenWindow>) {
    let tracked_window = failed.contains_key(code);
    let restarted = tracked_window && token_window_expired(failed[code].started, now);
    let blocked = tracked_window && !restarted && failed[code].attempts
        >= MAX_INVALID_TOKEN_ATTEMPTS;
    let failed1 = if restarted {
        failed.insert(code, FailedTokenWindow { started: now, attempts: 0 })
    } else {
        failed
    };
    if blocked {
        (Err(RoomError::RateLimited), failed1)
    } else if rooms.contains_key(code) && rooms[code].seat_for_digest(sha256_of_text(token))
        is Some {
        (Ok(rooms[code].seat_for_digest(sha256_of_text(token))->0), failed1.remove(code))
    } else {
        let w = if failed1.contains_key(code) {
            failed1[code]
        } else {
            FailedTokenWindow { started: now, attempts: 0 }
        };
        (
            Err(RoomError::Unauthorized),
            failed1.insert(
                code,
                FailedTokenWindow {
                    started: w.started,
                    attempts: if w.attempts == u8::MAX {
                        u8::MAX
                    } else {
                        (w.attempts + 1) as u8
                    },
                },
            ),
        )
    }
}

/// A lobby just opened: the given code, match, scenario and clock, waiting for
/// an opponent, never started, idle since `now`, with the host in the North seat
/// under the digest of `token` and nobody in the South seat.
pub open spec fn fresh_lobby(
    room: Room,
    code: Seq<char>,
    match_id: u128,
    scenario_id: Seq<char>,
    scenario_hash: Seq<char>,
    clock: Option<ClockSettings>,
    host_name: Seq<char>,
    token: Seq<char>,
    now: u64,
) -> bool {
    &&& room.code@ == code
    &&& room.match_id == match_id
    &&& room.scenario_id@ == scenario_id
    &&& room.scenario_hash@ == scenario_hash
    &&& room.clock == clock
    &&& room.phase == RoomPhase::WaitingForOpponent
    &&& room.state is None
    &&& room.created_at == now
    &&& room.last_activity == now
    &&& !room.ever_started
    &&& room.north.token_hash@ == sha256_of_text(token)
    &&& room.north.name@ == host_name
    &&& !room.north.ready
    &&& room.south is None
    &&& !room.rematch_north
    &&& !room.rematch_south
}

/// The guest's seat after a join: digest of `token`, trimmed `name`, not ready;
/// the room now waits for both seats to be ready.
pub open spec fn joined_lobby(before: Room, after: Room, name: Seq<char>, token: Seq<char>, now: u64) -> bool {
    &&& after == Room {
        south: after.south,
        phase: RoomPhase::WaitingForReady,
        last_activity: now,
        ..before
    }
    &&& (after.south matches Some(seat) && seat.token_hash@ == sha256_of_text(token) && seat.name@
        == name && !seat.ready)
}

/// `room` with `player`'s seat marked ready (a missing guest seat stays missing).
pub open spec fn with_ready(room: Room, player: Player) -> Room {
    match player {
        Player::North => Room { north: Seat { ready: true, ..room.north }, ..room },
        Player::South => match room.south {
            Some(seat) => Room { south: Some(Seat { ready: true, ..seat }), ..room },
            None => room,
        },
    }
}

/// Whether both seats of `room` are taken and ready.
pub open spec fn both_ready(room: Room) -> bool {
    &&& room.north_seat().ready
    &&& room.south_seat() matches Some(s) && s.ready
}

/// `room` playing a fresh match of its scenario from `now`, with match `match_id`.
pub open spec fn started_room(room: Room, after: Room, match_id: u128, now: u64) -> bool {
    &&& after == Room {
        match_id,
        state: after.state,
        phase: RoomPhase::Playing,
        ever_started: true,
        last_activity: now,
        rematch_north: false,
        rematch_south: false,
        ..room
    }
    &&& (after.state matches Some(p) && p.scenario_id@ == room.scenario_id@ && !p.terminal)
}

/// A ready request of the seat holding `token` for the normalized `code`: the
/// credential check of `auth_step` (whose failure windows result), then the room
/// must exist and wait for readiness. The seat is marked ready; once both seats
/// are ready the room starts a fresh match of its installed scenario.
pub open spec fn ready_outcome(
    before: RoomService,
    after: RoomService,
    code: Seq<char>,
    token: Seq<char>,
    now: u64,
    result: Result<RoomPhase, RoomError>,
) -> bool {
    let (auth, failed1) = auth_step(before.rooms(), before.failed(), code, token, now);
    &&& after.failed() == failed1
    &&& after.installed() == before.installed()
    &&& after.room_limit() == before.room_limit()
    &&& after.room_count() == before.room_count()
    &&& match auth {
        Err(e) => result == Err::<RoomPhase, RoomError>(e) && after.rooms() == before.rooms(),
        Ok(player) => {
            let room = before.rooms()[code];
            if room.phase != RoomPhase::WaitingForReady {
                result == Err::<RoomPhase, RoomError>(RoomError::WrongPhase) && after.rooms()
                    == before.rooms()
            } else if player == Player::South && room.south is None {
                result == Err::<RoomPhase, RoomError>(RoomError::Unauthorized) && after.rooms()
                    == before.rooms()
            } else {
                let marked = with_ready(room, player);
                if !both_ready(marked) {
                    result == Ok::<RoomPhase, RoomError>(marked.phase) && after.rooms()
                        == before.rooms().insert(code, marked)
                } else if !before.installed().contains_key(room.scenario_id@) {
                    result == Err::<RoomPhase, RoomError>(RoomError::UnknownScenario)
                        && after.rooms() == before.rooms().insert(code, marked)
                } else {
                    &&& result == Ok::<RoomPhase, RoomError>(RoomPhase::Playing)
                    &&& after.rooms() == before.rooms().insert(code, after.rooms()[code])
                    &&& started_room(marked, after.rooms()[code], marked.match_id, now)
                }
            }
        },
    }
}

/// A rematch acceptance of the seat holding `token` for the normalized `code`:
/// the credential check of `auth_step` (whose failure windows result), then the
/// room must be finished. The seat's acceptance is recorded; once both seats
/// have accepted, the room starts a fresh match of its installed scenario under
/// a new match identifier, never the finished match's.
pub open spec fn rematch_outcome(
    before: RoomService,
    after: RoomService,
    code: Seq<char>,
    token: Seq<char>,
    now: u64,
    result: Result<RoomPhase, RoomError>,
) -> bool {
    let (auth, failed1) = auth_step(before.rooms(), before.failed(), code, token, now);
    &&& after.failed() == failed1
    &&& after.installed() == before.installed()
    &&& after.room_limit() == before.room_limit()
    &&& after.room_count() == before.room_count()
    &&& match auth {
        Err(e) => result == Err::<RoomPhase, RoomError>(e) && after.rooms() == before.rooms(),
        Ok(player) => {
            let room = before.rooms()[code];
            if room.phase != RoomPhase::Finished {
                result == Err::<RoomPhase, RoomError>(RoomError::WrongPhase) && after.rooms()
                    == before.rooms()
            } else {
                let accepted = match player {
                    Player::North => Room { rematch_north: true, ..room },
                    Player::South => Room { rematch_south: true, ..room },
                };
                if !(accepted.rematch_north && accepted.rematch_south) {
                    result == Ok::<RoomPhase, RoomError>(RoomPhase::Finished) && after.rooms()
                        == before.rooms().insert(code, accepted)
                } else if !before.installed().contains_key(room.scenario_id@) {
                    result == Err::<RoomPhase, RoomError>(RoomError::UnknownScenario)
                        && after.rooms() == before.rooms().insert(code, accepted)
                } else {
                    &&& result == Ok::<RoomPhase, RoomError>(RoomPhase::Playing)
                    &&& after.rooms() == before.rooms().insert(code, after.rooms()[code])
                    &&& started_room(accepted, after.rooms()[code], after.rooms()[code].match_id, now)
                    &&& after.rooms()[code].match_id != room.match_id
                }
            }
        },
    }
}

/// A durable record that carries exactly the room's code, match, scenario,
/// clock and phase, and both seats' names, digests and readiness.
pub open spec fn persisted_matches(rec: PersistedRoomRecord, room: Room, south: Seat) -> bool {
    &&& rec.code@ == room.code@
    &&& rec.match_id == room.match_id
    &&& rec.scenario_id@ == room.scenario_id@
    &&& rec.scenario_hash@ == room.scenario_hash@
    &&& rec.clock == room.clock
    &&& rec.phase == room.phase
    &&& rec.north.player == Player::North
    &&& rec.north.display_name@ == room.north.name@
    &&& rec.north.token_hash@ == room.north.token_hash@
    &&& rec.north.ready == room.north.ready
    &&& rec.south.player == Player::South
    &&& rec.south.display_name@ == south.name@
    &&& rec.south.token_hash@ == south.token_hash@
    &&& rec.south.ready == south.ready
}

/// A room rebuilt from `record` and `state` at `now`: started, idle since
/// `now`, with the record's seats and no rematch acceptance.
pub open spec fn restored_room(room: Room, record: PersistedRoomRecord, state: MatchProgress, now: u64) -> bool {
    &&& room.code@ == record.code@
    &&& room.match_id == record.match_id
    &&& room.scenario_id@ == record.scenario_id@
    &&& room.scenario_hash@ == record.scenario_hash@
    &&& room.clock == record.clock
    &&& room.phase == record.phase
    &&& (room.state matches Some(p) && p.scenario_id@ == state.scenario_id@ && p.terminal == state.terminal)
    &&& room.created_at == now
    &&& room.last_activity == now
    &&& room.ever_started
    &&& room.north.token_hash@ == record.north.token_hash@
    &&& room.north.name@ == record.north.display_name@
    &&& room.north.ready == record.north.ready
    &&& (room.south matches Some(s) && s.token_hash@ == record.south.token_hash@ && s.name@
        == record.south.display_name@ && s.ready == record.south.ready)
    &&& !room.rematch_north
    &&& !room.rematch_south
}

/// A room that never started, still waits in its lobby, and has been idle for
/// at least `maximum_idle` milliseconds at `now` (a reading before its last
/// activity counts as no time).
pub open spec fn idle_pregame(room: Room, now: u64, maximum_idle: u64) -> bool {
    &&& !room.ever_started
    &&& (room.phase == RoomPhase::WaitingForOpponent || room.phase == RoomPhase::WaitingForReady)
    &&& (if now >= room.last_activity {
        now - room.last_activity
    } else {
        0
    }) >= maximum_idle
}

/// An untimed match, or a clock within the clock bounds.
pub open spec fn clock_supported(clock: Option<ClockSettings>) -> bool {
    match clock {
        None => true,
        Some(c) => clock_in_bounds(c),
    }
}

/// A match identifier for a new match, drawn afresh and never `previous`: a
/// draw that repeats it is drawn again, and should that repeat too, the
/// identifier after `previous` is taken.
fn fresh_match_id(previous: u128) -> (id: u128)
    ensures
        id != previous,
{
    let first = new_uuid();
    if first != previous {
        return first;
    }
    let second = new_uuid();
    if second != previous {
        second
    } else {
        previous.wrapping_add(1)
    }
}

/// Room lobbies of one server process.
pub struct RoomService {
    catalog: ScenarioCatalog,
    rooms: Vec<Room>,
    failed_token_attempts: Vec<FailedAttempts>,
    code_seed: u64,
    max_rooms: usize,
}

impl RoomService {
    pub closed spec fn room_entries(self) -> Seq<(Seq<char>, Room)> {
        self.rooms@.map_values(|r: Room| (r.code@, r))
    }

    pub closed spec fn failed_entries(self) -> Seq<(Seq<char>, FailedTokenWindow)> {
        self.failed_token_attempts@.map_values(|f: FailedAttempts| (f.code@, f.window))
    }

    /// Every room, by code.
    pub closed spec fn rooms(self) -> Map<Seq<char>, Room> {
        map_of(self.room_entries())
    }

    /// The running credential-failure window of each room code.
    pub closed spec fn failed(self) -> Map<Seq<char>, FailedTokenWindow> {
        map_of(self.failed_entries())
    }

    /// The installed scenarios' hashes, by identifier.
    pub closed spec fn installed(self) -> Map<Seq<char>, Seq<char>> {
        self.catalog.view()
    }

    /// The most rooms that may exist at once.
    pub closed spec fn room_limit(self) -> nat {
        self.max_rooms as nat
    }

    /// Codes and catalog identifiers are unique.
    pub closed spec fn well_formed(self) -> bool {
        &&& unique_keys(self.room_entries())
        &&& unique_keys(self.failed_entries())
        &&& self.catalog.well_formed()
    }

    /// The number of rooms.
    pub closed spec fn room_count(self) -> nat {
        self.rooms@.len()
    }

    /// A service over `catalog` with no rooms and the default limit of a
    /// thousand rooms.
    pub fn new(catalog: ScenarioCatalog) -> (service: RoomService)
        requires
            catalog.well_formed(),
        ensures
            service.well_formed(),
            service.rooms() == Map::<Seq<char>, Room>::empty(),
            service.failed() == Map::<Seq<char>, FailedTokenWindow>::empty(),
            service.installed() == catalog.view(),
            service.room_limit() == 1000,
            service.room_count() == 0,
    {
        let service = RoomService {
            catalog,
            rooms: Vec::new(),
            failed_token_attempts: Vec::new(),
            code_seed: 0,
            max_rooms: 1000,
        };
        assert(service.room_entries() =~= Seq::empty());
        assert(service.failed_entries() =~= Seq::empty());
        service
    }

    /// The same service with a different room limit.
    pub fn with_max_rooms(self, maximum: usize) -> (service: RoomService)
        requires
            self.well_formed(),
        ensures
            service.well_formed(),
            service.rooms() == self.rooms(),
            service.failed() == self.failed(),
            service.installed() == self.installed(),
            service.room_count() == self.room_count(),
            service.room_limit() == maximum,
    {
        let mut service = self;
        service.max_rooms = maximum;
        service
    }

    fn find_room(&self, code: &String) -> (found: Option<usize>)
        ensures
            match found {
                Some(k) => k < self.rooms@.len() && self.room_entries()[k as int].0 == code@,
                None => forall|j: int|
                    0 <= j < self.room_entries().len() ==> #[trigger] self.room_entries()[j].0
                        != code@,
            },
    {
        let mut k: usize = 0;
        while k < self.rooms.len()
            invariant
                k <= self.rooms@.len(),
                forall|j: int| 0 <= j < k ==> #[trigger] self.room_entries()[j].0 != code@,
            decreases self.rooms@.len() - k,
        {
            assert(self.room_entries()[k as int] == (self.rooms@[k as int].code@, self.rooms@[k as int]));
            if self.rooms[k].code.eq(code) {
                return Some(k);
            }
            k = k + 1;
        }
        None
    }

    fn find_failed(&self, code: &String) -> (found: Option<usize>)
        ensures
            match found {
                Some(k) => k < self.failed_token_attempts@.len() && self.failed_entries()[k as int].0
                    == code@,
                None => forall|j: int|
                    0 <= j < self.failed_entries().len() ==> #[trigger] self.failed_entries()[j].0
                        != code@,
            },
    {
        let mut k: usize = 0;
        while k < self.failed_token_attempts.len()
            invariant
                k <= self.failed_token_attempts@.len(),
                forall|j: int| 0 <= j < k ==> #[trigger] self.failed_entries()[j].0 != code@,
            decreases self.failed_token_attempts@.len() - k,
        {
            assert(self.failed_entries()[k as int] == (
                self.failed_token_attempts@[k as int].code@,
                self.failed_token_attempts@[k as int].window,
            ));
            if self.failed_token_attempts[k].code.eq(code) {
                return Some(k);
            }
            k = k + 1;
        }
        None
    }

    /// Locates the room of `code` and relates it to the map of rooms.
    fn locate(&self, code: &String) -> (found: Option<usize>)
        requires
            self.well_formed(),
        ensures
            match found {
                Some(k) => k < self.rooms@.len() && self.rooms().contains_key(code@)
                    && self.rooms()[code@] == self.rooms@[k as int] && self.rooms@[k as int].code@
                    == code@,
                None => !self.rooms().contains_key(code@),
            },
    {
        let found = self.find_room(code);
        proof {
            lemma_map_of_contains(self.room_entries(), code@);
            if let Some(k) = found {
                lemma_map_of_index(self.room_entries(), k as int);
            }
        }
        found
    }

    /// Replaces the room at position `k` by `room`, which keeps its code.
    fn put_room(&mut self, k: usize, room: Room)
        requires
            old(self).well_formed(),
            k < old(self).rooms@.len(),
            room.code@ == old(self).rooms@[k as int].code@,
        ensures
            final(self).well_formed(),
            final(self).rooms() == old(self).rooms().insert(room.code@, room),
            final(self).failed() == old(self).failed(),
            final(self).installed() == old(self).installed(),
            final(self).room_limit() == old(self).room_limit(),
            final(self).room_count() == old(self).room_count(),
    {
        let ghost es = self.room_entries();
        let ghost key = room.code@;
        let ghost value = room;
        assert(es[k as int].0 == key);
        self.rooms.set(k, room);
        proof {
            assert(self.room_entries() =~= es.update(k as int, (key, value)));
            lemma_map_of_update(es, k as int, value);
        }
    }

    /// A room code that no room uses, from up to 32 candidates derived from
    /// fresh random UUIDs and an advancing seed.
    fn allocate_code(&mut self) -> (result: Result<String, RoomError>)
        requires
            old(self).well_formed(),
        ensures
            final(self).well_formed(),
            final(self).rooms() == old(self).rooms(),
            final(self).failed() == old(self).failed(),
            final(self).installed() == old(self).installed(),
            final(self).room_limit() == old(self).room_limit(),
            final(self).room_count() == old(self).room_count(),
            match result {
                Ok(code) => !old(self).rooms().contains_key(code@) && exists|uuid: u128, seed: u64|
                    code@ == code_from_uuid_spec(uuid, seed),
                Err(e) => e == RoomError::CodeSpaceExhausted && old(self).room_count() >= 1,
            },
    {
        let mut attempt: usize = 0;
        while attempt < MAX_CODE_ATTEMPTS
            invariant
                self.well_formed(),
                self.rooms() == old(self).rooms(),
                self.failed() == old(self).failed(),
                self.installed() == old(self).installed(),
                self.room_limit() == old(self).room_limit(),
                self.room_count() == old(self).room_count(),
                attempt > 0 ==> self.room_count() >= 1,
            decreases MAX_CODE_ATTEMPTS - attempt,
        {
            self.code_seed = self.code_seed.wrapping_add(1);
            let uuid = new_uuid();
            let candidate = code_from_uuid(uuid, self.code_seed);
            if self.locate(&candidate).is_none() {
                return Ok(candidate);
            }
            attempt = attempt + 1;
        }
        Err(RoomError::CodeSpaceExhausted)
    }

    /// Opens a lobby for the host described by `request`. `request_valid` is the
    /// protocol's validation of the request's name and scenario identifier.
    /// The checks come in this order: the request must speak
    /// `PROTOCOL_VERSION`, be valid with a clock (if any) within the clock
    /// bounds, the room limit must leave room, and the
    /// scenario must be installed; then a free code is allocated, and the host
    /// takes the North seat with a fresh token. A free code is always found
    /// while the service holds no room.
    pub fn create(&mut self, request: CreateRoomRequest, request_valid: bool, now: u64) -> (result:
        Result<CreatedRoom, RoomError>)
        requires
            old(self).well_formed(),
        ensures
            final(self).well_formed(),
            final(self).failed() == old(self).failed(),
            final(self).installed() == old(self).installed(),
            final(self).room_limit() == old(self).room_limit(),
            request.protocol_version != PROTOCOL_VERSION ==> result == Err::<CreatedRoom, RoomError>(
                RoomError::IncompatibleProtocol,
            ),
            request.protocol_version == PROTOCOL_VERSION && !(request_valid && clock_supported(request.clock)) ==> result == Err::<
                CreatedRoom,
                RoomError,
            >(RoomError::InvalidRequest),
            request.protocol_version == PROTOCOL_VERSION && request_valid && clock_supported(request.clock) && old(self).room_count() >= old(self).room_limit() ==> result == Err::<
                CreatedRoom,
                RoomError,
            >(RoomError::RateLimited),
            request.protocol_version == PROTOCOL_VERSION && request_valid && clock_supported(request.clock) && old(self).room_count() < old(self).room_limit() && !old(self).installed().contains_key(request.scenario_id@) ==> result == Err::<
                CreatedRoom,
                RoomError,
            >(RoomError::UnknownScenario),
            request.protocol_version == PROTOCOL_VERSION && request_valid && clock_supported(request.clock) && old(self).room_count() < old(self).room_limit() && old(self).installed().contains_key(request.scenario_id@) ==> (result is Ok || result == Err::<
                CreatedRoom,
                RoomError,
            >(RoomError::CodeSpaceExhausted)),
            request.protocol_version == PROTOCOL_VERSION && request_valid && clock_supported(request.clock) && old(self).room_count() == 0
                && 0 < old(self).room_limit() && old(self).installed().contains_key(request.scenario_id@)
                ==> result is Ok,
            result == Err::<CreatedRoom, RoomError>(RoomError::CodeSpaceExhausted) ==> old(self).room_count() >= 1,
            result is Err ==> final(self).rooms() == old(self).rooms() && final(self).room_count()
                == old(self).room_count(),
            result is Ok ==> final(self).room_count() <= final(self).room_limit(),
            result matches Ok(created) ==> {
                &&& !old(self).rooms().contains_key(created.room_code@)
                &&& (exists|uuid: u128, seed: u64| created.room_code@ == code_from_uuid_spec(uuid, seed))
                &&& created.seat == Player::North
                &&& created.reconnect_token@.len() == 64
                &&& final(self).room_count() == old(self).room_count() + 1
                &&& final(self).rooms() == old(self).rooms().insert(
                    created.room_code@,
                    final(self).rooms()[created.room_code@],
                )
                &&& fresh_lobby(
                    final(self).rooms()[created.room_code@],
                    created.room_code@,
                    created.match_id,
                    request.scenario_id@,
                    old(self).installed()[request.scenario_id@],
                    request.clock,
                    trim(request.player_name@),
                    created.reconnect_token@,
                    now,
                )
            },
    {
        if request.protocol_version != PROTOCOL_VERSION {
            return Err(RoomError::IncompatibleProtocol);
        }
        let clock_ok = match request.clock {
            None => true,
            Some(c) => MIN_BASE_MINUTES <= c.base_minutes && c.base_minutes <= MAX_BASE_MINUTES
                && c.increment_seconds <= MAX_INCREMENT_SECONDS,
        };
        if !request_valid || !clock_ok {
            return Err(RoomError::InvalidRequest);
        }
        if self.rooms.len() >= self.max_rooms {
            return Err(RoomError::RateLimited);
        }
        let (scenario_id, scenario_hash) = match self.catalog.get(&request.scenario_id) {
            None => {
                return Err(RoomError::UnknownScenario);
            },
            Some(installed) => (installed.id.clone(), installed.hash.clone()),
        };
        let code = self.allocate_code()?;
        let match_id = new_uuid();
        let raw_token = issue_token();
        let room = Room {
            code: code.clone(),
            match_id,
            scenario_id,
            scenario_hash,
            clock: request.clock,
            phase: RoomPhase::WaitingForOpponent,
            state: None,
            created_at: now,
            last_activity: now,
            ever_started: false,
            north: Seat {
                token_hash: hash_token(raw_token.as_str()),
                name: trim_text(request.player_name.as_str()),
                ready: false,
            },
            south: None,
            rematch_north: false,
            rematch_south: false,
        };
        let ghost es = self.room_entries();
        let ghost value = room;
        proof {
            lemma_map_of_contains(es, code@);
        }
        self.rooms.push(room);
        proof {
            assert(self.room_entries() =~= es.push((code@, value)));
            lemma_map_of_push(es, code@, value);
        }
        Ok(CreatedRoom { match_id, room_code: code, seat: Player::North, reconnect_token: raw_token })
    }

    /// Takes the South seat of the room with code `request.room_code` (normalized
    /// first). The request must speak `PROTOCOL_VERSION`; `request_valid` is
    /// the protocol's validation of its name and normalized code. The room must exist, have a free South seat, and wait
    /// for an opponent; the guest then holds a fresh token and the room waits for
    /// both seats to be ready.
    pub fn join(&mut self, request: JoinRoomRequest, request_valid: bool, now: u64) -> (result:
        Result<JoinedRoom, RoomError>)
        requires
            old(self).well_formed(),
        ensures
            final(self).well_formed(),
            final(self).failed() == old(self).failed(),
            final(self).installed() == old(self).installed(),
            final(self).room_limit() == old(self).room_limit(),
            final(self).room_count() == old(self).room_count(),
            ({
                let code = normalized_code(request.room_code@);
                let room = old(self).rooms()[code];
                if request.protocol_version != PROTOCOL_VERSION {
                    result == Err::<JoinedRoom, RoomError>(RoomError::IncompatibleProtocol)
                } else if !request_valid {
                    result == Err::<JoinedRoom, RoomError>(RoomError::InvalidRequest)
                } else if !old(self).rooms().contains_key(code) {
                    result == Err::<JoinedRoom, RoomError>(RoomError::NotFound)
                } else if room.south_seat() is Some {
                    result == Err::<JoinedRoom, RoomError>(RoomError::Full)
                } else if room.phase != RoomPhase::WaitingForOpponent {
                    result == Err::<JoinedRoom, RoomError>(RoomError::WrongPhase)
                } else {
                    result is Ok
                }
            }),
            result is Err ==> final(self).rooms() == old(self).rooms(),
            result matches Ok(joined) ==> {
                let code = normalized_code(request.room_code@);
                &&& joined.seat == Player::South
                &&& joined.match_id == old(self).rooms()[code].match_id
                &&& joined.reconnect_token@.len() == 64
                &&& final(self).rooms() == old(self).rooms().insert(code, final(self).rooms()[code])
                &&& joined_lobby(
                    old(self).rooms()[code],
                    final(self).rooms()[code],
                    trim(request.player_name@),
                    joined.reconnect_token@,
                    now,
                )
            },
    {
        let code = normalize_code(request.room_code.as_str());
        if request.protocol_version != PROTOCOL_VERSION {
            return Err(RoomError::IncompatibleProtocol);
        }
        if !request_valid {
            return Err(RoomError::InvalidRequest);
        }
        let k = match self.locate(&code) {
            None => {
                return Err(RoomError::NotFound);
            },
            Some(k) => k,
        };
        if self.rooms[k].south.is_some() {
            return Err(RoomError::Full);
        }
        if self.rooms[k].phase != RoomPhase::WaitingForOpponent {
            return Err(RoomError::WrongPhase);
        }
        let raw_token = issue_token();
        let ghost es = self.room_entries();
        let mut room = self.rooms.remove(k);
        room.south = Some(
            Seat {
                token_hash: hash_token(raw_token.as_str()),
                name: trim_text(request.player_name.as_str()),
                ready: false,
            },
        );
        room.phase = RoomPhase::WaitingForReady;
        room.last_activity = now;
        let match_id = room.match_id;
        let ghost value = room;
        self.rooms.insert(k, room);
        proof {
            assert(self.room_entries() =~= es.update(k as int, (code@, value)));
            lemma_map_of_update(es, k as int, value);
        }
        Ok(JoinedRoom { match_id, seat: Player::South, reconnect_token: raw_token })
    }

    /// Marks the seat holding `token` ready in the room `code` (normalized
    /// first), and starts the match once both seats are ready, as
    /// `ready_outcome` says.
    pub fn ready(&mut self, code: &str, token: &str, now: u64) -> (result: Result<
        RoomPhase,
        RoomError,
    >)
        requires
            old(self).well_formed(),
        ensures
            final(self).well_formed(),
            ready_outcome(*old(self), *final(self), normalized_code(code@), token@, now, result),
    {
        let code = normalize_code(code);
        let player = self.authenticate(&code, token, now)?;
        let ghost mid = *self;
        let k = match self.locate(&code) {
            None => {
                return Err(RoomError::Unauthorized);
            },
            Some(k) => k,
        };
        if self.rooms[k].phase != RoomPhase::WaitingForReady {
            return Err(RoomError::WrongPhase);
        }
        if player == Player::South && self.rooms[k].south.is_none() {
            return Err(RoomError::Unauthorized);
        }
        let ghost es = self.room_entries();
        let mut room = self.rooms.remove(k);
        match player {
            Player::North => {
                room.north.ready = true;
            },
            Player::South => {
                if let Some(seat) = &mut room.south {
                    seat.ready = true;
                }
            },
        }
        let ghost marked = room;
        let both = room.north.ready && match &room.south {
            Some(seat) => seat.ready,
            None => false,
        };
        let mut outcome = Ok(room.phase);
        if both {
            let installed = self.catalog.get(&room.scenario_id).is_some();
            if !installed {
                outcome = Err(RoomError::UnknownScenario);
            } else {
                room.state = Some(MatchProgress { scenario_id: room.scenario_id.clone(), terminal: false });
                room.phase = RoomPhase::Playing;
                room.ever_started = true;
                room.last_activity = now;
                room.rematch_north = false;
                room.rematch_south = false;
                outcome = Ok(RoomPhase::Playing);
            }
        }
        let ghost value = room;
        self.rooms.insert(k, room);
        proof {
            assert(self.room_entries() =~= es.update(k as int, (code@, value)));
            lemma_map_of_update(es, k as int, value);
            assert(marked == with_ready(mid.rooms()[code@], player));
        }
        outcome
    }

    /// Moves a playing room whose match has ended into its rematch phase.
    pub fn mark_finished(&mut self, code: &str, now: u64) -> (result: Result<(), RoomError>)
        requires
            old(self).well_formed(),
        ensures
            final(self).well_formed(),
            final(self).failed() == old(self).failed(),
            final(self).installed() == old(self).installed(),
            final(self).room_limit() == old(self).room_limit(),
            final(self).room_count() == old(self).room_count(),
            ({
                let key = normalized_code(code@);
                let room = old(self).rooms()[key];
                if !old(self).rooms().contains_key(key) {
                    result == Err::<(), RoomError>(RoomError::NotFound) && final(self).rooms()
                        == old(self).rooms()
                } else if room.phase != RoomPhase::Playing || !(room.state matches Some(p) && p.terminal) {
                    result == Err::<(), RoomError>(RoomError::WrongPhase) && final(self).rooms()
                        == old(self).rooms()
                } else {
                    result == Ok::<(), RoomError>(()) && final(self).rooms() == old(self).rooms().insert(
                        key,
                        Room { phase: RoomPhase::Finished, last_activity: now, ..room },
                    )
                }
            }),
    {
        let key = normalize_code(code);
        let k = match self.locate(&key) {
            None => {
                return Err(RoomError::NotFound);
            },
            Some(k) => k,
        };
        let terminal = match &self.rooms[k].state {
            Some(progress) => progress.terminal,
            None => false,
        };
        if self.rooms[k].phase != RoomPhase::Playing || !terminal {
            return Err(RoomError::WrongPhase);
        }
        let ghost es = self.room_entries();
        let mut room = self.rooms.remove(k);
        room.phase = RoomPhase::Finished;
        room.last_activity = now;
        let ghost value = room;
        self.rooms.insert(k, room);
        proof {
            assert(self.room_entries() =~= es.update(k as int, (key@, value)));
            lemma_map_of_update(es, k as int, value);
        }
        Ok(())
    }

    /// Applies a newly committed canonical state of match `match_id` to the
    /// room. A state of another match or scenario is refused, so a late result
    /// cannot overwrite a rematch; otherwise the room plays on, or is finished
    /// when the state has ended.
    pub fn sync_committed_state(&mut self, code: &str, match_id: u128, state: MatchProgress, now: u64) -> (result: Result<RoomPhase, RoomError>)
        requires
            old(self).well_formed(),
        ensures
            final(self).well_formed(),
            final(self).failed() == old(self).failed(),
            final(self).installed() == old(self).installed(),
            final(self).room_limit() == old(self).room_limit(),
            final(self).room_count() == old(self).room_count(),
            ({
                let key = normalized_code(code@);
                let room = old(self).rooms()[key];
                let phase = if state.terminal {
                    RoomPhase::Finished
                } else {
                    RoomPhase::Playing
                };
                if !old(self).rooms().contains_key(key) {
                    result == Err::<RoomPhase, RoomError>(RoomError::NotFound) && final(self).rooms()
                        == old(self).rooms()
                } else if room.match_id != match_id || room.scenario_id@ != state.scenario_id@ {
                    result == Err::<RoomPhase, RoomError>(RoomError::InvalidRequest) && final(self).rooms() == old(self).rooms()
                } else {
                    &&& result == Ok::<RoomPhase, RoomError>(phase)
                    &&& final(self).rooms() == old(self).rooms().insert(
                        key,
                        Room { phase, state: Some(state), last_activity: now, ..room },
                    )
                }
            }),
    {
        let key = normalize_code(code);
        let k = match self.locate(&key) {
            None => {
                return Err(RoomError::NotFound);
            },
            Some(k) => k,
        };
        if self.rooms[k].match_id != match_id || !self.rooms[k].scenario_id.eq(&state.scenario_id) {
            return Err(RoomError::InvalidRequest);
        }
        let ghost es = self.room_entries();
        let mut room = self.rooms.remove(k);
        room.phase = if state.terminal {
            RoomPhase::Finished
        } else {
            RoomPhase::Playing
        };
        room.state = Some(state);
        room.last_activity = now;
        let phase = room.phase;
        let ghost value = room;
        self.rooms.insert(k, room);
        proof {
            assert(self.room_entries() =~= es.update(k as int, (key@, value)));
            lemma_map_of_update(es, k as int, value);
        }
        Ok(phase)
    }

    /// Records the rematch acceptance of the seat holding `token`, and starts a
    /// fresh match (with a fresh random match identifier) once both seats have
    /// accepted, as `rematch_outcome` says.
    pub fn accept_rematch(&mut self, code: &str, token: &str, now: u64) -> (result: Result<
        RoomPhase,
        RoomError,
    >)
        requires
            old(self).well_formed(),
        ensures
            final(self).well_formed(),
            rematch_outcome(*old(self), *final(self), normalized_code(code@), token@, now, result),
    {
        let code = normalize_code(code);
        let player = self.authenticate(&code, token, now)?;
        let k = match self.locate(&code) {
            None => {
                return Err(RoomError::Unauthorized);
            },
            Some(k) => k,
        };
        if self.rooms[k].phase != RoomPhase::Finished {
            return Err(RoomError::WrongPhase);
        }
        let ghost es = self.room_entries();
        let mut room = self.rooms.remove(k);
        match player {
            Player::North => {
                room.rematch_north = true;
            },
            Player::South => {
                room.rematch_south = true;
            },
        }
        let ghost accepted = room;
        let mut outcome = Ok(room.phase);
        if room.rematch_north && room.rematch_south {
            if self.catalog.get(&room.scenario_id).is_none() {
                outcome = Err(RoomError::UnknownScenario);
            } else {
                room.match_id = fresh_match_id(room.match_id);
                room.state = Some(MatchProgress { scenario_id: room.scenario_id.clone(), terminal: false });
                room.phase = RoomPhase::Playing;
                room.ever_started = true;
                room.last_activity = now;
                room.rematch_north = false;
                room.rematch_south = false;
                outcome = Ok(RoomPhase::Playing);
            }
        }
        let ghost value = room;
        self.rooms.insert(k, room);
        proof {
            assert(self.room_entries() =~= es.update(k as int, (code@, value)));
            lemma_map_of_update(es, k as int, value);
        }
        outcome
    }

    /// Withdraws both rematch acceptances of a finished room, for the seat
    /// holding `token`.
    pub fn decline_rematch(&mut self, code: &str, token: &str, now: u64) -> (result: Result<
        (),
        RoomError,
    >)
        requires
            old(self).well_formed(),
        ensures
            final(self).well_formed(),
            ({
                let key = normalized_code(code@);
                let (auth, failed1) = auth_step(old(self).rooms(), old(self).failed(), key, token@, now);
                let room = old(self).rooms()[key];
                &&& final(self).failed() == failed1
                &&& final(self).installed() == old(self).installed()
                &&& final(self).room_limit() == old(self).room_limit()
                &&& final(self).room_count() == old(self).room_count()
                &&& match auth {
                    Err(e) => result == Err::<(), RoomError>(e) && final(self).rooms() == old(self).rooms(),
                    Ok(_) => if room.phase != RoomPhase::Finished {
                        result == Err::<(), RoomError>(RoomError::WrongPhase) && final(self).rooms()
                            == old(self).rooms()
                    } else {
                        result == Ok::<(), RoomError>(()) && final(self).rooms() == old(self).rooms().insert(
                            key,
                            Room {
                                rematch_north: false,
                                rematch_south: false,
                                last_activity: now,
                                ..room
                            },
                        )
                    },
                }
            }),
    {
        let code = normalize_code(code);
        self.authenticate(&code, token, now)?;
        let k = match self.locate(&code) {
            None => {
                return Err(RoomError::Unauthorized);
            },
            Some(k) => k,
        };
        if self.rooms[k].phase != RoomPhase::Finished {
            return Err(RoomError::WrongPhase);
        }
        let ghost es = self.room_entries();
        let mut room = self.rooms.remove(k);
        room.rematch_north = false;
        room.rematch_south = false;
        room.last_activity = now;
        let ghost value = room;
        self.rooms.insert(k, room);
        proof {
            assert(self.room_entries() =~= es.update(k as int, (code@, value)));
            lemma_map_of_update(es, k as int, value);
        }
        Ok(())
    }

    /// Leaves a room before its match: the host's departure removes the room
    /// (`Ok(true)`); the guest's frees the South seat, clears the host's
    /// readiness and waits for an opponent again (`Ok(false)`).
    pub fn leave_lobby(&mut self, code: &str, token: &str, now: u64) -> (result: Result<
        bool,
        RoomError,
    >)
        requires
            old(self).well_formed(),
        ensures
            final(self).well_formed(),
            ({
                let key = normalized_code(code@);
                let (auth, failed1) = auth_step(old(self).rooms(), old(self).failed(), key, token@, now);
                let room = old(self).rooms()[key];
                &&& final(self).failed() == failed1
                &&& final(self).installed() == old(self).installed()
                &&& final(self).room_limit() == old(self).room_limit()
                &&& match auth {
                    Err(e) => result == Err::<bool, RoomError>(e) && final(self).rooms() == old(self).rooms() && final(self).room_count() == old(self).room_count(),
                    Ok(player) => if room.phase != RoomPhase::WaitingForOpponent && room.phase
                        != RoomPhase::WaitingForReady {
                        result == Err::<bool, RoomError>(RoomError::WrongPhase) && final(self).rooms()
                            == old(self).rooms() && final(self).room_count() == old(self).room_count()
                    } else if player == Player::North {
                        &&& result == Ok::<bool, RoomError>(true)
                        &&& final(self).rooms() == old(self).rooms().remove(key)
                        &&& final(self).room_count() + 1 == old(self).room_count()
                    } else {
                        &&& result == Ok::<bool, RoomError>(false)
                        &&& final(self).room_count() == old(self).room_count()
                        &&& final(self).rooms() == old(self).rooms().insert(
                            key,
                            Room {
                                south: None,
                                north: Seat { ready: false, ..room.north },
                                phase: RoomPhase::WaitingForOpponent,
                                last_activity: now,
                                ..room
                            },
                        )
                    },
                }
            }),
    {
        let code = normalize_code(code);
        let player = self.authenticate(&code, token, now)?;
        let k = match self.locate(&code) {
            None => {
                return Err(RoomError::Unauthorized);
            },
            Some(k) => k,
        };
        if self.rooms[k].phase != RoomPhase::WaitingForOpponent && self.rooms[k].phase
            != RoomPhase::WaitingForReady {
            return Err(RoomError::WrongPhase);
        }
        let ghost es = self.room_entries();
        if player == Player::North {
            self.rooms.remove(k);
            proof {
                assert(self.room_entries() =~= es.remove(k as int));
                lemma_map_of_remove(es, k as int);
            }
            return Ok(true);
        }
        let mut room = self.rooms.remove(k);
        room.south = None;
        room.north.ready = false;
        room.phase = RoomPhase::WaitingForOpponent;
        room.last_activity = now;
        let ghost value = room;
        self.rooms.insert(k, room);
        proof {
            assert(self.room_entries() =~= es.update(k as int, (code@, value)));
            lemma_map_of_update(es, k as int, value);
        }
        Ok(false)
    }

    /// The room with code `code` (normalized first).
    pub fn room(&self, code: &str) -> (found: Option<&Room>)
        requires
            self.well_formed(),
        ensures
            match found {
                Some(r) => self.rooms().contains_key(normalized_code(code@)) && *r == self.rooms()[normalized_code(code@)],
                None => !self.rooms().contains_key(normalized_code(code@)),
            },
    {
        let key = normalize_code(code);
        match self.locate(&key) {
            Some(k) => Some(&self.rooms[k]),
            None => None,
        }
    }

    /// The durable record of a room whose two seats are taken.
    pub fn persisted_room(&self, code: &str) -> (record: Option<PersistedRoomRecord>)
        requires
            self.well_formed(),
        ensures
            ({
                let key = normalized_code(code@);
                let room = self.rooms()[key];
                match record {
                    None => !self.rooms().contains_key(key) || room.south is None,
                    Some(rec) => self.rooms().contains_key(key) && (room.south matches Some(south)
                        && persisted_matches(rec, room, south)),
                }
            }),
    {
        let room = self.room(code)?;
        let south = match &room.south {
            Some(seat) => seat,
            None => {
                return None;
            },
        };
        Some(
            PersistedRoomRecord {
                code: room.code.clone(),
                match_id: room.match_id,
                scenario_id: room.scenario_id.clone(),
                scenario_hash: room.scenario_hash.clone(),
                clock: room.clock,
                phase: room.phase,
                north: PersistedSeatRecord {
                    player: Player::North,
                    display_name: room.north.name.clone(),
                    token_hash: room.north.token_hash,
                    ready: room.north.ready,
                },
                south: PersistedSeatRecord {
                    player: Player::South,
                    display_name: south.name.clone(),
                    token_hash: south.token_hash,
                    ready: south.ready,
                },
            },
        )
    }

    /// The installed scenario that a room plays.
    pub fn installed_scenario_for_room(&self, code: &str) -> (found: Option<InstalledScenario>)
        requires
            self.well_formed(),
        ensures
            ({
                let key = normalized_code(code@);
                let id = self.rooms()[key].scenario_id@;
                match found {
                    None => !self.rooms().contains_key(key) || !self.installed().contains_key(id),
                    Some(s) => self.rooms().contains_key(key) && self.installed().contains_key(id)
                        && s.id@ == id && s.hash@ == self.installed()[id],
                }
            }),
    {
        let room = self.room(code)?;
        match self.catalog.get(&room.scenario_id) {
            Some(installed) => Some(installed.duplicate()),
            None => None,
        }
    }

    /// Authenticates the seat holding `token` in room `code` (normalized first)
    /// without revealing whether the room or the seat exists: the match, the
    /// seat and the room's phase.
    pub fn authenticate_seat(&mut self, code: &str, token: &str, now: u64) -> (result: Result<
        (u128, Player, RoomPhase),
        RoomError,
    >)
        requires
            old(self).well_formed(),
        ensures
            final(self).well_formed(),
            final(self).rooms() == old(self).rooms(),
            final(self).installed() == old(self).installed(),
            final(self).room_limit() == old(self).room_limit(),
            final(self).room_count() == old(self).room_count(),
            ({
                let key = normalized_code(code@);
                let (auth, failed1) = auth_step(old(self).rooms(), old(self).failed(), key, token@, now);
                let room = old(self).rooms()[key];
                &&& final(self).failed() == failed1
                &&& match auth {
                    Err(e) => result == Err::<(u128, Player, RoomPhase), RoomError>(e),
                    Ok(player) => result == Ok::<(u128, Player, RoomPhase), RoomError>(
                        (room.match_id, player, room.phase),
                    ),
                }
            }),
    {
        let code = normalize_code(code);
        let player = self.authenticate(&code, token, now)?;
        match self.locate(&code) {
            None => Err(RoomError::Unauthorized),
            Some(k) => Ok((self.rooms[k].match_id, player, self.rooms[k].phase)),
        }
    }

    /// Rebuilds a started room from its durable record and canonical state. The
    /// record is refused when its code is taken, the state plays another
    /// scenario, the phase is not a started one, the seats are not North then
    /// South, or both seats share one digest.
    pub fn restore_started_room(&mut self, record: PersistedRoomRecord, state: MatchProgress, now: u64) -> (result: Result<(), RoomError>)
        requires
            old(self).well_formed(),
        ensures
            final(self).well_formed(),
            final(self).failed() == old(self).failed(),
            final(self).installed() == old(self).installed(),
            final(self).room_limit() == old(self).room_limit(),
            ({
                let refused = old(self).rooms().contains_key(record.code@) || state.scenario_id@
                    != record.scenario_id@ || (record.phase != RoomPhase::Playing && record.phase
                    != RoomPhase::Finished) || record.north.player != Player::North
                    || record.south.player != Player::South || record.north.token_hash@
                    == record.south.token_hash@;
                if refused {
                    &&& result == Err::<(), RoomError>(RoomError::InvalidRequest)
                    &&& final(self).rooms() == old(self).rooms()
                    &&& final(self).room_count() == old(self).room_count()
                } else {
                    &&& result == Ok::<(), RoomError>(())
                    &&& final(self).room_count() == old(self).room_count() + 1
                    &&& final(self).rooms() == old(self).rooms().insert(
                        record.code@,
                        final(self).rooms()[record.code@],
                    )
                    &&& restored_room(final(self).rooms()[record.code@], record, state, now)
                }
            }),
    {
        let ghost rec = record;
        let ghost st = state;
        if self.locate(&record.code).is_some() || !state.scenario_id.eq(&record.scenario_id) || !(
        record.phase == RoomPhase::Playing || record.phase == RoomPhase::Finished)
            || record.north.player != Player::North || record.south.player != Player::South
            || constant_time_eq(&record.north.token_hash, &record.south.token_hash) {
            return Err(RoomError::InvalidRequest);
        }
        let code = record.code;
        let ghost key = code@;
        let room = Room {
            code: code,
            match_id: record.match_id,
            scenario_id: record.scenario_id,
            scenario_hash: record.scenario_hash,
            clock: record.clock,
            phase: record.phase,
            state: Some(state),
            created_at: now,
            last_activity: now,
            ever_started: true,
            north: Seat {
                token_hash: record.north.token_hash,
                name: record.north.display_name,
                ready: record.north.ready,
            },
            south: Some(
                Seat {
                    token_hash: record.south.token_hash,
                    name: record.south.display_name,
                    ready: record.south.ready,
                },
            ),
            rematch_north: false,
            rematch_south: false,
        };
        let ghost es = self.room_entries();
        let ghost value = room;
        proof {
            lemma_map_of_contains(es, key);
        }
        self.rooms.push(room);
        proof {
            assert(self.room_entries() =~= es.push((key, value)));
            lemma_map_of_push(es, key, value);
        }
        Ok(())
    }

    /// Removes the rooms that never started, still wait in their lobby, and have
    /// been idle for at least `maximum_idle` milliseconds at `now`; forgets the
    /// credential failures of removed codes; returns how many rooms it removed.
    pub fn expire_idle_pregame(&mut self, now: u64, maximum_idle: u64) -> (removed: usize)
        requires
            old(self).well_formed(),
        ensures
            final(self).well_formed(),
            final(self).rooms() == keep_where(
                old(self).rooms(),
                |code: Seq<char>, room: Room| !idle_pregame(room, now, maximum_idle),
            ),
            final(self).failed() == keep_where(
                old(self).failed(),
                |code: Seq<char>, w: FailedTokenWindow| final(self).rooms().contains_key(code),
            ),
            final(self).installed() == old(self).installed(),
            final(self).room_limit() == old(self).room_limit(),
            removed == old(self).room_count() - final(self).room_count(),
    {
        let ghost es = self.room_entries();
        let ghost keep = |code: Seq<char>, room: Room| !idle_pregame(room, now, maximum_idle);
        let before = self.rooms.len();
        let mut kept: Vec<Room> = Vec::new();
        proof {
            assert(map_of(es.take(0)) =~= Map::empty());
            assert(kept@.map_values(|r: Room| (r.code@, r)) =~= Seq::empty());
            assert(keep_where(map_of(es.take(0)), keep) =~= Map::empty());
        }
        while self.rooms.len() > 0
            invariant
                es == old(self).room_entries(),
                unique_keys(es),
                self.failed_entries() == old(self).failed_entries(),
                self.catalog == old(self).catalog,
                self.max_rooms == old(self).max_rooms,
                self.rooms@ == old(self).rooms@.skip(es.len() - self.rooms@.len()),
                self.rooms@.len() <= es.len(),
                keep == (|code: Seq<char>, room: Room| !idle_pregame(room, now, maximum_idle)),
                kept@.len() <= es.len() - self.rooms@.len(),
                unique_keys(kept@.map_values(|r: Room| (r.code@, r))),
                map_of(kept@.map_values(|r: Room| (r.code@, r))) == keep_where(
                    map_of(es.take(es.len() - self.rooms@.len())),
                    keep,
                ),
            decreases self.rooms@.len(),
        {
            let ghost n = es.len() - self.rooms@.len();
            let ghost ks = kept@.map_values(|r: Room| (r.code@, r));
            proof {
                lemma_keep_where_step(es, n, ks, keep);
            }
            let room = self.rooms.remove(0);
            assert(es[n] == (room.code@, room));
            assert(self.rooms@ =~= old(self).rooms@.skip(n + 1));
            let idle = !room.ever_started && (room.phase == RoomPhase::WaitingForOpponent
                || room.phase == RoomPhase::WaitingForReady) && (if now >= room.last_activity {
                now - room.last_activity
            } else {
                0
            }) >= maximum_idle;
            if !idle {
                let ghost value = room;
                kept.push(room);
                proof {
                    assert(kept@.map_values(|r: Room| (r.code@, r)) =~= ks.push(es[n]));
                    lemma_map_of_push(ks, es[n].0, es[n].1);
                }
            }
        }
        proof {
            lemma_take_full(es);
            lemma_map_of_len(kept@.map_values(|r: Room| (r.code@, r)));
            lemma_map_of_len(es);
        }
        self.rooms = kept;
        let after = self.rooms.len();
        let ghost mid = *self;
        assert(mid.failed() == old(self).failed());
        self.retain_failed_for_rooms();
        proof {
            assert(keep_where(
                mid.failed(),
                |code: Seq<char>, w: FailedTokenWindow| mid.rooms().contains_key(code),
            ) =~= keep_where(
                old(self).failed(),
                |code: Seq<char>, w: FailedTokenWindow| self.rooms().contains_key(code),
            ));
        }
        before - after
    }

    /// Forgets the credential failures of codes without a room.
    fn retain_failed_for_rooms(&mut self)
        requires
            old(self).well_formed(),
        ensures
            final(self).well_formed(),
            final(self).rooms() == old(self).rooms(),
            final(self).room_count() == old(self).room_count(),
            final(self).installed() == old(self).installed(),
            final(self).room_limit() == old(self).room_limit(),
            final(self).failed() == keep_where(
                old(self).failed(),
                |code: Seq<char>, w: FailedTokenWindow| old(self).rooms().contains_key(code),
            ),
    {
        let ghost fs = self.failed_entries();
        let ghost rooms = self.rooms();
        let ghost keep = |code: Seq<char>, w: FailedTokenWindow| rooms.contains_key(code);
        let mut kept: Vec<FailedAttempts> = Vec::new();
        proof {
            assert(map_of(fs.take(0)) =~= Map::empty());
            assert(kept@.map_values(|f: FailedAttempts| (f.code@, f.window)) =~= Seq::empty());
            assert(keep_where(map_of(fs.take(0)), keep) =~= Map::empty());
        }
        let mut k: usize = 0;
        while k < self.failed_token_attempts.len()
            invariant
                k <= self.failed_token_attempts@.len(),
                fs == self.failed_entries(),
                fs.len() == self.failed_token_attempts@.len(),
                self.well_formed(),
                rooms == self.rooms(),
                keep == (|code: Seq<char>, w: FailedTokenWindow| rooms.contains_key(code)),
                unique_keys(kept@.map_values(|f: FailedAttempts| (f.code@, f.window))),
                map_of(kept@.map_values(|f: FailedAttempts| (f.code@, f.window))) == keep_where(
                    map_of(fs.take(k as int)),
                    keep,
                ),
            decreases self.failed_token_attempts@.len() - k,
        {
            let ghost ks = kept@.map_values(|f: FailedAttempts| (f.code@, f.window));
            proof {
                lemma_keep_where_step(fs, k as int, ks, keep);
            }
            assert(fs[k as int] == (
                self.failed_token_attempts@[k as int].code@,
                self.failed_token_attempts@[k as int].window,
            ));
            let has_room = self.locate(&self.failed_token_attempts[k].code).is_some();
            if has_room {
                let entry = FailedAttempts {
                    code: self.failed_token_attempts[k].code.clone(),
                    window: self.failed_token_attempts[k].window,
                };
                kept.push(entry);
                proof {
                    assert(kept@.map_values(|f: FailedAttempts| (f.code@, f.window)) =~= ks.push(fs[k as int]));
                    lemma_map_of_push(ks, fs[k as int].0, fs[k as int].1);
                }
            }
            k = k + 1;
        }
        proof {
            lemma_take_full(fs);
        }
        self.failed_token_attempts = kept;
    }

    /// Counts one credential check, as `auth_step` says.
    fn authenticate(&mut self, code: &String, token: &str, now: u64) -> (result: Result<
        Player,
        RoomError,
    >)
        requires
            old(self).well_formed(),
        ensures
            final(self).well_formed(),
            (result, final(self).failed()) == auth_step(
                old(self).rooms(),
                old(self).failed(),
                code@,
                token@,
                now,
            ),
            final(self).rooms() == old(self).rooms(),
            final(self).installed() == old(self).installed(),
            final(self).room_limit() == old(self).room_limit(),
            final(self).room_count() == old(self).room_count(),
    {
        let ghost fs0 = self.failed_entries();
        proof {
            lemma_map_of_contains(fs0, code@);
        }
        let found = self.find_failed(code);
        if let Some(k) = found {
            proof {
                lemma_map_of_index(fs0, k as int);
            }
            let window = self.failed_token_attempts[k].window;
            if now >= window.started && now - window.started >= TOKEN_ATTEMPT_WINDOW_MILLIS {
                let fresh = FailedTokenWindow { started: now, attempts: 0 };
                let entry = FailedAttempts { code: code.clone(), window: fresh };
                self.failed_token_attempts.set(k, entry);
                proof {
                    assert(self.failed_entries() =~= fs0.update(k as int, (code@, fresh)));
                    lemma_map_of_update(fs0, k as int, fresh);
                }
            } else if window.attempts >= MAX_INVALID_TOKEN_ATTEMPTS {
                return Err(RoomError::RateLimited);
            }
        }
        let ghost fs1 = self.failed_entries();
        let located = self.locate(code);
        let matched = match located {
            Some(r) => self.rooms[r].player_for_token(token),
            None => None,
        };
        match matched {
            Some(player) => {
                if let Some(k) = found {
                    self.failed_token_attempts.remove(k);
                    proof {
                        assert(self.failed_entries() =~= fs1.remove(k as int));
                        lemma_map_of_remove(fs1, k as int);
                    }
                }
                proof {
                    if found is None {
                        assert(self.failed() == map_of(fs0));
                        assert(map_of(fs0).remove(code@) =~= map_of(fs0));
                    }
                }
                Ok(player)
            },
            None => {
                match found {
                    Some(k) => {
                        let window = self.failed_token_attempts[k].window;
                        let bumped = FailedTokenWindow {
                            started: window.started,
                            attempts: window.attempts.saturating_add(1),
                        };
                        let entry = FailedAttempts { code: code.clone(), window: bumped };
                        self.failed_token_attempts.set(k, entry);
                        proof {
                            lemma_map_of_index(fs1, k as int);
                            assert(self.failed_entries() =~= fs1.update(k as int, (code@, bumped)));
                            lemma_map_of_update(fs1, k as int, bumped);
                        }
                    },
                    None => {
                        let bumped = FailedTokenWindow { started: now, attempts: 1 };
                        let entry = FailedAttempts { code: code.clone(), window: bumped };
                        self.failed_token_attempts.push(entry);
                        proof {
                            assert(self.failed_entries() =~= fs1.push((code@, bumped)));
                            lemma_map_of_push(fs1, code@, bumped);
                        }
                    },
                }
                Err(RoomError::Unauthorized)
            },
        }
    }
}

/// A credential window that blocks checks of `code` at `now`: running, with
/// eight or more failures.
pub open spec fn blocked(failed: Map<Seq<char>, FailedTokenWindow>, code: Seq<char>, now: u64) -> bool {
    failed.contains_key(code) && !token_window_expired(failed[code].started, now)
        && failed[code].attempts >= MAX_INVALID_TOKEN_ATTEMPTS
}

/// The token whose digest a seat holds authenticates that seat (the host's
/// seat first), unless the code is blocked; success forgets the code's failures.
pub proof fn law_issued_token_authenticates(
    rooms: Map<Seq<char>, Room>,
    failed: Map<Seq<char>, FailedTokenWindow>,
    code: Seq<char>,
    token: Seq<char>,
    now: u64,
)
    requires
        rooms.contains_key(code),
        !blocked(failed, code, now),
        rooms[code].north.token_hash@ == sha256_of_text(token) || (rooms[code].south matches Some(
            s,
        ) && s.token_hash@ == sha256_of_text(token)),
    ensures
        auth_step(rooms, failed, code, token, now).0 == Ok::<Player, RoomError>(
            if rooms[code].north.token_hash@ == sha256_of_text(token) {
                Player::North
            } else {
                Player::South
            },
        ),
        !auth_step(rooms, failed, code, token, now).1.contains_key(code),
{
}

/// A code with eight failures in its running window is refused without a
/// credential check, and its failures are left as they are.
pub proof fn law_blocked_code_is_rate_limited(
    rooms: Map<Seq<char>, Room>,
    failed: Map<Seq<char>, FailedTokenWindow>,
    code: Seq<char>,
    token: Seq<char>,
    now: u64,
)
    requires
        blocked(failed, code, now),
    ensures
        auth_step(rooms, failed, code, token, now) == (
            Err::<Player, RoomError>(RoomError::RateLimited),
            failed,
        ),
{
}

/// A token that matches no seat gets the same refusal whether or not the room
/// exists, and is counted as one more failure of the code.
pub proof fn law_invalid_tokens_are_indistinguishable(
    rooms: Map<Seq<char>, Room>,
    failed: Map<Seq<char>, FailedTokenWindow>,
    code: Seq<char>,
    token: Seq<char>,
    now: u64,
)
    requires
        !blocked(failed, code, now),
        !rooms.contains_key(code) || rooms[code].seat_for_digest(sha256_of_text(token)) is None,
    ensures
        auth_step(rooms, failed, code, token, now) == auth_step(
            rooms.remove(code),
            failed,
            code,
            token,
            now,
        ),
        auth_step(rooms, failed, code, token, now).0 == Err::<Player, RoomError>(
            RoomError::Unauthorized,
        ),
        auth_step(rooms, failed, code, token, now).1.contains_key(code),
        !failed.contains_key(code) ==> auth_step(rooms, failed, code, token, now).1[code].attempts
            == 1,
        failed.contains_key(code) && !token_window_expired(failed[code].started, now)
            ==> auth_step(rooms, failed, code, token, now).1[code].attempts == failed[code].attempts
            + 1,
{
}

/// Expiry never removes a room that has started, whatever its idle time.
pub proof fn law_expiry_keeps_started_rooms(
    rooms: Map<Seq<char>, Room>,
    code: Seq<char>,
    now: u64,
    maximum_idle: u64,
)
    requires
        rooms.contains_key(code),
        rooms[code].ever_started || rooms[code].phase == RoomPhase::Playing || rooms[code].phase
            == RoomPhase::Finished,
    ensures
        keep_where(rooms, |c: Seq<char>, room: Room| !idle_pregame(room, now, maximum_idle)).contains_key(
            code,
        ),
{
}

/// Restoring a room from its durable record keeps every credential working:
/// the restored seats answer each token digest as the original seats did.
pub proof fn law_restore_preserves_credentials(
    room: Room,
    south: Seat,
    record: PersistedRoomRecord,
    restored: Room,
    state: MatchProgress,
    now: u64,
    digest: Seq<u8>,
)
    requires
        room.south == Some(south),
        persisted_matches(record, room, south),
        restored_room(restored, record, state, now),
    ensures
        restored.seat_for_digest(digest) == room.seat_for_digest(digest),
{
}

/// A service rebuilt with a room restored from its durable record
/// authenticates every token as the original room did: the host's token
/// gives North, the guest's South, any other is refused as unauthorized.
pub proof fn law_restored_service_authenticates_as_before(
    room: Room,
    south: Seat,
    record: PersistedRoomRecord,
    restored: Room,
    state: MatchProgress,
    now: u64,
    token: Seq<char>,
    later: u64,
)
    requires
        room.south == Some(south),
        persisted_matches(record, room, south),
        restored_room(restored, record, state, now),
    ensures
        auth_step(
            Map::<Seq<char>, Room>::empty().insert(record.code@, restored),
            Map::<Seq<char>, FailedTokenWindow>::empty(),
            record.code@,
            token,
            later,
        ).0 == match room.seat_for_digest(sha256_of_text(token)) {
            Some(player) => Ok::<Player, RoomError>(player),
            None => Err::<Player, RoomError>(RoomError::Unauthorized),
        },
{
    law_restore_preserves_credentials(room, south, record, restored, state, now, sha256_of_text(token));
}

/// Normalizing a normalized room code changes nothing.
pub proof fn law_normalized_code_is_stable(code: Seq<char>)
    ensures
        normalized_code(normalized_code(code)) == normalized_code(code),
{
    lemma_trim_upper_idempotent(code);
}

} // verus!
