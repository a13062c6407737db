//! The balance metrics of a playtest report: per-side counters, where moves
//! land, the first contact between the sides, and checks delivered, gathered
//! from each accepted transition of a local match.
use vstd::prelude::*;

use crate::lifecycle::ClientFlow;
use crate::rooms::Player;
use crate::text::{decimal, decimal_text, push_char};

verus! {

/// The playtest report format this client writes.
pub const PLAYTEST_FORMAT_VERSION: u16 = 1;

/// The largest playtest report written, in bytes.
pub const MAX_PLAYTEST_BYTES: usize = 16777216;

/// A counter per side.
#[derive(Debug, Clone, Copy, PartialEq, Eq, Structural)]
pub struct SideCounts {
    pub north: u32,
    pub south: u32,
}

/// A `u32` counter increased by one, held at its largest value.
pub open spec fn bump(n: u32) -> u32 {
    if n == u32::MAX {
        u32::MAX
    } else {
        (n + 1) as u32
    }
}

/// The counters after one more for `player`.
pub open spec fn counted(counts: SideCounts, player: Player) -> SideCounts {
    match player {
        Player::North => SideCounts { north: bump(counts.north), ..counts },
        Player::South => SideCounts { south: bump(counts.south), ..counts },
    }
}

impl SideCounts {
    /// Nothing counted.
    pub fn new() -> (counts: Self)
        ensures
            counts == (SideCounts { north: 0, south: 0 }),
    {
        SideCounts { north: 0, south: 0 }
    }

    /// Counts one more for `player`.
    pub fn increment(&mut self, player: Player)
        ensures
            *final(self) == counted(*old(self), player),
    {
        match player {
            Player::North => self.north = self.north.saturating_add(1),
            Player::South => self.south = self.south.saturating_add(1),
        }
    }
}

/// Moves counted by side and by third of the board they land in.
#[derive(Debug, Clone, Copy, PartialEq, Eq, Structural)]
pub struct GeographicCounts {
    pub north_west: u32,
    pub north_center: u32,
    pub north_east: u32,
    pub south_west: u32,
    pub south_center: u32,
    pub south_east: u32,
}

/// Where a column lies on a board of `width` columns: west of the centre
/// line, on it, or east of it.
pub open spec fn side_of_center(x: u16, width: u16) -> int {
    let doubled = 2 * x;
    let last: int = if width == 0 {
        0
    } else {
        width - 1
    };
    if doubled < last {
        -1
    } else if doubled == last {
        0
    } else {
        1
    }
}

/// The counts after a move by `player` to column `x`.
pub open spec fn recorded(counts: GeographicCounts, player: Player, x: u16, width: u16) -> GeographicCounts {
    let side = side_of_center(x, width);
    match player {
        Player::North => if side < 0 {
            GeographicCounts { north_west: bump(counts.north_west), ..counts }
        } else if side == 0 {
            GeographicCounts { north_center: bump(counts.north_center), ..counts }
        } else {
            GeographicCounts { north_east: bump(counts.north_east), ..counts }
        },
        Player::South => if side < 0 {
            GeographicCounts { south_west: bump(counts.south_west), ..counts }
        } else if side == 0 {
            GeographicCounts { south_center: bump(counts.south_center), ..counts }
        } else {
            GeographicCounts { south_east: bump(counts.south_east), ..counts }
        },
    }
}

impl GeographicCounts {
    /// Nothing counted.
    pub fn new() -> (counts: Self)
        ensures
            counts == (GeographicCounts {
                north_west: 0,
                north_center: 0,
                north_east: 0,
                south_west: 0,
                south_center: 0,
                south_east: 0,
            }),
    {
        GeographicCounts {
            north_west: 0,
            north_center: 0,
            north_east: 0,
            south_west: 0,
            south_center: 0,
            south_east: 0,
        }
    }

    /// Counts a move by `player` to column `x` of a board `width` wide.
    pub fn record(&mut self, player: Player, x: u16, width: u16)
        ensures
            *final(self) == recorded(*old(self), player, x, width),
    {
        let doubled: u32 = x as u32 * 2;
        let last: u32 = if width == 0 {
            0
        } else {
            width as u32 - 1
        };
        let west = doubled < last;
        let center = doubled == last;
        match player {
            Player::North => {
                if west {
                    self.north_west = self.north_west.saturating_add(1);
                } else if center {
                    self.north_center = self.north_center.saturating_add(1);
                } else {
                    self.north_east = self.north_east.saturating_add(1);
                }
            },
            Player::South => {
                if west {
                    self.south_west = self.south_west.saturating_add(1);
                } else if center {
                    self.south_center = self.south_center.saturating_add(1);
                } else {
                    self.south_east = self.south_east.saturating_add(1);
                }
            },
        }
    }
}

/// A kind of first contact between the sides.
#[derive(Debug, Clone, Copy, PartialEq, Eq, Structural)]
pub enum ContactKind {
    Capture,
    Check,
    SettlementClaim,
    SettlementContest,
    SettlementTransfer,
}

/// When the sides first met, and how.
#[derive(Debug, Clone, Copy, PartialEq, Eq, Structural)]
pub struct ContactMilestone {
    pub turn: u64,
    pub revision: u64,
    pub kind: ContactKind,
}

/// What a transition's event says, as far as the metrics read it.
#[derive(Debug, Clone, Copy, PartialEq, Eq, Structural)]
pub enum TransitionEventKind {
    TurnStarted(u64),
    PieceCaptured,
    SettlementClaimed(Player),
    SettlementContested,
    SettlementTransferred(Player),
    PawnProduced,
    PiecePromoted,
    Other,
}

/// What the metrics read of an accepted transition: who acted (and where a
/// move landed), its events, and the match afterwards.
#[derive(Debug)]
pub struct TransitionSummary {
    pub action_player: Option<Player>,
    pub move_to_x: Option<u16>,
    pub events: Vec<TransitionEventKind>,
    pub turn_number: u64,
    pub revision: u64,
    pub has_outcome: bool,
    pub checkmate: bool,
    pub active_player: Player,
    pub in_check: bool,
}

/// The turn of the last check counted, and the side it was against.
#[derive(Debug, Clone, Copy, PartialEq, Eq, Structural)]
pub struct CheckMark {
    pub turn: u64,
    pub checked: Player,
}

/// The balance metrics of a playtest.
#[derive(Debug, Clone, Copy, PartialEq, Eq, Structural)]
pub struct PlaytestMetrics {
    pub final_revision: u64,
    pub turn_count: u64,
    pub first_contact: Option<ContactMilestone>,
    pub claims: SideCounts,
    pub produced_pawns: SideCounts,
    pub promoted_pawns: SideCounts,
    pub checks_delivered: SideCounts,
    pub last_check_against: Option<CheckMark>,
    pub geographic_moves: GeographicCounts,
}

/// The other side.
pub open spec fn opponent(player: Player) -> Player {
    match player {
        Player::North => Player::South,
        Player::South => Player::North,
    }
}

/// The turn a transition belongs to: the turn before the first one it
/// starts, or the match's turn when it starts none.
pub open spec fn transition_turn(events: Seq<TransitionEventKind>, turn_number: u64) -> u64
    decreases events.len(),
{
    if events.len() == 0 {
        turn_number
    } else {
        match events[0] {
            TransitionEventKind::TurnStarted(n) => if n == 0 {
                0
            } else {
                (n - 1) as u64
            },
            _ => transition_turn(events.drop_first(), turn_number),
        }
    }
}

/// The first contact, kept once set.
pub open spec fn noted(m: PlaytestMetrics, turn: u64, revision: u64, kind: ContactKind) -> PlaytestMetrics {
    if m.first_contact is Some {
        m
    } else {
        PlaytestMetrics { first_contact: Some(ContactMilestone { turn, revision, kind }), ..m }
    }
}

/// The metrics after one event.
pub open spec fn after_event(
    m: PlaytestMetrics,
    event: TransitionEventKind,
    turn: u64,
    revision: u64,
    player: Option<Player>,
) -> PlaytestMetrics {
    match event {
        TransitionEventKind::PieceCaptured => noted(m, turn, revision, ContactKind::Capture),
        TransitionEventKind::SettlementClaimed(owner) => noted(
            PlaytestMetrics { claims: counted(m.claims, owner), ..m },
            turn,
            revision,
            ContactKind::SettlementClaim,
        ),
        TransitionEventKind::SettlementContested => noted(
            m,
            turn,
            revision,
            ContactKind::SettlementContest,
        ),
        TransitionEventKind::SettlementTransferred(owner) => noted(
            PlaytestMetrics { claims: counted(m.claims, owner), ..m },
            turn,
            revision,
            ContactKind::SettlementTransfer,
        ),
        TransitionEventKind::PawnProduced => match player {
            Some(p) => PlaytestMetrics { produced_pawns: counted(m.produced_pawns, p), ..m },
            None => m,
        },
        TransitionEventKind::PiecePromoted => match player {
            Some(p) => PlaytestMetrics { promoted_pawns: counted(m.promoted_pawns, p), ..m },
            None => m,
        },
        _ => m,
    }
}

/// The metrics after the events, in order.
pub open spec fn after_events(
    m: PlaytestMetrics,
    events: Seq<TransitionEventKind>,
    turn: u64,
    revision: u64,
    player: Option<Player>,
) -> PlaytestMetrics
    decreases events.len(),
{
    if events.len() == 0 {
        m
    } else {
        after_event(
            after_events(m, events.drop_last(), turn, revision, player),
            events.last(),
            turn,
            revision,
            player,
        )
    }
}

/// A check delivered against `checked` in `turn`, counted once per turn.
pub open spec fn check_counted(m: PlaytestMetrics, turn: u64, revision: u64, checked: Player) -> PlaytestMetrics {
    if m.last_check_against == Some(CheckMark { turn, checked }) {
        m
    } else {
        noted(
            PlaytestMetrics {
                last_check_against: Some(CheckMark { turn, checked }),
                checks_delivered: counted(m.checks_delivered, opponent(checked)),
                ..m
            },
            turn,
            revision,
            ContactKind::Check,
        )
    }
}

/// The metrics after the check state of the match that results: a live
/// match counts a check on the side to move (and forgets the last check when
/// there is none); a checkmate counts one too.
pub open spec fn after_check(m: PlaytestMetrics, s: TransitionSummary, turn: u64) -> PlaytestMetrics {
    if !s.has_outcome {
        if s.in_check {
            check_counted(m, turn, s.revision, s.active_player)
        } else {
            PlaytestMetrics { last_check_against: None, ..m }
        }
    } else if s.checkmate {
        check_counted(m, turn, s.revision, s.active_player)
    } else {
        m
    }
}

/// The metrics after one accepted transition on a board `width` wide.
pub open spec fn after_transition(m: PlaytestMetrics, s: TransitionSummary, width: u16) -> PlaytestMetrics {
    let turn = transition_turn(s.events@, s.turn_number);
    let moved = match (s.action_player, s.move_to_x) {
        (Some(p), Some(x)) => PlaytestMetrics {
            geographic_moves: recorded(m.geographic_moves, p, x, width),
            ..m
        },
        _ => m,
    };
    let evented = after_events(moved, s.events@, turn, s.revision, s.action_player);
    let checked = after_check(evented, s, turn);
    PlaytestMetrics { final_revision: s.revision, turn_count: s.turn_number, ..checked }
}

fn find_turn(events: &[TransitionEventKind], turn_number: u64) -> (turn: u64)
    ensures
        turn == transition_turn(events@, turn_number),
{
    let mut i: usize = 0;
    assert(events@.subrange(0, events@.len() as int) =~= events@);
    while i < events.len()
        invariant
            i <= events@.len(),
            transition_turn(events@, turn_number) == transition_turn(events@.subrange(i as int, events@.len() as int), turn_number),
        decreases events.len() - i,
    {
        let ghost rest = events@.subrange(i as int, events@.len() as int);
        assert(rest.drop_first() =~= events@.subrange(i + 1, events@.len() as int));
        match events[i] {
            TransitionEventKind::TurnStarted(n) => {
                return if n == 0 {
                    0
                } else {
                    n - 1
                };
            },
            _ => {},
        }
        i = i + 1;
    }
    assert(events@.subrange(i as int, events@.len() as int).len() == 0);
    turn_number
}

/// Nothing measured yet, from a match at `revision` in `turn_number`.
pub open spec fn initial_metrics(revision: u64, turn_number: u64) -> PlaytestMetrics {
    PlaytestMetrics {
        final_revision: revision,
        turn_count: turn_number,
        first_contact: None,
        claims: SideCounts { north: 0, south: 0 },
        produced_pawns: SideCounts { north: 0, south: 0 },
        promoted_pawns: SideCounts { north: 0, south: 0 },
        checks_delivered: SideCounts { north: 0, south: 0 },
        last_check_against: None,
        geographic_moves: GeographicCounts {
            north_west: 0,
            north_center: 0,
            north_east: 0,
            south_west: 0,
            south_center: 0,
            south_east: 0,
        },
    }
}

impl PlaytestMetrics {
    /// Nothing measured yet, from a match at `revision` in `turn_number`.
    pub fn new(revision: u64, turn_number: u64) -> (metrics: Self)
        ensures
            metrics == initial_metrics(revision, turn_number),
    {
        PlaytestMetrics {
            final_revision: revision,
            turn_count: turn_number,
            first_contact: None,
            claims: SideCounts::new(),
            produced_pawns: SideCounts::new(),
            promoted_pawns: SideCounts::new(),
            checks_delivered: SideCounts::new(),
            last_check_against: None,
            geographic_moves: GeographicCounts::new(),
        }
    }

    fn note_contact(&mut self, turn: u64, revision: u64, kind: ContactKind)
        ensures
            *final(self) == noted(*old(self), turn, revision, kind),
    {
        if self.first_contact.is_none() {
            self.first_contact = Some(ContactMilestone { turn, revision, kind });
        }
    }

    fn count_check(&mut self, turn: u64, revision: u64, checked: Player)
        ensures
            *final(self) == check_counted(*old(self), turn, revision, checked),
    {
        if self.last_check_against != Some(CheckMark { turn, checked }) {
            self.last_check_against = Some(CheckMark { turn, checked });
            let checking = match checked {
                Player::North => Player::South,
                Player::South => Player::North,
            };
            self.checks_delivered.increment(checking);
            self.note_contact(turn, revision, ContactKind::Check);
        }
    }

    /// Gathers the metrics of one accepted transition on a board `width`
    /// wide; gives the turn it belongs to.
    pub fn record(&mut self, summary: &TransitionSummary, width: u16) -> (turn: u64)
        ensures
            *final(self) == after_transition(*old(self), *summary, width),
            turn == transition_turn(summary.events@, summary.turn_number),
    {
        let turn = find_turn(summary.events.as_slice(), summary.turn_number);
        let revision = summary.revision;
        if let (Some(player), Some(x)) = (summary.action_player, summary.move_to_x) {
            self.geographic_moves.record(player, x, width);
        }
        let ghost start = *self;
        let mut i: usize = 0;
        while i < summary.events.len()
            invariant
                i <= summary.events@.len(),
                *self == after_events(
                    start,
                    summary.events@.subrange(0, i as int),
                    turn,
                    revision,
                    summary.action_player,
                ),
            decreases summary.events.len() - i,
        {
            assert(summary.events@.subrange(0, i + 1).drop_last() =~= summary.events@.subrange(
                0,
                i as int,
            ));
            match summary.events[i] {
                TransitionEventKind::PieceCaptured => {
                    self.note_contact(turn, revision, ContactKind::Capture);
                },
                TransitionEventKind::SettlementClaimed(owner) => {
                    self.claims.increment(owner);
                    self.note_contact(turn, revision, ContactKind::SettlementClaim);
                },
                TransitionEventKind::SettlementContested => {
                    self.note_contact(turn, revision, ContactKind::SettlementContest);
                },
                TransitionEventKind::SettlementTransferred(owner) => {
                    self.claims.increment(owner);
                    self.note_contact(turn, revision, ContactKind::SettlementTransfer);
                },
                TransitionEventKind::PawnProduced => {
                    if let Some(player) = summary.action_player {
                        self.produced_pawns.increment(player);
                    }
                },
                TransitionEventKind::PiecePromoted => {
                    if let Some(player) = summary.action_player {
                        self.promoted_pawns.increment(player);
                    }
                },
                _ => {},
            }
            i = i + 1;
        }
        assert(summary.events@.subrange(0, summary.events@.len() as int) =~= summary.events@);
        if !summary.has_outcome {
            if summary.in_check {
                self.count_check(turn, revision, summary.active_player);
            } else {
                self.last_check_against = None;
            }
        } else if summary.checkmate {
            self.count_check(turn, revision, summary.active_player);
        }
        self.final_revision = revision;
        self.turn_count = summary.turn_number;
        turn
    }
}

/// Whether an event counts a settlement for a side: a claim or a transfer.
pub open spec fn claims_settlement(event: TransitionEventKind) -> bool {
    event is SettlementClaimed || event is SettlementTransferred
}

/// How many events count a settlement for a side.
pub open spec fn claim_events(events: Seq<TransitionEventKind>) -> nat
    decreases events.len(),
{
    if events.len() == 0 {
        0
    } else {
        claim_events(events.drop_last()) + if claims_settlement(events.last()) {
            1nat
        } else {
            0nat
        }
    }
}

proof fn lemma_claims_after_events(
    m: PlaytestMetrics,
    events: Seq<TransitionEventKind>,
    turn: u64,
    revision: u64,
    player: Option<Player>,
)
    requires
        m.claims.north + events.len() < u32::MAX,
        m.claims.south + events.len() < u32::MAX,
    ensures
        ({
            let after = after_events(m, events, turn, revision, player);
            &&& after.claims.north + after.claims.south == m.claims.north + m.claims.south
                + claim_events(events)
            &&& after.claims.north <= m.claims.north + events.len()
            &&& after.claims.south <= m.claims.south + events.len()
        }),
    decreases events.len(),
{
    if events.len() > 0 {
        lemma_claims_after_events(m, events.drop_last(), turn, revision, player);
    }
}

/// Recording a transition counts one settlement for a side per claim or
/// transfer among its events (while the counters are far from their
/// largest value), and moves the report to the transition's revision and turn.
pub proof fn law_claims_count_claim_events(m: PlaytestMetrics, s: TransitionSummary, width: u16)
    requires
        m.claims.north + s.events@.len() < u32::MAX,
        m.claims.south + s.events@.len() < u32::MAX,
    ensures
        after_transition(m, s, width).claims.north + after_transition(m, s, width).claims.south
            == m.claims.north + m.claims.south + claim_events(s.events@),
        after_transition(m, s, width).final_revision == s.revision,
        after_transition(m, s, width).turn_count == s.turn_number,
{
    let turn = transition_turn(s.events@, s.turn_number);
    let moved = match (s.action_player, s.move_to_x) {
        (Some(p), Some(x)) => PlaytestMetrics {
            geographic_moves: recorded(m.geographic_moves, p, x, width),
            ..m
        },
        _ => m,
    };
    assert(moved.claims == m.claims);
    lemma_claims_after_events(moved, s.events@, turn, s.revision, s.action_player);
}

/// One accepted transition as the report logs it: its turn, revision and
/// actor, the action and events (of the rules' own types `A` and `E`), and the
/// hash of the state it produced.
#[derive(Debug)]
pub struct PlaytestActionRecord<A, E> {
    pub turn: u64,
    pub revision: u64,
    pub player: Option<Player>,
    pub action: Option<A>,
    pub events: Vec<E>,
    pub state_hash: String,
}

/// A playtest report: the balance metrics, the match's outcome (of the
/// rules' own type `O`), and the log of accepted transitions, oldest first.
#[derive(Debug)]
pub struct PlaytestReport<A, E, O> {
    pub metrics: PlaytestMetrics,
    pub outcome: Option<O>,
    pub actions: Vec<PlaytestActionRecord<A, E>>,
}

impl<A, E, O> PlaytestReport<A, E, O> {
    /// A report of a match at `revision` in `turn_number` with `outcome`:
    /// nothing measured or logged yet.
    pub fn new(revision: u64, turn_number: u64, outcome: Option<O>) -> (report: Self)
        ensures
            report.metrics == initial_metrics(revision, turn_number),
            report.outcome == outcome,
            report.actions@.len() == 0,
    {
        PlaytestReport { metrics: PlaytestMetrics::new(revision, turn_number), outcome, actions: Vec::new() }
    }

    /// Records one accepted transition: its metrics (as
    /// `PlaytestMetrics::record`), the match's outcome afterwards, and a log
    /// entry with its turn, revision, actor, action, events and state hash.
    pub fn record(
        &mut self,
        summary: &TransitionSummary,
        width: u16,
        action: Option<A>,
        events: Vec<E>,
        outcome: Option<O>,
        state_hash: String,
    )
        ensures
            final(self).metrics == after_transition(old(self).metrics, *summary, width),
            final(self).outcome == outcome,
            final(self).actions@ == old(self).actions@.push(
                PlaytestActionRecord {
                    turn: transition_turn(summary.events@, summary.turn_number),
                    revision: summary.revision,
                    player: summary.action_player,
                    action,
                    events,
                    state_hash,
                },
            ),
    {
        let turn = self.metrics.record(summary, width);
        self.outcome = outcome;
        self.actions.push(
            PlaytestActionRecord {
                turn,
                revision: summary.revision,
                player: summary.action_player,
                action,
                events,
                state_hash,
            },
        );
    }
}

/// A check is counted once per turn: recording the same check again in the
/// same turn changes nothing.
pub proof fn law_check_counted_once_per_turn(m: PlaytestMetrics, turn: u64, revision: u64, checked: Player)
    ensures
        check_counted(check_counted(m, turn, revision, checked), turn, revision, checked)
            == check_counted(m, turn, revision, checked),
{
}

/// The first contact, once set, never changes.
pub proof fn law_first_contact_is_kept(
    m: PlaytestMetrics,
    events: Seq<TransitionEventKind>,
    turn: u64,
    revision: u64,
    player: Option<Player>,
)
    requires
        m.first_contact is Some,
    ensures
        after_events(m, events, turn, revision, player).first_contact == m.first_contact,
    decreases events.len(),
{
    if events.len() > 0 {
        law_first_contact_is_kept(m, events.drop_last(), turn, revision, player);
    }
}

/// What the export key does.
#[derive(Debug, Clone, Copy, PartialEq, Eq, Structural)]
pub enum ExportStep {
    /// Nothing: the key was not pressed, or no local match is shown.
    Ignore,
    /// Show this message and write nothing.
    Refuse(ExportRefusal),
    /// Write the report.
    Write,
}

/// Why a report is not written.
#[derive(Debug, Clone, Copy, PartialEq, Eq, Structural)]
pub enum ExportRefusal {
    /// A fog match still under way would reveal hidden positions.
    FogLocked,
    /// No local session has been recorded.
    NoReport,
}

/// The message of a refused export.
pub open spec fn refusal_message(refusal: ExportRefusal) -> Seq<char> {
    match refusal {
        ExportRefusal::FogLocked =>
            "Fog playtest export is locked until the match ends; active hidden truth remains private."@,
        ExportRefusal::NoReport => "No local playtest session is available to export."@,
    }
}

/// The message of a refused export.
pub fn refusal_text(refusal: ExportRefusal) -> (text: &'static str)
    ensures
        text@ == refusal_message(refusal),
{
    match refusal {
        ExportRefusal::FogLocked =>
            "Fog playtest export is locked until the match ends; active hidden truth remains private.",
        ExportRefusal::NoReport => "No local playtest session is available to export.",
    }
}

/// The export key works only on a local match; a fog match is locked until
/// it ends; a report must have been recorded.
pub open spec fn export_step_of(
    pressed: bool,
    flow: ClientFlow,
    fog: bool,
    ended: bool,
    has_report: bool,
) -> ExportStep {
    if !pressed || flow == ClientFlow::Setup || flow == ClientFlow::OnlineLobby || flow
        == ClientFlow::OnlinePlaying {
        ExportStep::Ignore
    } else if fog && !ended {
        ExportStep::Refuse(ExportRefusal::FogLocked)
    } else if !has_report {
        ExportStep::Refuse(ExportRefusal::NoReport)
    } else {
        ExportStep::Write
    }
}

/// Decides what the export key does in `flow`, for a match with (or without)
/// fog that has (or has not) ended.
pub fn export_step(pressed: bool, flow: ClientFlow, fog: bool, ended: bool, has_report: bool) -> (step:
    ExportStep)
    ensures
        step == export_step_of(pressed, flow, fog, ended, has_report),
{
    if !pressed || matches!(flow, ClientFlow::Setup | ClientFlow::OnlineLobby | ClientFlow::OnlinePlaying) {
        ExportStep::Ignore
    } else if fog && !ended {
        ExportStep::Refuse(ExportRefusal::FogLocked)
    } else if !has_report {
        ExportStep::Refuse(ExportRefusal::NoReport)
    } else {
        ExportStep::Write
    }
}

/// A character kept in a report's file name: ASCII letters, digits, `-` and
/// `_` stay, anything else becomes `_`.
pub open spec fn file_name_char(c: char) -> char {
    if ('a' <= c && c <= 'z') || ('A' <= c && c <= 'Z') || ('0' <= c && c <= '9') || c == '-' || c
        == '_' {
        c
    } else {
        '_'
    }
}

/// The file name of a report: the scenario made safe for a file name, the
/// session, and a name that no other export shares.
pub open spec fn report_file_name(scenario_id: Seq<char>, session_id: u64, unique: Seq<char>) -> Seq<
    char,
> {
    scenario_id.map_values(|c: char| file_name_char(c)) + "-session-"@ + decimal(session_id as nat)
        + "-"@ + unique + ".json"@
}

fn append_part(text: &mut String, part: &str)
    ensures
        final(text)@ == old(text)@ + part@,
{
    vstd::string::StringExecFns::append(text, part);
}

/// Names the file of a report; `unique` is a fresh identifier's text.
pub fn playtest_file_name(scenario_id: &str, session_id: u64, unique: &str) -> (name: String)
    ensures
        name@ == report_file_name(scenario_id@, session_id, unique@),
{
    let len = scenario_id.unicode_len();
    let mut out = String::new();
    let mut i: usize = 0;
    while i < len
        invariant
            i <= len,
            len == scenario_id@.len(),
            out@ =~= scenario_id@.take(i as int).map_values(|c: char| file_name_char(c)),
        decreases len - i,
    {
        let c = scenario_id.get_char(i);
        let kept = if ('a' <= c && c <= 'z') || ('A' <= c && c <= 'Z') || ('0' <= c && c <= '9')
            || c == '-' || c == '_' {
            c
        } else {
            '_'
        };
        push_char(&mut out, kept);
        assert(scenario_id@.take(i + 1) =~= scenario_id@.take(i as int).push(c));
        i = i + 1;
    }
    assert(scenario_id@.take(len as int) =~= scenario_id@);
    append_part(&mut out, "-session-");
    let session = decimal_text(session_id);
    append_part(&mut out, session.as_str());
    append_part(&mut out, "-");
    append_part(&mut out, unique);
    append_part(&mut out, ".json");
    out
}

/// Why a report of `length` bytes is not written.
pub open spec fn report_size_error(length: usize) -> Option<Seq<char>> {
    if length > MAX_PLAYTEST_BYTES {
        Some("record exceeds the "@ + decimal(MAX_PLAYTEST_BYTES as nat) + " byte local export limit"@)
    } else {
        None
    }
}

/// Checks the size of an encoded report before it is written.
pub fn check_report_size(length: usize) -> (result: Result<(), String>)
    ensures
        match report_size_error(length) {
            Some(m) => result is Err && result->Err_0@ == m,
            None => result is Ok,
        },
{
    if length <= MAX_PLAYTEST_BYTES {
        return Ok(());
    }
    let mut message = String::from_str("record exceeds the ");
    let limit = decimal_text(MAX_PLAYTEST_BYTES as u64);
    append_part(&mut message, limit.as_str());
    append_part(&mut message, " byte local export limit");
    Err(message)
}

/// The status line after a report was written, or why it was not.
pub open spec fn export_message(result: Result<Seq<char>, Seq<char>>) -> Seq<char> {
    match result {
        Ok(path) => "Explicit local playtest export written to "@ + path
            + ". Add consented qualitative review before submission."@,
        Err(error) => "Playtest export failed without upload: "@ + error,
    }
}

/// The status line after a report was written to `path`, or failed.
pub fn export_status(result: Result<&str, &str>) -> (message: String)
    ensures
        message@ == export_message(
            match result {
                Ok(p) => Ok(p@),
                Err(e) => Err(e@),
            },
        ),
{
    match result {
        Ok(path) => {
            let mut m = String::from_str("Explicit local playtest export written to ");
            append_part(&mut m, path);
            append_part(&mut m, ". Add consented qualitative review before submission.");
            m
        },
        Err(error) => {
            let mut m = String::from_str("Playtest export failed without upload: ");
            append_part(&mut m, error);
            m
        },
    }
}

} // verus!
