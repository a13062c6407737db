//! The information panels: which panels are collapsed, the bounded list of
//! recent actions, and the labels of the online status line.
use vstd::prelude::*;

use crate::connections::ConnectionState;
use crate::online_connection::ConnectionPhase;
use crate::text::{decimal, decimal_text};

verus! {

/// The most recent actions the history panel lists.
pub const HISTORY_LIMIT: usize = 12;

/// A remaining time at or under which a clock is shown as low.
pub const LOW_CLOCK_MILLIS: u64 = 60_000;

/// An information panel.
#[derive(Debug, Clone, Copy, PartialEq, Eq, Structural)]
pub enum PanelKind {
    Match,
    Settlements,
}

/// Which panels are collapsed.
#[derive(Debug, Clone, Copy, PartialEq, Eq, Structural)]
pub struct PanelState {
    pub match_collapsed: bool,
    pub settlements_collapsed: bool,
}

impl PanelState {
    /// Both panels open.
    pub fn new() -> (state: Self)
        ensures
            !state.match_collapsed,
            !state.settlements_collapsed,
    {
        PanelState { match_collapsed: false, settlements_collapsed: false }
    }

    /// Whether a panel is collapsed.
    pub fn collapsed(&self, kind: PanelKind) -> (collapsed: bool)
        ensures
            collapsed == match kind {
                PanelKind::Match => self.match_collapsed,
                PanelKind::Settlements => self.settlements_collapsed,
            },
    {
        match kind {
            PanelKind::Match => self.match_collapsed,
            PanelKind::Settlements => self.settlements_collapsed,
        }
    }

    /// Collapses or opens one panel, leaving the other as it is.
    pub fn toggle(&mut self, kind: PanelKind)
        ensures
            kind == PanelKind::Match ==> final(self).match_collapsed == !old(self).match_collapsed
                && final(self).settlements_collapsed == old(self).settlements_collapsed,
            kind == PanelKind::Settlements ==> final(self).settlements_collapsed == !old(
                self,
            ).settlements_collapsed && final(self).match_collapsed == old(self).match_collapsed,
    {
        match kind {
            PanelKind::Match => self.match_collapsed = !self.match_collapsed,
            PanelKind::Settlements => self.settlements_collapsed = !self.settlements_collapsed,
        }
    }
}

/// Toggling a panel twice restores it, and never touches the other panel.
pub proof fn law_toggle_twice_restores(state: PanelState, kind: PanelKind)
    ensures
        ({
            let once = match kind {
                PanelKind::Match => PanelState { match_collapsed: !state.match_collapsed, ..state },
                PanelKind::Settlements => PanelState {
                    settlements_collapsed: !state.settlements_collapsed,
                    ..state
                },
            };
            let twice = match kind {
                PanelKind::Match => PanelState { match_collapsed: !once.match_collapsed, ..once },
                PanelKind::Settlements => PanelState {
                    settlements_collapsed: !once.settlements_collapsed,
                    ..once
                },
            };
            twice == state
        }),
{
}

/// The first entry the history panel lists: the last twelve at most.
pub open spec fn history_start(len: nat) -> nat {
    if len > HISTORY_LIMIT {
        (len - HISTORY_LIMIT) as nat
    } else {
        0
    }
}

/// The listed lines of entries `start` up to `end`, each on a new line and
/// numbered from one.
pub open spec fn history_lines(entries: Seq<String>, start: nat, end: nat) -> Seq<char>
    decreases end - start,
{
    if end <= start {
        Seq::empty()
    } else {
        history_lines(entries, start, (end - 1) as nat) + "\n"@ + decimal(end) + ". "@
            + entries[end - 1]@
    }
}

/// The history panel's text: a heading with how many entries are shown of
/// how many, then the most recent entries, numbered.
pub open spec fn history_text(entries: Seq<String>) -> Seq<char> {
    if entries.len() == 0 {
        "RECENT ACTIONS - 0\nNo actions yet."@
    } else {
        let start = history_start(entries.len());
        "RECENT ACTIONS - showing "@ + decimal((entries.len() - start) as nat) + " of "@
            + decimal(entries.len()) + history_lines(entries, start, entries.len())
    }
}

/// Builds the history panel's text.
pub fn bounded_history(entries: &[String]) -> (text: String)
    requires
        entries@.len() <= u64::MAX,
    ensures
        text@ == history_text(entries@),
{
    let n = entries.len();
    if n == 0 {
        return String::from_str("RECENT ACTIONS - 0\nNo actions yet.");
    }
    let start: usize = if n > HISTORY_LIMIT {
        n - HISTORY_LIMIT
    } else {
        0
    };
    let mut text = String::from_str("RECENT ACTIONS - showing ");
    let shown = decimal_text((n - start) as u64);
    vstd::string::StringExecFns::append(&mut text, shown.as_str());
    vstd::string::StringExecFns::append(&mut text, " of ");
    let total = decimal_text(n as u64);
    vstd::string::StringExecFns::append(&mut text, total.as_str());
    let ghost heading = text@;
    let mut k: usize = start;
    while k < n
        invariant
            start <= k <= n == entries@.len(),
            n <= u64::MAX,
            text@ == heading + history_lines(entries@, start as nat, k as nat),
        decreases n - k,
    {
        vstd::string::StringExecFns::append(&mut text, "\n");
        let number = decimal_text((k + 1) as u64);
        vstd::string::StringExecFns::append(&mut text, number.as_str());
        vstd::string::StringExecFns::append(&mut text, ". ");
        vstd::string::StringExecFns::append(&mut text, entries[k].as_str());
        k = k + 1;
    }
    text
}

/// How a room's state reads in the status line.
pub fn room_state_label(state: ConnectionState) -> (label: &'static str)
    ensures
        label@ == match state {
            ConnectionState::WaitingForOpponent => "waiting for opponent"@,
            ConnectionState::WaitingForReady => "waiting for ready"@,
            ConnectionState::Connected => "both seats connected"@,
            ConnectionState::OpponentDisconnected => "opponent disconnected; clock continues"@,
            ConnectionState::Finished => "finished"@,
        },
{
    match state {
        ConnectionState::WaitingForOpponent => "waiting for opponent",
        ConnectionState::WaitingForReady => "waiting for ready",
        ConnectionState::Connected => "both seats connected",
        ConnectionState::OpponentDisconnected => "opponent disconnected; clock continues",
        ConnectionState::Finished => "finished",
    }
}

/// How the connection's phase reads in the status line.
pub fn connection_phase_label(phase: ConnectionPhase) -> (label: &'static str)
    ensures
        label@ == match phase {
            ConnectionPhase::Connecting => "connecting"@,
            ConnectionPhase::Connected => "connected"@,
            ConnectionPhase::Retrying { .. } => "retrying"@,
            ConnectionPhase::Offline => "offline"@,
            ConnectionPhase::Rejected => "rejected"@,
            ConnectionPhase::Terminal => "terminal"@,
        },
{
    match phase {
        ConnectionPhase::Connecting => "connecting",
        ConnectionPhase::Connected => "connected",
        ConnectionPhase::Retrying { .. } => "retrying",
        ConnectionPhase::Offline => "offline",
        ConnectionPhase::Rejected => "rejected",
        ConnectionPhase::Terminal => "terminal",
    }
}

/// Whether the estimated online clock runs: the match is not over and both
/// seats are in the room, or the opponent has dropped (the clock goes on).
pub fn clock_running(terminal: bool, room_state: ConnectionState) -> (running: bool)
    ensures
        running == (!terminal && (room_state == ConnectionState::Connected || room_state
            == ConnectionState::OpponentDisconnected)),
{
    !terminal && (room_state == ConnectionState::Connected || room_state
        == ConnectionState::OpponentDisconnected)
}

/// Whether a remaining time is shown as low.
pub fn clock_is_low(millis: u64) -> (low: bool)
    ensures
        low == (millis <= LOW_CLOCK_MILLIS),
{
    millis <= LOW_CLOCK_MILLIS
}

} // verus!
