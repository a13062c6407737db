//! Supervision of the computer opponent's background search: one job at a
//! time, tied to the position it was started for; stale or cancelled results
//! are dropped; a failure waits for the player to retry or forfeit.
use vstd::prelude::*;

use crate::rooms::Player;
use crate::text::same_text;

verus! {

/// What a search result was computed for: the cancellation epoch, the local
/// session, the scenario, the revision, the side to move and the position.
#[derive(Debug)]
pub struct SnapshotKey {
    pub epoch: u64,
    pub session_id: u64,
    pub scenario_id: String,
    pub revision: u64,
    pub active_player: Player,
    pub position_key: String,
}

/// Whether two keys name the same position of the same session.
pub open spec fn same_key(a: SnapshotKey, b: SnapshotKey) -> bool {
    &&& a.epoch == b.epoch
    &&& a.session_id == b.session_id
    &&& a.scenario_id@ == b.scenario_id@
    &&& a.revision == b.revision
    &&& a.active_player == b.active_player
    &&& a.position_key@ == b.position_key@
}

/// Whether two optional keys agree: both absent, or the same key.
pub open spec fn same_optional_key(a: Option<SnapshotKey>, b: Option<SnapshotKey>) -> bool {
    match (a, b) {
        (None, None) => true,
        (Some(x), Some(y)) => same_key(x, y),
        _ => false,
    }
}

/// Compares two keys.
pub fn keys_match(a: &SnapshotKey, b: &SnapshotKey) -> (same: bool)
    ensures
        same == same_key(*a, *b),
{
    a.epoch == b.epoch && a.session_id == b.session_id && a.revision == b.revision
        && a.active_player == b.active_player && same_text(a.scenario_id.as_str(), b.scenario_id.as_str())
        && same_text(a.position_key.as_str(), b.position_key.as_str())
}

fn optional_keys_match(a: &Option<SnapshotKey>, b: &Option<SnapshotKey>) -> (same: bool)
    ensures
        same == same_optional_key(*a, *b),
{
    match (a, b) {
        (None, None) => true,
        (Some(x), Some(y)) => keys_match(x, y),
        _ => false,
    }
}

fn copy_key(k: &SnapshotKey) -> (copy: SnapshotKey)
    ensures
        copy == *k,
{
    SnapshotKey {
        epoch: k.epoch,
        session_id: k.session_id,
        scenario_id: k.scenario_id.clone(),
        revision: k.revision,
        active_player: k.active_player,
        position_key: k.position_key.clone(),
    }
}

/// A search under way.
#[derive(Debug)]
pub struct ActiveJob {
    pub id: u64,
    pub key: SnapshotKey,
    pub cancelled: bool,
}

/// What the worker channel held this frame.
#[derive(Debug)]
pub enum WorkerMessage {
    Nothing,
    Finished { job_id: u64, key: SnapshotKey },
    Disconnected,
}

/// What the client must do after a frame of supervision.
#[derive(Debug, Clone, Copy, PartialEq, Eq, Structural)]
pub struct AiFrame {
    /// Signal the running search to stop.
    pub cancel_active: bool,
    /// Wait for the finished worker thread.
    pub reap: bool,
    /// Apply the finished search's result.
    pub apply_result: bool,
    /// Report that the worker is gone.
    pub disconnected: bool,
    /// Resign for the computer's side.
    pub forfeit: bool,
    /// Start a search as this job.
    pub spawn_job: Option<u64>,
}

/// The supervisor's state.
#[derive(Debug)]
pub struct AiSupervisor {
    pub active: Option<ActiveJob>,
    pub next_job_id: u64,
    pub failed_key: Option<SnapshotKey>,
}

/// Whether a finished search is the running, uncancelled job for its key.
pub open spec fn result_matches(active: Option<ActiveJob>, job_id: u64, key: SnapshotKey) -> bool {
    active matches Some(job) && job.id == job_id && same_key(job.key, key) && !job.cancelled
}

impl AiSupervisor {
    /// No job yet; the first one is number one.
    pub fn new() -> (supervisor: Self)
        ensures
            supervisor.active is None,
            supervisor.next_job_id == 1,
            supervisor.failed_key is None,
    {
        AiSupervisor { active: None, next_job_id: 1, failed_key: None }
    }

    /// Whether a finished search is the running, uncancelled job for its key.
    pub fn result_matches_job(&self, job_id: u64, key: &SnapshotKey) -> (matches: bool)
        ensures
            matches == result_matches(self.active, job_id, *key),
    {
        match &self.active {
            Some(job) => job.id == job_id && keys_match(&job.key, key) && !job.cancelled,
            None => false,
        }
    }

    /// Records that the search for `key` failed: it waits for retry or forfeit.
    pub fn record_failure(&mut self, key: SnapshotKey)
        ensures
            final(self).failed_key == Some(key),
            final(self).active == old(self).active,
            final(self).next_job_id == old(self).next_job_id,
    {
        self.failed_key = Some(key);
    }

    /// One frame of supervision at the position `current` (none when it has
    /// no key), where the computer is `eligible` to move. A running job for
    /// another position, or when the computer may not move, is cancelled. A
    /// finished job ends the running one and its result is applied only when
    /// it matches the running, uncancelled job and the current position. A
    /// lost worker fails the current position. The retry key clears the
    /// failure of the current position; the forfeit key resigns it when the
    /// resignation is accepted. Otherwise a new job starts when the computer
    /// may move, none runs, and the current position has not failed.
    pub fn frame(
        &mut self,
        current: Option<SnapshotKey>,
        eligible: bool,
        message: WorkerMessage,
        retry_key: bool,
        forfeit_key: bool,
        resignation_accepted: bool,
    ) -> (frame: AiFrame)
        ensures
            frame.cancel_active == (old(self).active matches Some(job) && (!eligible
                || !same_optional_key(current, Some(job.key)))) || message is Disconnected,
            frame.reap == !(message is Nothing),
            frame.disconnected == message is Disconnected,
            frame.apply_result == (match message {
                WorkerMessage::Finished { job_id, key } => result_matches(
                    old(self).active,
                    job_id,
                    key,
                ) && !(!eligible || !same_optional_key(current, Some(old(self).active->0.key)))
                    && eligible && same_optional_key(current, Some(key)),
                _ => false,
            }),
            frame.spawn_job is Some ==> eligible && current is Some && frame.spawn_job
                == Some(old(self).next_job_id) && final(self).next_job_id == (if old(self).next_job_id == u64::MAX {
                u64::MAX
            } else {
                (old(self).next_job_id + 1) as u64
            }) && (final(self).active matches Some(job) && job.id == old(self).next_job_id
                && same_optional_key(current, Some(job.key)) && !job.cancelled),
            frame.spawn_job is None ==> final(self).next_job_id == old(self).next_job_id,
            frame.forfeit ==> forfeit_key && resignation_accepted && frame.spawn_job is None
                && final(self).failed_key is None,
    {
        let mut frame = AiFrame {
            cancel_active: false,
            reap: false,
            apply_result: false,
            disconnected: false,
            forfeit: false,
            spawn_job: None,
        };
        let stale = match &self.active {
            Some(job) => !eligible || !match &current {
                Some(c) => keys_match(c, &job.key),
                None => false,
            },
            None => false,
        };
        if stale {
            frame.cancel_active = true;
            if let Some(job) = &mut self.active {
                job.cancelled = true;
            }
        }
        match message {
            WorkerMessage::Nothing => {},
            WorkerMessage::Finished { job_id, key } => {
                let matching = self.result_matches_job(job_id, &key);
                frame.reap = true;
                self.active = None;
                let current_same = match &current {
                    Some(c) => keys_match(c, &key),
                    None => false,
                };
                frame.apply_result = matching && eligible && current_same;
            },
            WorkerMessage::Disconnected => {
                frame.cancel_active = true;
                frame.reap = true;
                frame.disconnected = true;
                self.active = None;
                if let Some(c) = &current {
                    self.failed_key = Some(copy_key(c));
                }
            },
        }
        if retry_key && optional_keys_match(&self.failed_key, &current) {
            self.failed_key = None;
        }
        if forfeit_key && optional_keys_match(&self.failed_key, &current) && resignation_accepted {
            self.failed_key = None;
            frame.forfeit = true;
            return frame;
        }
        if eligible && self.active.is_none() && !optional_keys_match(&self.failed_key, &current) {
            if let Some(c) = current {
                let id = self.next_job_id;
                self.next_job_id = self.next_job_id.saturating_add(1);
                self.active = Some(ActiveJob { id, key: c, cancelled: false });
                frame.spawn_job = Some(id);
            }
        }
        frame
    }
}

/// The status shown while the computer thinks.
pub open spec fn thinking_text(guided: bool, search: Option<(Seq<char>, u32, u64)>) -> Seq<char> {
    if guided {
        "Guided opponent thinking with a bounded registered policy. P pauses and cancels."@
    } else {
        match search {
            None => "AI thinking. P pauses and cancels."@,
            Some((label, depth, nodes)) => label + " thinking: depth <= "@ + crate::text::decimal(
                depth as nat,
            ) + ", nodes <= "@ + crate::text::decimal(nodes as nat) + ". P pauses and cancels."@,
        }
    }
}

/// The status shown while the computer thinks: for a search, its label and
/// bounds.
pub fn thinking_message(guided: bool, search: Option<(&str, u32, u64)>) -> (text: String)
    ensures
        text@ == thinking_text(
            guided,
            match search {
                Some((l, d, n)) => Some((l@, d, n)),
                None => None,
            },
        ),
{
    if guided {
        return String::from_str(
            "Guided opponent thinking with a bounded registered policy. P pauses and cancels.",
        );
    }
    match search {
        None => String::from_str("AI thinking. P pauses and cancels."),
        Some((label, depth, nodes)) => {
            let mut text = label.to_owned();
            vstd::string::StringExecFns::append(&mut text, " thinking: depth <= ");
            let d = crate::text::decimal_text(depth as u64);
            vstd::string::StringExecFns::append(&mut text, d.as_str());
            vstd::string::StringExecFns::append(&mut text, ", nodes <= ");
            let n = crate::text::decimal_text(nodes);
            vstd::string::StringExecFns::append(&mut text, n.as_str());
            vstd::string::StringExecFns::append(&mut text, ". P pauses and cancels.");
            text
        },
    }
}

} // verus!
