//! Restart recovery: which persisted matches are restored and which are
//! quarantined, and the wall-clock readings of the repository.
use vstd::prelude::*;

use crate::authority::{epoch_millis, epoch_offset_millis, unix_millis};
use crate::rooms::{Player, ScenarioCatalog};

verus! {

/// Recovery failures that are not errors of SQLite or JSON.
#[derive(Debug, Clone, Copy, PartialEq, Eq, Structural)]
pub enum RecoveryError {
    MissingMatch,
    InvalidWallClock,
    InvalidState,
}

/// A persisted match that could not be restored, with the reason it was set
/// aside.
#[derive(Debug, Clone, PartialEq, Eq)]
pub struct QuarantinedMatch {
    pub match_id: String,
    pub reason_code: &'static str,
}

/// How a side is written in the action journal.
pub fn player_label(player: Player) -> (label: &'static str)
    ensures
        label@ == match player {
            Player::North => "north"@,
            Player::South => "south"@,
        },
{
    match player {
        Player::North => "north",
        Player::South => "south",
    }
}

/// What was found when one persisted match row was read back, in the order
/// the checks are made.
pub struct RestoreObservations {
    /// The stored match identifier parses as a UUID.
    pub match_id_parses: bool,
    /// The scenario the room plays.
    pub scenario_id: String,
    /// The scenario hash stored with the room.
    pub stored_scenario_hash: String,
    /// The snapshot JSON decodes.
    pub snapshot_decodes: bool,
    /// The decoded snapshot names this match and the stored revision.
    pub snapshot_matches_row: bool,
    /// The canonical hash of the decoded state, when it can be computed.
    pub computed_state_hash: Option<String>,
    /// The state hash stored with the match.
    pub stored_state_hash: String,
    /// Replaying the journal reproduces the decoded state.
    pub replay_matches: bool,
}

/// The reason code of the first failed check, or none when the match can be
/// restored.
pub open spec fn restore_verdict_spec(
    o: RestoreObservations,
    installed: Map<Seq<char>, Seq<char>>,
) -> Option<Seq<char>> {
    if !o.match_id_parses {
        Some("invalid_match_id"@)
    } else if !installed.contains_key(o.scenario_id@) {
        Some("scenario_not_installed"@)
    } else if installed[o.scenario_id@] != o.stored_scenario_hash@ {
        Some("scenario_hash_mismatch"@)
    } else if !o.snapshot_decodes {
        Some("snapshot_json_invalid"@)
    } else if !o.snapshot_matches_row {
        Some("snapshot_revision_mismatch"@)
    } else if o.computed_state_hash is None {
        Some("snapshot_hash_failed"@)
    } else if o.computed_state_hash->0@ != o.stored_state_hash@ {
        Some("snapshot_hash_mismatch"@)
    } else if !o.replay_matches {
        Some("journal_replay_mismatch"@)
    } else {
        None
    }
}

/// Decides whether a persisted match can be restored against the installed
/// scenarios, as `restore_verdict_spec` says.
pub fn restore_verdict(o: &RestoreObservations, catalog: &ScenarioCatalog) -> (verdict: Result<(), &'static str>)
    requires
        catalog.well_formed(),
    ensures
        match restore_verdict_spec(*o, catalog.view()) {
            None => verdict is Ok,
            Some(reason) => verdict matches Err(r) && r@ == reason,
        },
{
    if !o.match_id_parses {
        return Err("invalid_match_id");
    }
    let installed = match catalog.get(&o.scenario_id) {
        None => {
            return Err("scenario_not_installed");
        },
        Some(installed) => installed,
    };
    if !installed.hash.eq(&o.stored_scenario_hash) {
        return Err("scenario_hash_mismatch");
    }
    if !o.snapshot_decodes {
        return Err("snapshot_json_invalid");
    }
    if !o.snapshot_matches_row {
        return Err("snapshot_revision_mismatch");
    }
    match &o.computed_state_hash {
        None => {
            return Err("snapshot_hash_failed");
        },
        Some(hash) => {
            if !hash.eq(&o.stored_state_hash) {
                return Err("snapshot_hash_mismatch");
            }
        },
    }
    if !o.replay_matches {
        return Err("journal_replay_mismatch");
    }
    Ok(())
}

/// The current wall-clock time (`SystemTime::now`). Nothing is claimed of it.
#[verifier::external_body]
fn system_now() -> (now: std::time::SystemTime) {
    std::time::SystemTime::now()
}

/// A wall-clock reading as the repository keeps it: its milliseconds since
/// the Unix epoch, or an invalid wall clock when it precedes the epoch or
/// exceeds `u64` milliseconds.
pub open spec fn reading_millis(time: std::time::SystemTime) -> Result<u64, RecoveryError> {
    match epoch_millis(epoch_offset_millis(time)) {
        Ok(ms) => Ok(ms),
        Err(_) => Err(RecoveryError::InvalidWallClock),
    }
}

/// The current wall-clock time in milliseconds since the Unix epoch; a clock
/// before the epoch or beyond `u64` milliseconds is an invalid wall clock.
/// Which time is read is the machine's; the result is that reading's.
pub fn now_unix_millis() -> (result: Result<u64, RecoveryError>)
    ensures
        exists|time: std::time::SystemTime| result == reading_millis(time),
{
    let now = system_now();
    let result = match unix_millis(now) {
        Ok(ms) => Ok(ms),
        Err(_) => Err(RecoveryError::InvalidWallClock),
    };
    assert(result == reading_millis(now));
    result
}

} // verus!
