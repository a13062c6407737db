//! The server's clock authority: wall-clock readings, persisted deadlines, and
//! the checks that precede applying a seat's command.
use vstd::prelude::*;
use vstd::string::StringExecFns;

use crate::actors::CommandRejection;
use crate::rooms::Player;

verus! {

#[verifier::external_type_specification]
#[verifier::external_body]
pub struct ExSystemTime(std::time::SystemTime);

/// The clock anchor of a match: when its current turn started, and the wall
/// time at which the active side runs out (none once the match has ended).
#[derive(Debug, Clone, Copy, PartialEq, Eq, Structural)]
pub struct PersistedClockAuthority {
    pub anchor_unix_millis: u64,
    pub deadline_unix_millis: Option<u64>,
}

/// Remaining time of each side and the per-move increment, in milliseconds.
#[derive(Debug, Clone, Copy, PartialEq, Eq, Structural)]
pub struct ClockState {
    pub north_millis: u64,
    pub south_millis: u64,
    pub increment_millis: u64,
}

/// The remaining time of `player`.
pub fn remaining_for(clocks: ClockState, player: Player) -> (remaining: u64)
    ensures
        remaining == match player {
            Player::North => clocks.north_millis,
            Player::South => clocks.south_millis,
        },
{
    match player {
        Player::North => clocks.north_millis,
        Player::South => clocks.south_millis,
    }
}

/// `a + b`, or `u64::MAX` when it does not fit.
pub open spec fn saturating_sum(a: u64, b: u64) -> u64 {
    if a + b > u64::MAX {
        u64::MAX
    } else {
        (a + b) as u64
    }
}

/// The clock anchor of a match whose clocks (if any) are `clocks`, with
/// `active` to move and the turn starting at `anchor`: its deadline is when the
/// active side's remaining time runs out, unless the match has ended.
pub fn clock_authority(clocks: Option<ClockState>, active: Player, ended: bool, anchor: u64) -> (authority: Option<
    PersistedClockAuthority,
>)
    ensures
        match clocks {
            None => authority is None,
            Some(c) => authority == Some(
                PersistedClockAuthority {
                    anchor_unix_millis: anchor,
                    deadline_unix_millis: if ended {
                        None
                    } else {
                        Some(
                            saturating_sum(
                                anchor,
                                match active {
                                    Player::North => c.north_millis,
                                    Player::South => c.south_millis,
                                },
                            ),
                        )
                    },
                },
            ),
        },
{
    match clocks {
        None => None,
        Some(c) => {
            let deadline = if ended {
                None
            } else {
                Some(anchor.saturating_add(remaining_for(c, active)))
            };
            Some(PersistedClockAuthority { anchor_unix_millis: anchor, deadline_unix_millis: deadline })
        },
    }
}

/// The time charged to a command received at `received`: what has passed since
/// the clock anchor (none before it, and none for an untimed match).
pub fn elapsed_since_anchor(clock: &Option<PersistedClockAuthority>, received: u64) -> (elapsed: u64)
    ensures
        elapsed == match clock {
            None => 0,
            Some(c) => if received >= c.anchor_unix_millis {
                (received - c.anchor_unix_millis) as u64
            } else {
                0
            },
        },
{
    match clock {
        None => 0,
        Some(c) => received.saturating_sub(c.anchor_unix_millis),
    }
}

/// The checks before a seat's command is applied: the command must be the
/// seat's own, and the match must be connected and unfinished.
pub fn precheck(action_player: Player, seat: Player, connected: bool, ended: bool) -> (result: Result<
    (),
    CommandRejection,
>)
    ensures
        action_player != seat ==> result == Err::<(), CommandRejection>(CommandRejection::WrongSeat),
        action_player == seat && (!connected || ended) ==> result == Err::<(), CommandRejection>(
            CommandRejection::InactivePhase,
        ),
        action_player == seat && connected && !ended ==> result == Ok::<(), CommandRejection>(()),
{
    if action_player != seat {
        return Err(CommandRejection::WrongSeat);
    }
    if !connected || ended {
        return Err(CommandRejection::InactivePhase);
    }
    Ok(())
}

/// Whether an accepted transition is the clock running out: the match was
/// running before and ended on time afterwards. Such a transition is committed
/// but reported to the sender as an expired clock.
pub fn expired_by_transition(ended_before: bool, ended_after_by_timeout: bool) -> (expired: bool)
    ensures
        expired == (!ended_before && ended_after_by_timeout),
{
    !ended_before && ended_after_by_timeout
}

/// The time from the Unix epoch to `time`, none when `time` is earlier.
pub uninterp spec fn epoch_duration(time: std::time::SystemTime) -> Option<std::time::Duration>;

/// The whole milliseconds of a duration.
pub uninterp spec fn whole_millis(duration: std::time::Duration) -> u128;

/// The time from the Unix epoch to `time` (`SystemTime::duration_since` of
/// `UNIX_EPOCH`), none when `time` is earlier. The contract names the result
/// only: it is a function of `time`.
#[verifier::external_body]
fn duration_since_epoch(time: std::time::SystemTime) -> (offset: Option<std::time::Duration>)
    ensures
        offset == epoch_duration(time),
{
    time.duration_since(std::time::UNIX_EPOCH).ok()
}

/// The whole milliseconds of a duration (`Duration::as_millis`). The contract
/// names the result only: it is a function of the duration.
#[verifier::external_body]
fn duration_millis(duration: &std::time::Duration) -> (millis: u128)
    ensures
        millis == whole_millis(*duration),
{
    duration.as_millis()
}

/// The whole milliseconds from the Unix epoch to `time`, none when `time` is
/// earlier than the epoch.
pub open spec fn epoch_offset_millis(time: std::time::SystemTime) -> Option<u128> {
    match epoch_duration(time) {
        Some(d) => Some(whole_millis(d)),
        None => None,
    }
}

/// How an offset from the Unix epoch reads as `u64` milliseconds, or why it
/// cannot.
pub open spec fn epoch_millis(offset: Option<u128>) -> Result<u64, Seq<char>> {
    match offset {
        None => Err("server wall clock precedes Unix epoch"@),
        Some(ms) => if ms <= u64::MAX {
            Ok(ms as u64)
        } else {
            Err("server wall clock exceeds u64 milliseconds"@)
        },
    }
}

/// Converts an offset from the Unix epoch (`None` when the reading precedes the
/// epoch) into milliseconds that fit a `u64`.
pub fn millis_from_epoch_offset(offset: Option<u128>) -> (result: Result<u64, String>)
    ensures
        match offset {
            None => result matches Err(m) && m@ == "server wall clock precedes Unix epoch"@,
            Some(ms) => if ms <= u64::MAX {
                result == Ok::<u64, String>(ms as u64)
            } else {
                result matches Err(m) && m@ == "server wall clock exceeds u64 milliseconds"@
            },
        },
{
    match offset {
        None => Err(String::from_str("server wall clock precedes Unix epoch")),
        Some(ms) => if ms <= u64::MAX as u128 {
            Ok(ms as u64)
        } else {
            Err(String::from_str("server wall clock exceeds u64 milliseconds"))
        },
    }
}

/// A wall-clock reading in milliseconds since the Unix epoch, as
/// `epoch_millis` reads its offset.
pub fn unix_millis(time: std::time::SystemTime) -> (result: Result<u64, String>)
    ensures
        match epoch_millis(epoch_offset_millis(time)) {
            Ok(ms) => result == Ok::<u64, String>(ms),
            Err(m) => result matches Err(e) && e@ == m,
        },
{
    let offset = match duration_since_epoch(time) {
        Some(d) => Some(duration_millis(&d)),
        None => None,
    };
    millis_from_epoch_offset(offset)
}

} // verus!
