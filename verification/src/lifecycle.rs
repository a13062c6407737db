//! The local match lifecycle: setup (scenario, clock, names), the flow between
//! playing, pausing, resigning and the outcome, and the carry of elapsed time
//! below one millisecond from frame to frame.
use vstd::prelude::*;
use vstd::arithmetic::div_mod::{lemma_fundamental_div_mod_converse, lemma_fundamental_div_mod};

use crate::rooms::{ClockSettings, Player};
use crate::text::{decimal, decimal_text, eq_ignore_ascii_case, eq_ignore_case, trim, trim_text};

verus! {

/// The fewest minutes a clocked side may start with.
pub const MIN_BASE_MINUTES: u32 = 1;

/// The most minutes a clocked side may start with.
pub const MAX_BASE_MINUTES: u32 = 180;

/// The most seconds a clock may add per move.
pub const MAX_INCREMENT_SECONDS: u32 = 60;

/// The longest player name, in characters.
pub const MAX_NAME_CHARS: usize = 24;

/// Nanoseconds in a millisecond.
pub const NANOS_PER_MILLI: u64 = 1_000_000;

/// Where the client is: setting up, in an online lobby or match, playing,
/// paused, confirming a resignation, or looking at an outcome.
#[derive(Debug, Clone, Copy, PartialEq, Eq, Structural)]
pub enum ClientFlow {
    Setup,
    OnlineLobby,
    OnlinePlaying,
    Playing,
    Paused,
    ConfirmResign,
    Outcome,
}

/// The keys pressed this frame that the lifecycle reads (the draw and resign
/// keys count only without a modifier).
#[derive(Debug, Clone, Copy, PartialEq, Eq, Structural)]
pub struct LifecycleKeys {
    pub previous_scenario: bool,
    pub next_scenario: bool,
    pub toggle_clock: bool,
    pub base_down: bool,
    pub base_up: bool,
    pub increment_down: bool,
    pub increment_up: bool,
    pub swap_names: bool,
    pub start_local: bool,
    pub pause: bool,
    pub resign: bool,
    pub offer_draw: bool,
    pub accept_draw: bool,
    pub decline_draw: bool,
    pub escape: bool,
    pub enter: bool,
    pub rematch: bool,
}

/// What the match must do after a frame of lifecycle input.
#[derive(Debug, Clone, Copy, PartialEq, Eq, Structural)]
pub enum LifecycleCommand {
    Nothing,
    OfferDraw,
    RespondToDraw(bool),
    Resign,
    Rematch,
}

/// The settings of the next local match.
#[derive(Debug)]
pub struct LocalSetup {
    pub selected_scenario: usize,
    pub session_id: u64,
    pub north_name: String,
    pub south_name: String,
    pub error: String,
    pub clock: Option<ClockSettings>,
}

/// Why two player names were refused.
pub open spec fn name_error(north: Seq<char>, south: Seq<char>) -> Option<Seq<char>> {
    let n = trim(north);
    let s = trim(south);
    if n.len() == 0 || s.len() == 0 {
        Some("Both player names are required."@)
    } else if n.len() > MAX_NAME_CHARS || s.len() > MAX_NAME_CHARS {
        Some("Player names must be 24 characters or fewer."@)
    } else if eq_ignore_ascii_case(n, s) {
        Some("Player names must be distinct."@)
    } else {
        None
    }
}

/// Checks two player names: trimmed, both present, at most 24 characters,
/// and distinct ignoring ASCII case. Gives the trimmed names.
pub fn validate_names(north: &str, south: &str) -> (result: Result<(String, String), &'static str>)
    ensures
        match name_error(north@, south@) {
            Some(message) => result is Err && result->Err_0@ == message,
            None => result is Ok && result->Ok_0.0@ == trim(north@) && result->Ok_0.1@ == trim(
                south@,
            ),
        },
{
    proof {
        reveal_strlit("Both player names are required.");
        reveal_strlit("Player names must be 24 characters or fewer.");
        reveal_strlit("Player names must be distinct.");
    }
    let north = trim_text(north);
    let south = trim_text(south);
    if north.unicode_len() == 0 || south.unicode_len() == 0 {
        return Err("Both player names are required.");
    }
    if north.unicode_len() > MAX_NAME_CHARS || south.unicode_len() > MAX_NAME_CHARS {
        return Err("Player names must be 24 characters or fewer.");
    }
    if eq_ignore_case(north.as_str(), south.as_str()) {
        return Err("Player names must be distinct.");
    }
    Ok((north, south))
}

/// The clock a new setup starts from when the clock is switched on.
pub open spec fn default_clock() -> ClockSettings {
    ClockSettings { base_minutes: 10, increment_seconds: 0 }
}

/// Whether a clock lies within the documented bounds.
pub open spec fn clock_in_bounds(clock: ClockSettings) -> bool {
    MIN_BASE_MINUTES <= clock.base_minutes <= MAX_BASE_MINUTES && clock.increment_seconds
        <= MAX_INCREMENT_SECONDS
}

/// One frame of clock editing: the toggle switches between untimed and the
/// default clock, then each pressed key moves the base or the increment by
/// one, held within the bounds.
pub open spec fn edited_clock(clock: Option<ClockSettings>, keys: LifecycleKeys) -> Option<
    ClockSettings,
> {
    let toggled = if keys.toggle_clock {
        if clock is None {
            Some(default_clock())
        } else {
            None
        }
    } else {
        clock
    };
    match toggled {
        None => None,
        Some(c) => {
            let base1: int = if keys.base_down {
                if c.base_minutes <= MIN_BASE_MINUTES {
                    MIN_BASE_MINUTES as int
                } else {
                    c.base_minutes - 1
                }
            } else {
                c.base_minutes as int
            };
            let base2: int = if keys.base_up {
                if base1 >= MAX_BASE_MINUTES {
                    MAX_BASE_MINUTES as int
                } else {
                    base1 + 1
                }
            } else {
                base1
            };
            let inc1: int = if keys.increment_down {
                if c.increment_seconds == 0 {
                    0
                } else {
                    c.increment_seconds - 1
                }
            } else {
                c.increment_seconds as int
            };
            let inc2: int = if keys.increment_up {
                if inc1 >= MAX_INCREMENT_SECONDS {
                    MAX_INCREMENT_SECONDS as int
                } else {
                    inc1 + 1
                }
            } else {
                inc1
            };
            Some(ClockSettings { base_minutes: base2 as u32, increment_seconds: inc2 as u32 })
        },
    }
}

/// Applies one frame of clock editing.
pub fn update_clock_setup(clock: Option<ClockSettings>, keys: &LifecycleKeys) -> (edited: Option<
    ClockSettings,
>)
    ensures
        edited == edited_clock(clock, *keys),
{
    let toggled = if keys.toggle_clock {
        if clock.is_none() {
            Some(ClockSettings { base_minutes: 10, increment_seconds: 0 })
        } else {
            None
        }
    } else {
        clock
    };
    match toggled {
        None => None,
        Some(c) => {
            let mut base = c.base_minutes;
            let mut increment = c.increment_seconds;
            if keys.base_down {
                base = if base <= MIN_BASE_MINUTES {
                    MIN_BASE_MINUTES
                } else {
                    base - 1
                };
            }
            if keys.base_up {
                base = if base >= MAX_BASE_MINUTES {
                    MAX_BASE_MINUTES
                } else {
                    base + 1
                };
            }
            if keys.increment_down {
                increment = if increment == 0 {
                    0
                } else {
                    increment - 1
                };
            }
            if keys.increment_up {
                increment = if increment >= MAX_INCREMENT_SECONDS {
                    MAX_INCREMENT_SECONDS
                } else {
                    increment + 1
                };
            }
            Some(ClockSettings { base_minutes: base, increment_seconds: increment })
        },
    }
}

/// A clock within the bounds stays within them whatever keys are pressed.
pub proof fn law_clock_edits_stay_in_bounds(clock: Option<ClockSettings>, keys: LifecycleKeys)
    requires
        clock matches Some(c) ==> clock_in_bounds(c),
    ensures
        edited_clock(clock, keys) matches Some(c) ==> clock_in_bounds(c),
{
}

/// The scenario shown after the previous / next keys, cycling through `count`.
pub open spec fn cycled_scenario(selected: int, count: int, keys: LifecycleKeys) -> int {
    let after_previous = if keys.previous_scenario {
        (selected + count - 1) % count
    } else {
        selected
    };
    if keys.next_scenario {
        (after_previous + 1) % count
    } else {
        after_previous
    }
}

/// The session identifier after starting a match: one more, held at the top.
pub open spec fn next_session(session_id: u64) -> u64 {
    if session_id == u64::MAX {
        u64::MAX
    } else {
        (session_id + 1) as u64
    }
}

impl LocalSetup {
    /// The default setup: the second scenario, the default names, no error,
    /// untimed.
    pub fn new() -> (setup: Self)
        ensures
            setup.selected_scenario == 1,
            setup.session_id == 0,
            setup.north_name@ == "North Player"@,
            setup.south_name@ == "South Player"@,
            setup.error@.len() == 0,
            setup.clock is None,
    {
        LocalSetup {
            selected_scenario: 1,
            session_id: 0,
            north_name: String::from_str("North Player"),
            south_name: String::from_str("South Player"),
            error: String::new(),
            clock: None,
        }
    }

    /// Starts a fresh session of the same settings (a new match or a rematch).
    pub fn begin_session(&mut self)
        ensures
            final(self).session_id == next_session(old(self).session_id),
            final(self).selected_scenario == old(self).selected_scenario,
            final(self).north_name@ == old(self).north_name@,
            final(self).south_name@ == old(self).south_name@,
            final(self).error@ == old(self).error@,
            final(self).clock == old(self).clock,
    {
        self.session_id = self.session_id.saturating_add(1);
    }

    /// One frame of setup input: cycles the scenario among `scenario_count`,
    /// edits the clock, and on the start key checks the names typed into the
    /// two inputs (swapped first when the swap key was pressed too). Valid
    /// names are kept, the error is cleared and a session begins (`true`);
    /// otherwise the error says why (`false`).
    pub fn handle_setup_keys(
        &mut self,
        keys: &LifecycleKeys,
        scenario_count: usize,
        north_input: &str,
        south_input: &str,
    ) -> (started: bool)
        requires
            0 < scenario_count,
            old(self).selected_scenario < scenario_count,
        ensures
            final(self).selected_scenario == cycled_scenario(
                old(self).selected_scenario as int,
                scenario_count as int,
                *keys,
            ),
            final(self).selected_scenario < scenario_count,
            final(self).clock == edited_clock(old(self).clock, *keys),
            ({
                let north = if keys.swap_names {
                    south_input@
                } else {
                    north_input@
                };
                let south = if keys.swap_names {
                    north_input@
                } else {
                    south_input@
                };
                &&& started == (keys.start_local && name_error(north, south) is None)
                &&& started ==> final(self).north_name@ == trim(north) && final(self).south_name@
                    == trim(south) && final(self).error@.len() == 0 && final(self).session_id
                    == next_session(old(self).session_id)
                &&& !started ==> final(self).north_name@ == old(self).north_name@
                    && final(self).south_name@ == old(self).south_name@ && final(self).session_id
                    == old(self).session_id
                &&& !started && keys.start_local ==> final(self).error@ == name_error(
                    north,
                    south,
                )->0
                &&& !keys.start_local ==> final(self).error@ == old(self).error@
            }),
    {
        if keys.previous_scenario {
            let selected = self.selected_scenario;
            self.selected_scenario = if selected == 0 {
                scenario_count - 1
            } else {
                selected - 1
            };
            proof {
                let c = scenario_count as int;
                let s0 = selected as int;
                if s0 == 0 {
                    vstd::arithmetic::div_mod::lemma_small_mod((c - 1) as nat, c as nat);
                } else {
                    vstd::arithmetic::div_mod::lemma_mod_add_multiples_vanish(s0 - 1, c);
                    vstd::arithmetic::div_mod::lemma_small_mod((s0 - 1) as nat, c as nat);
                }
            }
        }
        if keys.next_scenario {
            self.selected_scenario = (self.selected_scenario + 1) % scenario_count;
        }
        self.clock = update_clock_setup(self.clock, keys);
        if !keys.start_local {
            return false;
        }
        let (north, south) = if keys.swap_names {
            (south_input, north_input)
        } else {
            (north_input, south_input)
        };
        match validate_names(north, south) {
            Ok((north, south)) => {
                self.north_name = north;
                self.south_name = south;
                self.error = String::new();
                self.begin_session();
                true
            },
            Err(message) => {
                self.error = String::from_str(message);
                false
            },
        }
    }
}

/// The flow and match command after one frame of input outside setup.
pub open spec fn flow_step(
    flow: ClientFlow,
    keys: LifecycleKeys,
    match_over: bool,
    draw_offered: bool,
) -> (ClientFlow, LifecycleCommand) {
    match flow {
        ClientFlow::Playing => if match_over {
            (ClientFlow::Outcome, LifecycleCommand::Nothing)
        } else if keys.pause {
            (ClientFlow::Paused, LifecycleCommand::Nothing)
        } else if keys.resign {
            (ClientFlow::ConfirmResign, LifecycleCommand::Nothing)
        } else if keys.offer_draw {
            (ClientFlow::Playing, LifecycleCommand::OfferDraw)
        } else if keys.accept_draw && draw_offered {
            (ClientFlow::Playing, LifecycleCommand::RespondToDraw(true))
        } else if keys.decline_draw && draw_offered {
            (ClientFlow::Playing, LifecycleCommand::RespondToDraw(false))
        } else {
            (ClientFlow::Playing, LifecycleCommand::Nothing)
        },
        ClientFlow::Paused => if keys.pause || keys.escape {
            (ClientFlow::Playing, LifecycleCommand::Nothing)
        } else {
            (ClientFlow::Paused, LifecycleCommand::Nothing)
        },
        ClientFlow::ConfirmResign => if keys.enter {
            (ClientFlow::Outcome, LifecycleCommand::Resign)
        } else if keys.escape {
            (ClientFlow::Playing, LifecycleCommand::Nothing)
        } else {
            (ClientFlow::ConfirmResign, LifecycleCommand::Nothing)
        },
        ClientFlow::Outcome => if keys.rematch {
            (ClientFlow::Playing, LifecycleCommand::Rematch)
        } else {
            (ClientFlow::Outcome, LifecycleCommand::Nothing)
        },
        _ => (flow, LifecycleCommand::Nothing),
    }
}

/// Decides one frame of input while a local match is on (setup input is
/// handled by `LocalSetup::handle_setup_keys`; the online flows are left to
/// the online screens).
pub fn next_flow(flow: ClientFlow, keys: &LifecycleKeys, match_over: bool, draw_offered: bool) -> (step: (
    ClientFlow,
    LifecycleCommand,
))
    ensures
        step == flow_step(flow, *keys, match_over, draw_offered),
{
    match flow {
        ClientFlow::Playing => {
            if match_over {
                (ClientFlow::Outcome, LifecycleCommand::Nothing)
            } else if keys.pause {
                (ClientFlow::Paused, LifecycleCommand::Nothing)
            } else if keys.resign {
                (ClientFlow::ConfirmResign, LifecycleCommand::Nothing)
            } else if keys.offer_draw {
                (ClientFlow::Playing, LifecycleCommand::OfferDraw)
            } else if keys.accept_draw && draw_offered {
                (ClientFlow::Playing, LifecycleCommand::RespondToDraw(true))
            } else if keys.decline_draw && draw_offered {
                (ClientFlow::Playing, LifecycleCommand::RespondToDraw(false))
            } else {
                (ClientFlow::Playing, LifecycleCommand::Nothing)
            }
        },
        ClientFlow::Paused => {
            if keys.pause || keys.escape {
                (ClientFlow::Playing, LifecycleCommand::Nothing)
            } else {
                (ClientFlow::Paused, LifecycleCommand::Nothing)
            }
        },
        ClientFlow::ConfirmResign => {
            if keys.enter {
                (ClientFlow::Outcome, LifecycleCommand::Resign)
            } else if keys.escape {
                (ClientFlow::Playing, LifecycleCommand::Nothing)
            } else {
                (ClientFlow::ConfirmResign, LifecycleCommand::Nothing)
            }
        },
        ClientFlow::Outcome => {
            if keys.rematch {
                (ClientFlow::Playing, LifecycleCommand::Rematch)
            } else {
                (ClientFlow::Outcome, LifecycleCommand::Nothing)
            }
        },
        _ => (flow, LifecycleCommand::Nothing),
    }
}

/// A resignation is only ever sent from the confirmation prompt, and it ends
/// the match; a paused match never sends a command.
pub proof fn law_resign_needs_confirmation(
    flow: ClientFlow,
    keys: LifecycleKeys,
    match_over: bool,
    draw_offered: bool,
)
    ensures
        flow_step(flow, keys, match_over, draw_offered).1 == LifecycleCommand::Resign ==> flow
            == ClientFlow::ConfirmResign && flow_step(flow, keys, match_over, draw_offered).0
            == ClientFlow::Outcome,
        flow == ClientFlow::Paused ==> flow_step(flow, keys, match_over, draw_offered).1
            == LifecycleCommand::Nothing,
{
}

/// At the resignation prompt only Enter resigns, and nothing else anywhere
/// sends a resignation; Escape without Enter returns to play and sends
/// nothing.
pub proof fn law_only_enter_resigns(
    flow: ClientFlow,
    keys: LifecycleKeys,
    match_over: bool,
    draw_offered: bool,
)
    ensures
        flow_step(flow, keys, match_over, draw_offered).1 == LifecycleCommand::Resign <==> (flow
            == ClientFlow::ConfirmResign && keys.enter),
        flow == ClientFlow::ConfirmResign && keys.escape && !keys.enter ==> flow_step(
            flow,
            keys,
            match_over,
            draw_offered,
        ) == (ClientFlow::Playing, LifecycleCommand::Nothing),
{
}

/// Milliseconds and the carry of nanoseconds below a millisecond, after
/// adding `nanos` to a carry of `carry` nanoseconds.
pub open spec fn carried(carry: nat, nanos: nat) -> (nat, nat) {
    (((carry + nanos) / 1_000_000) as nat, ((carry + nanos) % 1_000_000) as nat)
}

/// Adds one frame of `seconds` and `subsec_nanos` to the clock: gives the
/// whole milliseconds it completes and keeps the rest in `carry`.
pub fn accumulate_elapsed(carry: &mut u32, seconds: u64, subsec_nanos: u32) -> (millis: u64)
    requires
        *old(carry) < NANOS_PER_MILLI,
        subsec_nanos < 1_000_000_000,
        seconds * 1_000 + (*old(carry) + subsec_nanos) / 1_000_000 <= u64::MAX,
    ensures
        (millis as nat, *final(carry) as nat) == carried(
            *old(carry) as nat,
            (seconds * 1_000_000_000 + subsec_nanos) as nat,
        ),
{
    let start: u32 = *carry;
    let total: u64 = start as u64 + subsec_nanos as u64;
    let rest: u64 = total % NANOS_PER_MILLI;
    *carry = rest as u32;
    proof {
        assert(total / NANOS_PER_MILLI == (start + subsec_nanos) / 1_000_000);
    }
    let millis = seconds * 1_000 + total / NANOS_PER_MILLI;
    proof {
        let q = total as int / 1_000_000;
        let r = total as int % 1_000_000;
        lemma_fundamental_div_mod(total as int, 1_000_000);
        let all = start as int + seconds * 1_000_000_000 + subsec_nanos;
        assert(all == (seconds * 1000 + q) * 1_000_000 + r) by (nonlinear_arith)
            requires
                total == start as int + subsec_nanos,
                total as int == 1_000_000 * q + r,
                all == start as int + seconds * 1_000_000_000 + subsec_nanos,
        ;
        lemma_fundamental_div_mod_converse(all, 1_000_000, (seconds * 1000 + q) as int, r);
    }
    millis
}

/// Splitting elapsed time across frames changes neither the milliseconds
/// counted nor the carry: two frames count what one frame of their sum does.
pub proof fn law_elapsed_is_partition_independent(carry: nat, first: nat, second: nat)
    requires
        carry < 1_000_000,
    ensures
        carried(carried(carry, first).1, second).0 + carried(carry, first).0 == carried(
            carry,
            first + second,
        ).0,
        carried(carried(carry, first).1, second).1 == carried(carry, first + second).1,
{
    let a = carry + first;
    let q1 = a / 1_000_000;
    let r1 = a % 1_000_000;
    lemma_fundamental_div_mod(a as int, 1_000_000);
    let b = r1 + second;
    let q2 = b / 1_000_000;
    let r2 = b % 1_000_000;
    lemma_fundamental_div_mod(b as int, 1_000_000);
    assert(carry + first + second == (q1 + q2) * 1_000_000 + r2) by (nonlinear_arith)
        requires
            a == 1_000_000 * q1 + r1,
            b == 1_000_000 * q2 + r2,
            a == carry + first,
            b == r1 + second,
    ;
    lemma_fundamental_div_mod_converse((carry + first + second) as int, 1_000_000, (q1 + q2) as int, r2 as int);
}

/// The milliseconds counted over frames of `frames` nanoseconds each, in
/// turn, from a carry of `carry` nanoseconds, and the carry left.
pub open spec fn elapsed_run(carry: nat, frames: Seq<nat>) -> (nat, nat)
    decreases frames.len(),
{
    if frames.len() == 0 {
        (0, carry)
    } else {
        let (first, rest_carry) = carried(carry, frames[0]);
        let (rest, last) = elapsed_run(rest_carry, frames.drop_first());
        (first + rest, last)
    }
}

/// The nanoseconds of all frames together.
pub open spec fn total_nanos(frames: Seq<nat>) -> nat
    decreases frames.len(),
{
    if frames.len() == 0 {
        0
    } else {
        frames[0] + total_nanos(frames.drop_first())
    }
}

/// However elapsed time is split into frames, the milliseconds counted and
/// the carry left are those of one frame of the whole time.
pub proof fn law_elapsed_any_partition(carry: nat, frames: Seq<nat>)
    requires
        carry < 1_000_000,
    ensures
        elapsed_run(carry, frames) == carried(carry, total_nanos(frames)),
    decreases frames.len(),
{
    if frames.len() == 0 {
        lemma_fundamental_div_mod_converse(carry as int, 1_000_000, 0, carry as int);
    } else {
        let next = carried(carry, frames[0]).1;
        lemma_fundamental_div_mod((carry + frames[0]) as int, 1_000_000);
        assert(next < 1_000_000);
        law_elapsed_any_partition(next, frames.drop_first());
        law_elapsed_is_partition_independent(carry, frames[0], total_nanos(frames.drop_first()));
    }
}

/// What the setup screen shows of a scenario.
#[derive(Debug)]
pub struct ScenarioSummary {
    pub name: String,
    pub width: u16,
    pub height: u16,
    pub min_minutes: u16,
    pub max_minutes: u16,
    pub double_step: bool,
    pub en_passant: bool,
    pub castling_routes: u64,
}

/// How a rule switch reads on the setup screen.
pub open spec fn enabled_text(value: bool) -> Seq<char> {
    if value {
        "enabled"@
    } else {
        "disabled"@
    }
}

/// How the clock setting reads on the setup screen.
pub open spec fn setup_clock_text(clock: Option<ClockSettings>) -> Seq<char> {
    match clock {
        None => "untimed (default)"@,
        Some(c) => decimal(c.base_minutes as nat) + " min + "@ + decimal(c.increment_seconds as nat)
            + " sec"@,
    }
}

/// The setup screen's text.
pub open spec fn setup_text(scenario: ScenarioSummary, setup: LocalSetup) -> Seq<char> {
    "CROWNLINES — LOCAL SETUP\nScenario: "@ + scenario.name@ + " · "@ + decimal(scenario.width as nat)
        + "×"@ + decimal(scenario.height as nat) + " · "@ + decimal(scenario.min_minutes as nat)
        + "–"@ + decimal(scenario.max_minutes as nat) + " minutes\nDouble-step: "@ + enabled_text(
        scenario.double_step,
    ) + " · en passant: "@ + enabled_text(scenario.en_passant) + " · castling routes: "@
        + decimal(scenario.castling_routes as nat)
        + "\nTab edits names · X swaps colors · PageUp/PageDown scenario · F2 local start · F3 online\nClock: "@
        + setup_clock_text(setup.clock) + " · C toggle · -/+ base · ,/. increment\nNorth blue/pale: "@
        + setup.north_name@ + " · South orange/dark: "@ + setup.south_name@ + "\n"@ + setup.error@
}

fn push_text(text: &mut String, part: &str)
    ensures
        final(text)@ == old(text)@ + part@,
{
    vstd::string::StringExecFns::append(text, part);
}

fn push_number(text: &mut String, n: u64)
    ensures
        final(text)@ == old(text)@ + decimal(n as nat),
{
    let digits = decimal_text(n);
    vstd::string::StringExecFns::append(text, digits.as_str());
}

impl LocalSetup {
    /// Writes the setup screen's text for the selected scenario.
    pub fn setup_text(&self, scenario: &ScenarioSummary) -> (text: String)
        ensures
            text@ == setup_text(*scenario, *self),
    {
        let mut text = String::from_str("CROWNLINES — LOCAL SETUP\nScenario: ");
        push_text(&mut text, scenario.name.as_str());
        push_text(&mut text, " · ");
        push_number(&mut text, scenario.width as u64);
        push_text(&mut text, "×");
        push_number(&mut text, scenario.height as u64);
        push_text(&mut text, " · ");
        push_number(&mut text, scenario.min_minutes as u64);
        push_text(&mut text, "–");
        push_number(&mut text, scenario.max_minutes as u64);
        push_text(&mut text, " minutes\nDouble-step: ");
        push_text(&mut text, if scenario.double_step { "enabled" } else { "disabled" });
        push_text(&mut text, " · en passant: ");
        push_text(&mut text, if scenario.en_passant { "enabled" } else { "disabled" });
        push_text(&mut text, " · castling routes: ");
        push_number(&mut text, scenario.castling_routes);
        push_text(
            &mut text,
            "\nTab edits names · X swaps colors · PageUp/PageDown scenario · F2 local start · F3 online\nClock: ",
        );
        match self.clock {
            None => push_text(&mut text, "untimed (default)"),
            Some(c) => {
                push_number(&mut text, c.base_minutes as u64);
                push_text(&mut text, " min + ");
                push_number(&mut text, c.increment_seconds as u64);
                push_text(&mut text, " sec");
            },
        }
        push_text(&mut text, " · C toggle · -/+ base · ,/. increment\nNorth blue/pale: ");
        push_text(&mut text, self.north_name.as_str());
        push_text(&mut text, " · South orange/dark: ");
        push_text(&mut text, self.south_name.as_str());
        push_text(&mut text, "\n");
        push_text(&mut text, self.error.as_str());
        text
    }

    /// Writes the outcome screen's text: pending, or who won (by name and
    /// side, or a draw) and why.
    pub fn outcome_text(&self, outcome: Option<(Option<Player>, &str)>) -> (text: String)
        ensures
            text@ == match outcome {
                None => "Match outcome pending"@,
                Some((winner, reason)) => "MATCH ENDED\n"@ + (match winner {
                    None => "Draw"@,
                    Some(Player::North) => self.north_name@ + " (North)"@,
                    Some(Player::South) => self.south_name@ + " (South)"@,
                }) + "\nReason: "@ + reason@ + "\nR rematch · settings preserved"@,
            },
    {
        match outcome {
            None => String::from_str("Match outcome pending"),
            Some((winner, reason)) => {
                let mut text = String::from_str("MATCH ENDED\n");
                match winner {
                    None => push_text(&mut text, "Draw"),
                    Some(Player::North) => {
                        push_text(&mut text, self.north_name.as_str());
                        push_text(&mut text, " (North)");
                    },
                    Some(Player::South) => {
                        push_text(&mut text, self.south_name.as_str());
                        push_text(&mut text, " (South)");
                    },
                }
                push_text(&mut text, "\nReason: ");
                push_text(&mut text, reason);
                push_text(&mut text, "\nR rematch · settings preserved");
                text
            },
        }
    }
}

/// Which lifecycle screens are shown in a flow: setup while setting up, the
/// pause screen while paused or confirming a resignation, the outcome once
/// the match ends.
pub fn visible_screens(flow: ClientFlow) -> (shown: (bool, bool, bool))
    ensures
        shown == (flow == ClientFlow::Setup, flow == ClientFlow::Paused || flow
            == ClientFlow::ConfirmResign, flow == ClientFlow::Outcome),
{
    (flow == ClientFlow::Setup, flow == ClientFlow::Paused || flow == ClientFlow::ConfirmResign, flow
        == ClientFlow::Outcome)
}

/// The pause screen's text: the resignation prompt naming the side that
/// would lose, or the pause notice.
pub fn pause_text(flow: ClientFlow, active: Player) -> (text: &'static str)
    ensures
        text@ == if flow == ClientFlow::ConfirmResign {
            match active {
                Player::North => "CONFIRM RESIGNATION\nNorth will lose. Enter confirms · Esc cancels"@,
                Player::South => "CONFIRM RESIGNATION\nSouth will lose. Enter confirms · Esc cancels"@,
            }
        } else {
            "PAUSED · SETTINGS\nP/Esc resume · F1 rules · I panels\nGameplay input is paused."@
        },
{
    if flow == ClientFlow::ConfirmResign {
        match active {
            Player::North => "CONFIRM RESIGNATION\nNorth will lose. Enter confirms · Esc cancels",
            Player::South => "CONFIRM RESIGNATION\nSouth will lose. Enter confirms · Esc cancels",
        }
    } else {
        "PAUSED · SETTINGS\nP/Esc resume · F1 rules · I panels\nGameplay input is paused."
    }
}

} // verus!
