//! The rules help: which section is open, and the help text written from the
//! active scenario's switches and thresholds.
use vstd::prelude::*;

use crate::text::{decimal, decimal_text};

verus! {

/// A section of the rules help.
#[derive(Debug, Clone, Copy, PartialEq, Eq, Structural)]
pub enum HelpSection {
    Overview,
    Movement,
    Realm,
    Match,
    Legend,
}

/// Whether the help is open, and on which section.
#[derive(Debug, Clone, Copy, PartialEq, Eq, Structural)]
pub struct HelpState {
    pub open: bool,
    pub section: HelpSection,
}

impl HelpState {
    /// Closed, on the overview.
    pub fn new() -> (state: Self)
        ensures
            !state.open,
            state.section == HelpSection::Overview,
    {
        HelpState { open: false, section: HelpSection::Overview }
    }

    /// One frame of help input: the help key toggles the help on its
    /// overview, Escape closes it, a pressed link opens its section, and the
    /// close button closes it.
    pub fn handle_controls(&mut self, help_key: bool, escape: bool, link: Option<HelpSection>, close: bool)
        ensures
            ({
                let toggled = if help_key {
                    HelpState { open: !old(self).open, section: HelpSection::Overview }
                } else {
                    *old(self)
                };
                let escaped = if escape && toggled.open {
                    HelpState { open: false, ..toggled }
                } else {
                    toggled
                };
                let linked = match link {
                    Some(section) => HelpState { open: true, section },
                    None => escaped,
                };
                *final(self) == if close {
                    HelpState { open: false, ..linked }
                } else {
                    linked
                }
            }),
    {
        if help_key {
            self.open = !self.open;
            self.section = HelpSection::Overview;
        }
        if escape && self.open {
            self.open = false;
        }
        if let Some(section) = link {
            self.open = true;
            self.section = section;
        }
        if close {
            self.open = false;
        }
    }
}

/// What the help says of the active scenario.
#[derive(Debug, Clone, Copy, PartialEq, Eq, Structural)]
pub struct HelpRules {
    pub allow_pawn_double_step: bool,
    pub allow_en_passant: bool,
    pub castling_routes: u64,
    pub establishment_cycles: u32,
    pub development_resets_when_interrupted: bool,
    pub production_cycles: u32,
    pub promotion_cycles: u32,
}

/// How a rule switch reads.
pub open spec fn switch_text(value: bool) -> Seq<char> {
    if value {
        "enabled"@
    } else {
        "disabled"@
    }
}

fn switch_str(value: bool) -> (text: &'static str)
    ensures
        text@ == switch_text(value),
{
    if value {
        "enabled"
    } else {
        "disabled"
    }
}

fn append(text: &mut String, part: &str)
    ensures
        final(text)@ == old(text)@ + part@,
{
    vstd::string::StringExecFns::append(text, part);
}

/// The movement help.
pub open spec fn movement_text(rules: HelpRules) -> Seq<char> {
    "CHESS MOVEMENT & TERRAIN\nKing: one square; may castle only on an authored clear, unattacked route.\nQueen: orthogonal or diagonal rays. Rook: orthogonal rays. Bishop: diagonal rays. Knight: L-jump. Pawn: forward movement and diagonal capture in its army direction.\nPawn double-step: "@
        + switch_text(rules.allow_pawn_double_step) + ". En passant: "@ + switch_text(
        rules.allow_en_passant,
    ) + ". Authored castling routes: "@ + decimal(rules.castling_routes as nat)
        + ".\n\nOpen terrain has no extra blocker. Forest stops sliding rays beyond the forest tile. Mountain blocks sliders and Pawn placement; Knights jump over intervening terrain. Road is visually distinct but does not add a movement exception.\nRiver and Wall edges block crossing. Bridge, Ford, and Gate edges reopen their boundary. Knights ignore intervening edge barriers; diagonal movement must cross both component boundaries legally."@
}

/// Writes the movement help.
pub fn movement_help(rules: &HelpRules) -> (text: String)
    ensures
        text@ == movement_text(*rules),
{
    let mut text = String::from_str(
        "CHESS MOVEMENT & TERRAIN\nKing: one square; may castle only on an authored clear, unattacked route.\nQueen: orthogonal or diagonal rays. Rook: orthogonal rays. Bishop: diagonal rays. Knight: L-jump. Pawn: forward movement and diagonal capture in its army direction.\nPawn double-step: ",
    );
    append(&mut text, switch_str(rules.allow_pawn_double_step));
    append(&mut text, ". En passant: ");
    append(&mut text, switch_str(rules.allow_en_passant));
    append(&mut text, ". Authored castling routes: ");
    let routes = decimal_text(rules.castling_routes);
    append(&mut text, routes.as_str());
    append(
        &mut text,
        ".\n\nOpen terrain has no extra blocker. Forest stops sliding rays beyond the forest tile. Mountain blocks sliders and Pawn placement; Knights jump over intervening terrain. Road is visually distinct but does not add a movement exception.\nRiver and Wall edges block crossing. Bridge, Ford, and Gate edges reopen their boundary. Knights ignore intervening edge barriers; diagonal movement must cross both component boundaries legally.",
    );
    text
}

/// The realm help.
pub open spec fn realm_text(rules: HelpRules) -> Seq<char> {
    "GOVERNANCE, DEVELOPMENT, PRODUCTION & PROMOTION\nKings, Queens, Rooks, and Bishops geometrically govern a settlement along an unblocked attack line; Knights and Pawns do not. A friendly founder on the endpoint does not block governance.\nAn owned settlement develops after "@
        + decimal(rules.establishment_cycles as nat)
        + " continuous owner-turn cycles with its founder present, no enemy occupant, and at least one governor. Interruption "@
        + (if rules.development_resets_when_interrupted {
        "resets"@
    } else {
        "pauses"@
    }) + " progress in this scenario.\nAn established settlement produces after "@ + decimal(
        rules.production_cycles as nat,
    )
        + " eligible cycles. Production queues a mandatory adjacent Pawn placement; Move and Hold remain disabled until every queued choice is resolved.\nA Pawn on a promotion site becomes eligible after "@
        + decimal(rules.promotion_cycles as nat)
        + " surviving cycles. Promotion is mandatory when queued and offers Queen, Rook, Bishop, or Knight."@
}

/// Writes the realm help.
pub fn realm_help(rules: &HelpRules) -> (text: String)
    ensures
        text@ == realm_text(*rules),
{
    let mut text = String::from_str(
        "GOVERNANCE, DEVELOPMENT, PRODUCTION & PROMOTION\nKings, Queens, Rooks, and Bishops geometrically govern a settlement along an unblocked attack line; Knights and Pawns do not. A friendly founder on the endpoint does not block governance.\nAn owned settlement develops after ",
    );
    let establishment = decimal_text(rules.establishment_cycles as u64);
    append(&mut text, establishment.as_str());
    append(
        &mut text,
        " continuous owner-turn cycles with its founder present, no enemy occupant, and at least one governor. Interruption ",
    );
    append(
        &mut text,
        if rules.development_resets_when_interrupted {
            "resets"
        } else {
            "pauses"
        },
    );
    append(&mut text, " progress in this scenario.\nAn established settlement produces after ");
    let production = decimal_text(rules.production_cycles as u64);
    append(&mut text, production.as_str());
    append(
        &mut text,
        " eligible cycles. Production queues a mandatory adjacent Pawn placement; Move and Hold remain disabled until every queued choice is resolved.\nA Pawn on a promotion site becomes eligible after ",
    );
    let promotion = decimal_text(rules.promotion_cycles as u64);
    append(&mut text, promotion.as_str());
    append(
        &mut text,
        " surviving cycles. Promotion is mandatory when queued and offers Queen, Rook, Bishop, or Knight.",
    );
    text
}

/// The help on commands, clocks and outcomes.
pub open spec fn match_text() -> Seq<char> {
    "COMMANDS, CLOCKS & OUTCOMES\nEach completed turn contains exactly one legal Move or Hold after mandatory choices. Hold preserves occupancy, is unavailable in check, and lets a player end a non-check no-move turn.\nWhen clocks are enabled, only the active player's clock runs, including during mandatory choices. Time is charged before action validation; expiration at the deadline wins. Increment is added only after an accepted Move or Hold.\nA match ends by checkmate, timeout, resignation, accepted draw, or automatic third repetition of the complete gameplay state. Terminal state rejects further gameplay actions.\nPreviews explain consequences but never rank or recommend moves."@
}

/// Writes the help on commands, clocks and outcomes.
pub fn match_help() -> (text: String)
    ensures
        text@ == match_text(),
{
    String::from_str(
        "COMMANDS, CLOCKS & OUTCOMES\nEach completed turn contains exactly one legal Move or Hold after mandatory choices. Hold preserves occupancy, is unavailable in check, and lets a player end a non-check no-move turn.\nWhen clocks are enabled, only the active player's clock runs, including during mandatory choices. Time is charged before action validation; expiration at the deadline wins. Increment is added only after an accepted Move or Hold.\nA match ends by checkmate, timeout, resignation, accepted draw, or automatic third repetition of the complete gameplay state. Terminal state rejects further gameplay actions.\nPreviews explain consequences but never rank or recommend moves.",
    )
}

/// The fixed lines of the board legend.
pub open spec fn legend_heading() -> Seq<char> {
    "BOARD LEGEND\nTiles: alternating light/dark parity remains visible under every tint. Open = neutral sand/stone; Forest = green; Mountain = gray; Road = ochre.\nPieces: Unicode chess silhouette on a contrasting backplate. North uses pale glyphs on a dark upright plate; South uses dark glyphs on a pale rotated plate.\nFeatures: inset blue/orange tile = North/South Keep; square ring with ·/N/S = neutral/North/South settlement; purple X = promotion site; T = fortification tower.\nEdges: blue band = River; brown thick band with = = Bridge; light-blue band with ·· = Ford; dark band = Wall; gold band with / = Gate.\nOverlays:"@
}

/// The overlay lines of the board legend, from the first `n` entries.
pub open spec fn legend_lines(entries: Seq<(String, String)>, n: nat) -> Seq<char>
    decreases n,
{
    if n == 0 || n > entries.len() {
        Seq::empty()
    } else {
        legend_lines(entries, (n - 1) as nat) + "\n"@ + entries[n - 1].0@ + " — "@
            + entries[n - 1].1@
    }
}

/// Writes the board legend: the fixed lines, then each overlay's symbol and
/// description.
pub fn legend_help(entries: &[(String, String)]) -> (text: String)
    ensures
        text@ == legend_heading() + legend_lines(entries@, entries@.len()),
{
    let mut text = String::from_str(
        "BOARD LEGEND\nTiles: alternating light/dark parity remains visible under every tint. Open = neutral sand/stone; Forest = green; Mountain = gray; Road = ochre.\nPieces: Unicode chess silhouette on a contrasting backplate. North uses pale glyphs on a dark upright plate; South uses dark glyphs on a pale rotated plate.\nFeatures: inset blue/orange tile = North/South Keep; square ring with ·/N/S = neutral/North/South settlement; purple X = promotion site; T = fortification tower.\nEdges: blue band = River; brown thick band with = = Bridge; light-blue band with ·· = Ford; dark band = Wall; gold band with / = Gate.\nOverlays:",
    );
    let mut i: usize = 0;
    while i < entries.len()
        invariant
            i <= entries@.len(),
            text@ == legend_heading() + legend_lines(entries@, i as nat),
        decreases entries.len() - i,
    {
        append(&mut text, "\n");
        append(&mut text, entries[i].0.as_str());
        append(&mut text, " — ");
        append(&mut text, entries[i].1.as_str());
        i = i + 1;
    }
    text
}

/// The text of a help section.
pub open spec fn section_text(section: HelpSection, rules: HelpRules, legend: Seq<char>) -> Seq<char> {
    match section {
        HelpSection::Overview => "CROWNLINES RULES\n\n"@ + movement_text(rules) + "\n\n"@ + realm_text(
            rules,
        ) + "\n\n"@ + match_text() + "\n\nOpen Board legend for every visual mark."@,
        HelpSection::Movement => movement_text(rules),
        HelpSection::Realm => realm_text(rules) + "\n\n"@ + legend,
        HelpSection::Match => match_text(),
        HelpSection::Legend => legend,
    }
}

/// Writes a help section, given the board legend's text.
pub fn help_text(section: HelpSection, rules: &HelpRules, legend: &str) -> (text: String)
    ensures
        text@ == section_text(section, *rules, legend@),
{
    match section {
        HelpSection::Overview => {
            let mut text = String::from_str("CROWNLINES RULES\n\n");
            let movement = movement_help(rules);
            append(&mut text, movement.as_str());
            append(&mut text, "\n\n");
            let realm = realm_help(rules);
            append(&mut text, realm.as_str());
            append(&mut text, "\n\n");
            let commands = match_help();
            append(&mut text, commands.as_str());
            append(&mut text, "\n\nOpen Board legend for every visual mark.");
            text
        },
        HelpSection::Movement => movement_help(rules),
        HelpSection::Realm => {
            let mut text = realm_help(rules);
            append(&mut text, "\n\n");
            append(&mut text, legend);
            text
        },
        HelpSection::Match => match_help(),
        HelpSection::Legend => legend.to_owned(),
    }
}

} // verus!
