//! Local save slots: which slot is chosen, the slot's file name, and the
//! checks of a save's own fields before and after its match is read.
use vstd::prelude::*;

use crate::lifecycle::ClientFlow;
use crate::text::{decimal, decimal_text, eq_ignore_ascii_case, eq_ignore_case, trim, trim_text};

verus! {

/// The local save format this client reads and writes.
pub const LOCAL_SAVE_FORMAT_VERSION: u16 = 1;

/// The number of save slots.
pub const SLOT_COUNT: u8 = 3;

/// The number of scenarios a local match may be set up with.
pub const LOCAL_SCENARIO_COUNT: usize = 3;

/// The slot chosen after the slot key: the next one, back to the first after
/// the last.
pub fn next_slot(slot: u8) -> (next: u8)
    ensures
        next == slot % SLOT_COUNT + 1,
        1 <= next <= SLOT_COUNT,
{
    slot % SLOT_COUNT + 1
}

/// Pressing the slot key once per slot comes back to the slot chosen, and
/// every slot reached exists.
pub proof fn law_slot_key_cycles(slot: u8)
    requires
        1 <= slot <= SLOT_COUNT,
    ensures
        ((slot % SLOT_COUNT + 1) as u8 % SLOT_COUNT + 1) as u8 % SLOT_COUNT + 1 == slot,
        slot_file((slot % SLOT_COUNT + 1) as u8) is Ok,
{
}

/// The name of a slot's file, or why the slot does not exist.
pub open spec fn slot_file(slot: u8) -> Result<Seq<char>, Seq<char>> {
    if 1 <= slot <= SLOT_COUNT {
        Ok("slot-"@ + decimal(slot as nat) + ".json"@)
    } else {
        Err("save slot "@ + decimal(slot as nat) + " is outside 1–3"@)
    }
}

/// The name of a slot's file.
pub fn slot_file_name(slot: u8) -> (name: Result<String, String>)
    ensures
        match slot_file(slot) {
            Ok(n) => name is Ok && name->Ok_0@ == n,
            Err(m) => name is Err && name->Err_0@ == m,
        },
{
    let number = decimal_text(slot as u64);
    if 1 <= slot && slot <= SLOT_COUNT {
        let mut name = String::from_str("slot-");
        vstd::string::StringExecFns::append(&mut name, number.as_str());
        vstd::string::StringExecFns::append(&mut name, ".json");
        Ok(name)
    } else {
        let mut message = String::from_str("save slot ");
        vstd::string::StringExecFns::append(&mut message, number.as_str());
        vstd::string::StringExecFns::append(&mut message, " is outside 1–3");
        Err(message)
    }
}

/// Why a save's header was refused: an unknown format, or no application
/// version.
pub open spec fn header_error(format_version: u16, application_version: Seq<char>) -> Option<
    Seq<char>,
> {
    if format_version != LOCAL_SAVE_FORMAT_VERSION {
        Some("local save format "@ + decimal(format_version as nat) + " is unsupported (current 1)"@)
    } else if trim(application_version).len() == 0 {
        Some("application version is missing"@)
    } else {
        None
    }
}

/// Checks a save's header, before its scenario and match are read.
pub fn validate_save_header(format_version: u16, application_version: &str) -> (result: Result<(), String>)
    ensures
        match header_error(format_version, application_version@) {
            Some(m) => result is Err && result->Err_0@ == m,
            None => result is Ok,
        },
{
    if format_version != LOCAL_SAVE_FORMAT_VERSION {
        let mut message = String::from_str("local save format ");
        let number = decimal_text(format_version as u64);
        vstd::string::StringExecFns::append(&mut message, number.as_str());
        vstd::string::StringExecFns::append(&mut message, " is unsupported (current 1)");
        return Err(message);
    }
    let trimmed = trim_text(application_version);
    if trimmed.unicode_len() == 0 {
        return Err(String::from_str("application version is missing"));
    }
    Ok(())
}

/// Why a save's setup was refused: names missing, longer than 24 characters
/// or equal ignoring ASCII case, or an unknown scenario selection.
pub open spec fn setup_error(north: Seq<char>, south: Seq<char>, selected_scenario: usize) -> Option<
    Seq<char>,
> {
    if trim(north).len() == 0 || trim(south).len() == 0 || north.len() > 24 || south.len() > 24
        || eq_ignore_ascii_case(north, south) {
        Some("saved player names are invalid"@)
    } else if selected_scenario >= LOCAL_SCENARIO_COUNT {
        Some("saved scenario selection is invalid"@)
    } else {
        None
    }
}

/// Checks a save's setup, once its scenario and match have been read.
pub fn validate_saved_setup(north: &str, south: &str, selected_scenario: usize) -> (result: Result<(), String>)
    ensures
        match setup_error(north@, south@, selected_scenario) {
            Some(m) => result is Err && result->Err_0@ == m,
            None => result is Ok,
        },
{
    let tn = trim_text(north);
    let ts = trim_text(south);
    if tn.unicode_len() == 0 || ts.unicode_len() == 0 || north.unicode_len() > 24
        || south.unicode_len() > 24 || eq_ignore_case(north, south) {
        return Err(String::from_str("saved player names are invalid"));
    }
    if selected_scenario >= LOCAL_SCENARIO_COUNT {
        return Err(String::from_str("saved scenario selection is invalid"));
    }
    Ok(())
}

/// Why a save of `length` bytes is refused by a limit of `max` bytes: one
/// read from its slot file (`stored`) or one about to be decoded.
pub open spec fn size_error(length: usize, max: usize, stored: bool) -> Option<Seq<char>> {
    if length <= max {
        None
    } else if stored {
        Some("slot exceeds the "@ + decimal(max as nat) + " byte safety limit"@)
    } else {
        Some("save exceeds the "@ + decimal(max as nat) + " byte safety limit"@)
    }
}

/// Checks a save's size against the safety limit before it is read.
pub fn check_save_size(length: usize, max: usize, stored: bool) -> (result: Result<(), String>)
    ensures
        match size_error(length, max, stored) {
            Some(m) => result is Err && result->Err_0@ == m,
            None => result is Ok,
        },
{
    if length <= max {
        return Ok(());
    }
    let mut message = if stored {
        String::from_str("slot exceeds the ")
    } else {
        String::from_str("save exceeds the ")
    };
    let number = decimal_text(max as u64);
    vstd::string::StringExecFns::append(&mut message, number.as_str());
    vstd::string::StringExecFns::append(&mut message, " byte safety limit");
    Err(message)
}

/// The chosen save slot and the status line of local saves.
#[derive(Debug)]
pub struct LocalPersistenceStatus {
    pub slot: u8,
    pub message: String,
}

/// The status line after the slot key.
pub open spec fn slot_message(slot: u8) -> Seq<char> {
    "Selected save slot "@ + decimal(slot as nat) + "."@
}

/// The status line after a save: where it was written, or why it failed.
pub open spec fn save_message(slot: u8, result: Result<Seq<char>, Seq<char>>) -> Seq<char> {
    match result {
        Ok(path) => "Saved slot "@ + decimal(slot as nat) + " safely to "@ + path + "."@,
        Err(error) => "Save failed; the previous slot was preserved. "@ + error
            + " Check storage permissions and free space."@,
    }
}

/// The status line after a load: the revision restored, or why it failed.
pub open spec fn load_message(slot: u8, result: Result<(bool, u64), Seq<char>>) -> Seq<char> {
    match result {
        Ok((_, revision)) => "Loaded slot "@ + decimal(slot as nat)
            + ". Offline time was not charged; canonical revision "@ + decimal(revision as nat)
            + " restored."@,
        Err(error) => "Load failed; the slot file was left unchanged. "@ + error
            + " Try another slot or restore a known-good copy."@,
    }
}

fn append_to(text: &mut String, part: &str)
    ensures
        final(text)@ == old(text)@ + part@,
{
    vstd::string::StringExecFns::append(text, part);
}

impl LocalPersistenceStatus {
    /// The first slot, with the keys explained.
    pub fn new() -> (status: Self)
        ensures
            status.slot == 1,
            status.message@ == "F5 save · F9 load · F6 change slot"@,
    {
        LocalPersistenceStatus { slot: 1, message: String::from_str("F5 save · F9 load · F6 change slot") }
    }

    /// The slot key: the next slot is chosen and named.
    pub fn change_slot(&mut self)
        ensures
            final(self).slot == old(self).slot % SLOT_COUNT + 1,
            final(self).message@ == slot_message(final(self).slot),
    {
        self.slot = next_slot(self.slot);
        let mut message = String::from_str("Selected save slot ");
        let number = decimal_text(self.slot as u64);
        append_to(&mut message, number.as_str());
        append_to(&mut message, ".");
        self.message = message;
    }

    /// Whether the save key saves: not while the match is being set up.
    pub fn save_allowed(flow: ClientFlow) -> (allowed: bool)
        ensures
            allowed == (flow != ClientFlow::Setup),
    {
        !matches!(flow, ClientFlow::Setup)
    }

    /// Reports a save into the chosen slot: the path written, or the error.
    pub fn record_save(&mut self, result: Result<&str, &str>)
        ensures
            final(self).slot == old(self).slot,
            final(self).message@ == save_message(
                old(self).slot,
                match result {
                    Ok(p) => Ok(p@),
                    Err(e) => Err(e@),
                },
            ),
    {
        let number = decimal_text(self.slot as u64);
        let message = match result {
            Ok(path) => {
                let mut m = String::from_str("Saved slot ");
                append_to(&mut m, number.as_str());
                append_to(&mut m, " safely to ");
                append_to(&mut m, path);
                append_to(&mut m, ".");
                m
            },
            Err(error) => {
                let mut m = String::from_str("Save failed; the previous slot was preserved. ");
                append_to(&mut m, error);
                append_to(&mut m, " Check storage permissions and free space.");
                m
            },
        };
        self.message = message;
    }

    /// Reports a load from the chosen slot, given whether the loaded match has
    /// ended and its revision, or the error; returns the flow that a loaded
    /// match resumes in (its outcome once ended, else play).
    pub fn record_load(&mut self, result: Result<(bool, u64), &str>) -> (flow: Option<ClientFlow>)
        ensures
            final(self).slot == old(self).slot,
            final(self).message@ == load_message(
                old(self).slot,
                match result {
                    Ok(v) => Ok(v),
                    Err(e) => Err(e@),
                },
            ),
            flow == match result {
                Ok((ended, _)) => Some(if ended {
                    ClientFlow::Outcome
                } else {
                    ClientFlow::Playing
                }),
                Err(_) => None,
            },
    {
        let number = decimal_text(self.slot as u64);
        match result {
            Ok((ended, revision)) => {
                let mut m = String::from_str("Loaded slot ");
                append_to(&mut m, number.as_str());
                append_to(&mut m, ". Offline time was not charged; canonical revision ");
                let r = decimal_text(revision);
                append_to(&mut m, r.as_str());
                append_to(&mut m, " restored.");
                self.message = m;
                Some(if ended {
                    ClientFlow::Outcome
                } else {
                    ClientFlow::Playing
                })
            },
            Err(error) => {
                let mut m = String::from_str("Load failed; the slot file was left unchanged. ");
                append_to(&mut m, error);
                append_to(&mut m, " Try another slot or restore a known-good copy.");
                self.message = m;
                None
            },
        }
    }
}

} // verus!
