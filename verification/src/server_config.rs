//! The match server's own settings, as read from its environment: the log
//! format, the public address, the shutdown drain and the database
//! durability.
use vstd::prelude::*;

use crate::config::begins_with;
use crate::database::Durability;
use crate::text::{eq_ignore_ascii_case, eq_ignore_case, parse_unsigned, parse_unsigned_decimal};

verus! {

/// The drain allowed on shutdown when none is set, in seconds.
pub const DEFAULT_SHUTDOWN_SECONDS: u64 = 15;

/// The longest drain allowed on shutdown, in seconds.
pub const MAX_SHUTDOWN_SECONDS: u64 = 300;

/// The server's settings besides its bind address and limits.
#[derive(Debug)]
pub struct ServerSettings {
    pub public_url: Option<String>,
    pub json_logs: bool,
    pub shutdown_seconds: u64,
}

/// Why the server's settings were refused.
pub open spec fn settings_error(public_url: Option<Seq<char>>, shutdown: Option<Seq<char>>) -> Option<Seq<char>> {
    let text = match shutdown {
        Some(s) => s,
        None => "15"@,
    };
    if public_url matches Some(u) && !(begins_with(u, "http://"@) || begins_with(u, "https://"@)) {
        Some("CROWNLINE_PUBLIC_URL must use http:// or https://"@)
    } else if parse_unsigned(text, u64::MAX as nat) is None {
        Some("CROWNLINE_SHUTDOWN_SECONDS must be an integer"@)
    } else if !(1 <= parse_unsigned(text, u64::MAX as nat)->0 <= MAX_SHUTDOWN_SECONDS) {
        Some("CROWNLINE_SHUTDOWN_SECONDS must be between 1 and 300"@)
    } else {
        None
    }
}

fn begins(s: &str, prefix: &str) -> (result: bool)
    ensures
        result == begins_with(s@, prefix@),
{
    let n = prefix.unicode_len();
    if n > s.unicode_len() {
        return false;
    }
    let mut i: usize = 0;
    while i < n
        invariant
            i <= n == prefix@.len() <= s@.len(),
            forall|j: int| 0 <= j < i ==> s@[j] == prefix@[j],
        decreases n - i,
    {
        if s.get_char(i) != prefix.get_char(i) {
            assert(s@.subrange(0, n as int)[i as int] != prefix@[i as int]);
            return false;
        }
        i = i + 1;
    }
    assert(s@.subrange(0, n as int) =~= prefix@);
    true
}

impl ServerSettings {
    /// Reads the settings from the values of the log format, the public
    /// address and the shutdown drain (each absent when unset): JSON logs
    /// when the format is `json` in any ASCII case, a public address only
    /// over `http://` or `https://`, and a drain of 1 to 300 seconds
    /// (15 by default).
    pub fn from_values(
        log_format: Option<&str>,
        public_url: Option<String>,
        shutdown_seconds: Option<&str>,
    ) -> (result: Result<Self, String>)
        ensures
            match settings_error(
                match public_url {
                    Some(u) => Some(u@),
                    None => None,
                },
                match shutdown_seconds {
                    Some(s) => Some(s@),
                    None => None,
                },
            ) {
                Some(m) => result is Err && result->Err_0@ == m,
                None => result is Ok && ({
                    let s = result->Ok_0;
                    &&& s.json_logs == (match log_format {
                        Some(f) => eq_ignore_ascii_case(f@, "json"@),
                        None => eq_ignore_ascii_case("pretty"@, "json"@),
                    })
                    &&& s.public_url == public_url
                    &&& s.shutdown_seconds == parse_unsigned(
                        match shutdown_seconds {
                            Some(t) => t@,
                            None => "15"@,
                        },
                        u64::MAX as nat,
                    )->0
                }),
            },
    {
        let json_logs = match log_format {
            Some(f) => eq_ignore_case(f, "json"),
            None => eq_ignore_case("pretty", "json"),
        };
        if let Some(u) = &public_url {
            if !(begins(u.as_str(), "http://") || begins(u.as_str(), "https://")) {
                return Err(String::from_str("CROWNLINE_PUBLIC_URL must use http:// or https://"));
            }
        }
        let text: &str = match shutdown_seconds {
            Some(s) => s,
            None => "15",
        };
        let seconds = match parse_unsigned_decimal(text, u64::MAX) {
            None => return Err(String::from_str("CROWNLINE_SHUTDOWN_SECONDS must be an integer")),
            Some(v) => v,
        };
        if !(1 <= seconds && seconds <= MAX_SHUTDOWN_SECONDS) {
            return Err(String::from_str("CROWNLINE_SHUTDOWN_SECONDS must be between 1 and 300"));
        }
        Ok(ServerSettings { public_url, json_logs, shutdown_seconds: seconds })
    }
}

/// The database durability named by its setting (`full` when unset), in any
/// ASCII case, or why the setting is refused.
pub fn durability_from(value: Option<&str>) -> (result: Result<Durability, String>)
    ensures
        ({
            let v = match value {
                Some(t) => t@,
                None => "full"@,
            };
            if eq_ignore_ascii_case(v, "full"@) {
                result == Ok::<Durability, String>(Durability::Full)
            } else if eq_ignore_ascii_case(v, "normal"@) {
                result == Ok::<Durability, String>(Durability::Normal)
            } else {
                result is Err && result->Err_0@
                    == "CROWNLINE_DATABASE_DURABILITY must be full or normal"@
            }
        }),
{
    let v: &str = match value {
        Some(t) => t,
        None => "full",
    };
    if eq_ignore_case(v, "full") {
        Ok(Durability::Full)
    } else if eq_ignore_case(v, "normal") {
        Ok(Durability::Normal)
    } else {
        Err(String::from_str("CROWNLINE_DATABASE_DURABILITY must be full or normal"))
    }
}

} // verus!
