//! The settings of a run, and the reading of the polling interval.

use crate::decimal::{parse_u64, parse_unsigned, ParseFailure};
use std::time::Duration;
use vstd::prelude::*;
use vstd::string::StringExecFns;

verus! {

/// The whole seconds of a duration: what `Duration::as_secs` returns.
pub uninterp spec fn duration_seconds(d: Duration) -> u64;

/// The part of a duration below one second, in nanoseconds: what
/// `Duration::subsec_nanos` returns.
pub uninterp spec fn duration_subsec_nanos(d: Duration) -> u32;

/// `Duration::from_secs` makes the duration of that many whole seconds and
/// nothing more.
pub assume_specification[ Duration::from_secs ](secs: u64) -> (d: Duration)
    ensures
        duration_seconds(d) == secs,
        duration_subsec_nanos(d) == 0,
;

/// What is said of each failure to read a number.
pub open spec fn failure_text(e: ParseFailure) -> Seq<char> {
    match e {
        ParseFailure::Empty => "cannot parse integer from empty string"@,
        ParseFailure::InvalidDigit => "invalid digit found in string"@,
        ParseFailure::TooLarge => "number too large to fit in target type"@,
    }
}

/// The message for an interval that is no number of seconds.
pub open spec fn invalid_duration_text(s: Seq<char>, e: ParseFailure) -> Seq<char> {
    "Invalid duration: "@ + s + ". Error: "@ + failure_text(e)
}

/// Reads a polling interval given as a whole number of seconds. Where the
/// text is no such number, the message names the text and the reason.
pub fn seconds_string_to_duration(s: &str) -> (r: Result<Duration, String>)
    ensures
        match r {
            Ok(d) => parse_unsigned(s@, u64::MAX as nat) == Ok::<nat, ParseFailure>(
                duration_seconds(d) as nat,
            ) && duration_subsec_nanos(d) == 0,
            Err(message) => parse_unsigned(s@, u64::MAX as nat) is Err && message@
                == invalid_duration_text(s@, parse_unsigned(s@, u64::MAX as nat)->Err_0),
        },
{
    match parse_u64(s) {
        Ok(seconds) => Ok(Duration::from_secs(seconds)),
        Err(e) => {
            let reason = match e {
                ParseFailure::Empty => "cannot parse integer from empty string",
                ParseFailure::InvalidDigit => "invalid digit found in string",
                ParseFailure::TooLarge => "number too large to fit in target type",
            };
            let message = String::from_str("Invalid duration: ");
            let message = message.concat(s);
            let message = message.concat(". Error: ");
            Err(message.concat(reason))
        },
    }
}

/// The settings that a run is started with. The library reads them and
/// never changes them.
pub struct RuntimeConfig {
    /// How long to wait between two polls.
    pub seconds_between_checks: Duration,
    /// The name of the shared-memory object that holds the handshake.
    pub file_mapping_uuid: String,
    /// The largest size of the mapped region that is accepted, in bytes.
    pub max_region_size: usize,
    /// The length of the handshake text, in bytes, without its terminator.
    pub expected_contents_size: usize,
    /// The path of the control interface's endpoint.
    pub enable_endpoint: String,
}

impl Default for RuntimeConfig {
    fn default() -> (r: RuntimeConfig)
        ensures
            duration_seconds(r.seconds_between_checks) == 5,
            duration_subsec_nanos(r.seconds_between_checks) == 0,
            r.file_mapping_uuid@ == "{8BA1E16C-FC54-4595-9782-E370A5FBE8DA}"@,
            r.max_region_size == 4096,
            r.expected_contents_size == 58,
            r.enable_endpoint@ == "/ShadowPlay/v.1.0/InstantReplay/Enable"@,
    {
        RuntimeConfig {
            seconds_between_checks: Duration::from_secs(5),
            file_mapping_uuid: String::from_str("{8BA1E16C-FC54-4595-9782-E370A5FBE8DA}"),
            max_region_size: 4096,
            expected_contents_size: 58,
            enable_endpoint: String::from_str("/ShadowPlay/v.1.0/InstantReplay/Enable"),
        }
    }
}

} // verus!
