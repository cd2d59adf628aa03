//! The credentials that the handshake yields.

use crate::decimal::{decimal_digits, decimal_string};
use crate::error::MonitorError;
use crate::json::{as_text, as_unsigned, member, parse_document, text_field, unsigned_field};
use vstd::prelude::*;
use vstd::string::StringExecFns;

verus! {

/// Port and secret of the control interface. Both stay as decoded for the
/// whole run.
#[derive(Clone)]
pub struct LpContents {
    pub port: u16,
    pub secret: String,
}

/// The record that a port member and a secret member make, where both are
/// present and the port fits sixteen bits.
pub open spec fn credentials_from(port: Option<u64>, secret: Option<Seq<char>>) -> Option<
    (u16, Seq<char>),
> {
    match (port, secret) {
        (Some(p), Some(s)) => if p <= 0xFFFF {
            Some((p as u16, s))
        } else {
            None
        },
        _ => None,
    }
}

/// The record that a handshake text holds: its `port` member as an unsigned
/// integer and its `secret` member as a string.
pub open spec fn credentials_in(text: Seq<char>) -> Option<(u16, Seq<char>)> {
    credentials_from(unsigned_field(text, "port"@), text_field(text, "secret"@))
}

/// How the credentials appear in diagnostics: the port alone.
pub open spec fn redacted_text(port: u16) -> Seq<char> {
    "LpContents { port: "@ + decimal_digits(port as nat) + ", secret: [REDACTED] }"@
}

impl LpContents {
    /// Builds the credentials from the two members of a handshake record, as
    /// far as they were found with the right type. Fails with
    /// `HandshakeFormatError` where one is absent or the port exceeds
    /// sixteen bits.
    pub fn from_fields(port: Option<u64>, secret: Option<String>) -> (r: Result<
        LpContents,
        MonitorError,
    >)
        ensures
            match r {
                Ok(c) => credentials_from(
                    port,
                    match secret {
                        Some(s) => Some(s@),
                        None => None,
                    },
                ) == Some((c.port, c.secret@)),
                Err(e) => e == MonitorError::HandshakeFormatError && credentials_from(
                    port,
                    match secret {
                        Some(s) => Some(s@),
                        None => None,
                    },
                ) is None,
            },
    {
        match (port, secret) {
            (Some(p), Some(s)) => {
                if p <= 0xFFFF {
                    Ok(LpContents { port: p as u16, secret: s })
                } else {
                    Err(MonitorError::HandshakeFormatError)
                }
            },
            _ => Err(MonitorError::HandshakeFormatError),
        }
    }

    /// Decodes the handshake text. Succeeds exactly where the text is a
    /// record with an unsigned sixteen-bit `port` and a string `secret`, and
    /// fails with `HandshakeFormatError` otherwise.
    pub fn decode(text: &str) -> (r: Result<LpContents, MonitorError>)
        ensures
            match r {
                Ok(c) => credentials_in(text@) == Some((c.port, c.secret@)),
                Err(e) => e == MonitorError::HandshakeFormatError && credentials_in(text@) is None,
            },
    {
        match parse_document(text) {
            Ok(doc) => {
                let port = match member(&doc, "port") {
                    Some(value) => as_unsigned(value),
                    None => None,
                };
                let secret = match member(&doc, "secret") {
                    Some(value) => match as_text(value) {
                        Some(s) => Some(String::from_str(s)),
                        None => None,
                    },
                    None => None,
                };
                LpContents::from_fields(port, secret)
            },
            Err(_) => Err(MonitorError::HandshakeFormatError),
        }
    }

    /// The text that stands for the credentials in diagnostics. It shows the
    /// port and nothing of the secret.
    pub fn debug_text(&self) -> (r: String)
        ensures
            r@ == redacted_text(self.port),
    {
        let r = String::from_str("LpContents { port: ");
        let digits = decimal_string(self.port as u64);
        let r = r.concat(digits.as_str());
        r.concat(", secret: [REDACTED] }")
    }
}

/// A handshake text whose `port` member is the unsigned integer `port`,
/// within sixteen bits, and whose `secret` member is the string `secret`
/// holds exactly these credentials.
pub proof fn lemma_record_with_both_members(text: Seq<char>, port: u16, secret: Seq<char>)
    requires
        unsigned_field(text, "port"@) == Some(port as u64),
        text_field(text, "secret"@) == Some(secret),
    ensures
        credentials_in(text) == Some((port, secret)),
{
}

/// A handshake text that lacks the `port` member or the `secret` member,
/// or holds either with another type, or a port above sixteen bits, holds
/// no credentials.
pub proof fn lemma_record_without_member(text: Seq<char>)
    requires
        unsigned_field(text, "port"@) is None || text_field(text, "secret"@) is None
            || unsigned_field(text, "port"@)->Some_0 > 0xFFFF,
    ensures
        credentials_in(text) is None,
{
}

} // verus!
