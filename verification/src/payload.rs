//! The handshake payload: the bytes read from the mapped view, and the text
//! that they hold.

use crate::credentials::{credentials_in, LpContents};
use crate::error::MonitorError;
use vstd::prelude::*;
use vstd::slice::slice_subrange;
use vstd::string::StringExecFns;
use vstd::utf8::{decode_utf8, valid_utf8};

verus! {

/// Whether `bytes` end in the terminator and hold no other zero byte.
pub open spec fn terminated(bytes: Seq<u8>) -> bool {
    &&& bytes.len() > 0
    &&& bytes.last() == 0
    &&& forall|i: int| 0 <= i < bytes.len() - 1 ==> #[trigger] bytes[i] != 0
}

/// The text of a payload: what stands before the terminator, where the
/// payload is terminated and that part is UTF-8.
pub open spec fn payload_text(bytes: Seq<u8>) -> Option<Seq<char>> {
    if terminated(bytes) && valid_utf8(bytes.drop_last()) {
        Some(decode_utf8(bytes.drop_last()))
    } else {
        None
    }
}

/// Calls `std::str::from_utf8`, which yields the text of the bytes exactly
/// where they are well-formed UTF-8.
#[verifier::external_body]
fn text_of_utf8(bytes: &[u8]) -> (r: Option<&str>)
    ensures
        r is Some <==> valid_utf8(bytes@),
        r is Some ==> r->Some_0@ == decode_utf8(bytes@),
{
    match std::str::from_utf8(bytes) {
        Ok(text) => Some(text),
        Err(_) => None,
    }
}

/// The text of `bytes` as an owned string, where they are UTF-8.
pub fn utf8_text(bytes: &[u8]) -> (r: Option<String>)
    ensures
        r is Some <==> valid_utf8(bytes@),
        r is Some ==> r->Some_0@ == decode_utf8(bytes@),
{
    match text_of_utf8(bytes) {
        Some(text) => Some(String::from_str(text)),
        None => None,
    }
}

/// Reads the text of a handshake payload. The last byte must be the
/// terminator, no byte before it may be zero, and the bytes before it must
/// be UTF-8; otherwise this fails with `HandshakeDecodeError`.
pub fn decode_payload(bytes: &[u8]) -> (r: Result<String, MonitorError>)
    ensures
        match r {
            Ok(text) => payload_text(bytes@) == Some(text@),
            Err(e) => e == MonitorError::HandshakeDecodeError && payload_text(bytes@) is None,
        },
{
    let len: usize = bytes.len();
    if len == 0 {
        return Err(MonitorError::HandshakeDecodeError);
    }
    if bytes[len - 1] != 0 {
        return Err(MonitorError::HandshakeDecodeError);
    }
    let mut i: usize = 0;
    while i < len - 1
        invariant
            len == bytes@.len(),
            len > 0,
            i <= len - 1,
            forall|j: int| 0 <= j < i ==> #[trigger] bytes@[j] != 0,
        decreases len - i,
    {
        if bytes[i] == 0 {
            return Err(MonitorError::HandshakeDecodeError);
        }
        i = i + 1;
    }
    let front = slice_subrange(bytes, 0, len - 1);
    assert(front@ =~= bytes@.drop_last());
    match utf8_text(front) {
        Some(text) => Ok(text),
        None => Err(MonitorError::HandshakeDecodeError),
    }
}

/// The credentials that a payload holds.
pub open spec fn handshake_of(bytes: Seq<u8>) -> Result<(u16, Seq<char>), MonitorError> {
    match payload_text(bytes) {
        None => Err(MonitorError::HandshakeDecodeError),
        Some(text) => match credentials_in(text) {
            None => Err(MonitorError::HandshakeFormatError),
            Some(c) => Ok(c),
        },
    }
}

/// Decodes a payload into credentials: first the terminated text, then the
/// record in it. A payload that is no terminated UTF-8 text fails with
/// `HandshakeDecodeError`, a text that is no record of port and secret with
/// `HandshakeFormatError`.
pub fn decode_handshake(bytes: &[u8]) -> (r: Result<LpContents, MonitorError>)
    ensures
        match r {
            Ok(c) => handshake_of(bytes@) == Ok::<(u16, Seq<char>), MonitorError>(
                (c.port, c.secret@),
            ),
            Err(e) => handshake_of(bytes@) == Err::<(u16, Seq<char>), MonitorError>(e),
        },
{
    match decode_payload(bytes) {
        Ok(text) => LpContents::decode(text.as_str()),
        Err(e) => Err(e),
    }
}

/// A payload without its terminator at the end holds no text.
pub proof fn lemma_unterminated_payload(bytes: Seq<u8>)
    requires
        bytes.len() == 0 || bytes.last() != 0,
    ensures
        payload_text(bytes) is None,
        handshake_of(bytes) == Err::<(u16, Seq<char>), MonitorError>(
            MonitorError::HandshakeDecodeError,
        ),
{
}

/// UTF-8 bytes that hold no zero, followed by the terminator, are a payload
/// whose text is what the bytes encode.
pub proof fn lemma_terminated_payload(front: Seq<u8>)
    requires
        valid_utf8(front),
        forall|i: int| 0 <= i < front.len() ==> #[trigger] front[i] != 0,
    ensures
        payload_text(front.push(0)) == Some(decode_utf8(front)),
{
    assert(front.push(0).drop_last() =~= front);
}

} // verus!
