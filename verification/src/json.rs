//! What the library reads from, and writes as, JSON text. The grammar is
//! `serde_json`'s: the items here hand its answers on, and only their
//! contracts are known to the verifier.

use vstd::prelude::*;

verus! {

#[verifier::external_type_specification]
#[verifier::external_body]
pub struct ExJsonValue(serde_json::Value);

#[verifier::external_type_specification]
#[verifier::external_body]
pub struct ExJsonError(serde_json::Error);

/// The document that `serde_json::from_str` reads from `text`, where it
/// accepts the text.
pub uninterp spec fn json_parsed(text: Seq<char>) -> Option<serde_json::Value>;

/// The member that `serde_json::Value::get` finds in `doc` under `key`.
pub uninterp spec fn json_member(doc: serde_json::Value, key: Seq<char>) -> Option<
    serde_json::Value,
>;

/// What `serde_json::Value::as_u64` reads from `value`.
pub uninterp spec fn json_unsigned(value: serde_json::Value) -> Option<u64>;

/// What `serde_json::Value::as_str` reads from `value`.
pub uninterp spec fn json_text(value: serde_json::Value) -> Option<Seq<char>>;

/// What `serde_json::Value::as_bool` reads from `value`.
pub uninterp spec fn json_flag(value: serde_json::Value) -> Option<bool>;

/// Calls `serde_json::from_str` for a `serde_json::Value`. The contract
/// claims only that the outcome depends on the text alone.
#[verifier::external_body]
pub(crate) fn parse_document(text: &str) -> (r: Result<serde_json::Value, serde_json::Error>)
    ensures
        match r {
            Ok(doc) => json_parsed(text@) == Some(doc),
            Err(_) => json_parsed(text@) is None,
        },
{
    serde_json::from_str::<serde_json::Value>(text)
}

/// Calls `serde_json::Value::get` with a string key. The contract claims
/// only that the outcome depends on the document and the key alone.
#[verifier::external_body]
pub(crate) fn member<'a>(doc: &'a serde_json::Value, key: &str) -> (r: Option<
    &'a serde_json::Value,
>)
    ensures
        match r {
            Some(value) => json_member(*doc, key@) == Some(*value),
            None => json_member(*doc, key@) is None,
        },
{
    doc.get(key)
}

/// Calls `serde_json::Value::as_u64`, which yields the number where the
/// value is a non-negative integer that fits.
#[verifier::external_body]
pub(crate) fn as_unsigned(value: &serde_json::Value) -> (r: Option<u64>)
    ensures
        r == json_unsigned(*value),
{
    value.as_u64()
}

/// Calls `serde_json::Value::as_str`, which yields the text where the value
/// is a string.
#[verifier::external_body]
pub(crate) fn as_text<'a>(value: &'a serde_json::Value) -> (r: Option<&'a str>)
    ensures
        match r {
            Some(text) => json_text(*value) == Some(text@),
            None => json_text(*value) is None,
        },
{
    value.as_str()
}

/// Calls `serde_json::Value::as_bool`, which yields the boolean where the
/// value is one.
#[verifier::external_body]
pub(crate) fn as_flag(value: &serde_json::Value) -> (r: Option<bool>)
    ensures
        r == json_flag(*value),
{
    value.as_bool()
}

/// The unsigned integer that the document in `text` holds under `key`.
pub open spec fn unsigned_field(text: Seq<char>, key: Seq<char>) -> Option<u64> {
    match json_parsed(text) {
        Some(doc) => match json_member(doc, key) {
            Some(value) => json_unsigned(value),
            None => None,
        },
        None => None,
    }
}

/// The string that the document in `text` holds under `key`.
pub open spec fn text_field(text: Seq<char>, key: Seq<char>) -> Option<Seq<char>> {
    match json_parsed(text) {
        Some(doc) => match json_member(doc, key) {
            Some(value) => json_text(value),
            None => None,
        },
        None => None,
    }
}

/// The boolean that the document in `text` holds under `key`.
pub open spec fn flag_field(text: Seq<char>, key: Seq<char>) -> Option<bool> {
    match json_parsed(text) {
        Some(doc) => match json_member(doc, key) {
            Some(value) => json_flag(value),
            None => None,
        },
        None => None,
    }
}

/// Whether `serde_json` writes every character of `text` as it stands: none
/// is a control character, a quotation mark or a backslash.
pub open spec fn plain_text(text: Seq<char>) -> bool {
    forall|i: int|
        0 <= i < text.len() ==> 0x20 <= (#[trigger] text[i]) as u32 && text[i] != '"' && text[i]
            != '\\'
}

/// The JSON text of an object with one boolean member.
pub open spec fn flag_object_text(key: Seq<char>, flag: bool) -> Seq<char> {
    "{\""@ + key + "\":"@ + (if flag {
        "true"@
    } else {
        "false"@
    }) + "}"@
}

/// Calls `serde_json::to_string` on an object with the one member `key`,
/// a boolean. For a key that needs no escaping the writer puts out the
/// braces, the key in quotation marks, a colon and `true` or `false`, with
/// nothing in between; writing into memory, it does not fail.
#[verifier::external_body]
pub(crate) fn write_flag_object(key: &str, flag: bool) -> (r: Result<String, serde_json::Error>)
    requires
        plain_text(key@),
    ensures
        r is Ok,
        r is Ok ==> r->Ok_0@ == flag_object_text(key@, flag),
{
    let mut members = serde_json::Map::new();
    members.insert(key.to_owned(), serde_json::Value::Bool(flag));
    serde_json::to_string(&serde_json::Value::Object(members))
}

} // verus!
