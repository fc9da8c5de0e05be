//! The JSON boundary: every call into serde_json stands here, behind a
//! trusted contract, and hands the rest of the crate plain values only.

use vstd::prelude::*;
use crate::msg::{FieldVal, MsgView, RawMsg};

verus! {

/// The message a text frame decodes to — the five fields the protocol reads
/// — or nothing when the text is not well-formed JSON. The characters of the
/// text alone decide it.
pub uninterp spec fn decoded_msg(text: Seq<char>) -> Option<MsgView>;

/// Relies on serde_json::from_str to parse the text as one JSON document —
/// it returns a value or reports why the text is malformed, determined by
/// the characters alone — and on serde_json::Value::get and
/// serde_json::Value::as_i64 to read the five fields the protocol knows.
/// A missing field, like a non-object document, reads as null, exactly as
/// indexing a JSON object does; the other variants of serde_json::Value are
/// told apart directly, one arm each. Nothing here panics.
#[verifier::external_body]
pub(crate) fn decode_frame(text: &str) -> (r: Result<RawMsg, serde_json::Error>)
    ensures
        r matches Ok(m) ==> decoded_msg(text@) == Some(m@),
        r is Err <==> decoded_msg(text@) is None,
{
    let v: serde_json::Value = match serde_json::from_str(text) {
        Ok(v) => v,
        Err(e) => return Err(e),
    };
    let f = |key: &str| match v.get(key) {
        None | Some(serde_json::Value::Null) => FieldVal::Null,
        Some(serde_json::Value::String(s)) => FieldVal::Str(s.clone()),
        Some(other) => other.as_i64().map_or(FieldVal::Other, FieldVal::Int),
    };
    Ok(RawMsg { type_field: f("type"), id_field: f("id"), what_field: f("what"),
        text_field: f("text"), command_field: f("command") })
}

/// The JSON string literal that encodes a text: its characters alone decide it.
pub uninterp spec fn json_quoted(s: Seq<char>) -> Seq<char>;

/// Relies on serde_json::to_string on a `&str`: the JSON string literal for
/// the text, quoted and escaped. It depends on the characters alone, and it
/// cannot fail: serializing a string neither meets a non-string map key nor
/// a failing Serialize impl, the only documented error sources.
#[verifier::external_body]
pub(crate) fn quote_json_string(line: &str) -> (r: String)
    ensures
        r@ == json_quoted(line@),
{
    serde_json::to_string(line).unwrap()
}

} // verus!
