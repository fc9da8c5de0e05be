//! Outbound wire messages: the two frames the client ever sends, built
//! around the JSON string literal for the caller's text.

use vstd::prelude::*;
use crate::jsonio::{json_quoted, quote_json_string};

verus! {

/// The wire message carrying one structured query:
/// `{"type":"tt","code":<the text, JSON-quoted>}`.
pub open spec fn thingtalk_wire(line: Seq<char>) -> Seq<char> {
    "{\"type\":\"tt\",\"code\":"@ + json_quoted(line) + "}"@
}

/// The wire message carrying one free-text command:
/// `{"type":"command","text":<the text, JSON-quoted>}`.
pub open spec fn command_wire(line: Seq<char>) -> Seq<char> {
    "{\"type\":\"command\",\"text\":"@ + json_quoted(line) + "}"@
}

/// Encodes one structured query as the exact frame the wire carries.
pub fn encode_thingtalk(line: &str) -> (r: String)
    ensures
        r@ == thingtalk_wire(line@),
{
    let mut out = String::from_str("{\"type\":\"tt\",\"code\":");
    let quoted = quote_json_string(line);
    out.append(quoted.as_str());
    out.append("}");
    proof {
        assert(out@ =~= thingtalk_wire(line@));
    }
    out
}

/// Encodes one free-text command as the exact frame the wire carries.
pub fn encode_command(line: &str) -> (r: String)
    ensures
        r@ == command_wire(line@),
{
    let mut out = String::from_str("{\"type\":\"command\",\"text\":");
    let quoted = quote_json_string(line);
    out.append(quoted.as_str());
    out.append("}");
    proof {
        assert(out@ =~= command_wire(line@));
    }
    out
}

} // verus!
