//! The line format of the append-only audit log.

use vstd::prelude::*;

verus! {

/// Whether a text parses as exactly one JSON value.
pub uninterp spec fn parses_as_json(s: Seq<char>) -> bool;

/// Relies on `serde_json::from_str::<serde_json::Value>`: it succeeds exactly
/// when the text is one JSON value, a fact of the text alone.
#[verifier::external_body]
fn json_parses(line: &str) -> (r: bool)
    ensures
        r == parses_as_json(line@),
{
    serde_json::from_str::<serde_json::Value>(line).is_ok()
}

/// Handler of the newline-delimited log: one complete artifact per line.
pub struct Ndjson;

impl Ndjson {
    /// The syntactic check made on a line before it is appended,
    /// independent of what the artifact's invariants say.
    pub fn is_valid_json(line: &str) -> (r: bool)
        ensures
            r == parses_as_json(line@),
    {
        json_parses(line)
    }
}

} // verus!
