//! JSON documents: the value type, and parsing a response body into it.

use vstd::prelude::*;

verus! {

#[verifier::external_type_specification]
#[verifier::external_body]
pub struct ExJsonValue(serde_json::Value);

/// What parsing `body` as one JSON document gives: the value, or the text
/// of the parse error.
pub uninterp spec fn parsed_json(body: Seq<u8>) -> Result<serde_json::Value, Seq<char>>;

/// Parses `body` with `serde_json::from_slice`; a parse error is handed back
/// as the text that its `Display` impl gives.
///
/// Not proved: that value and error text are `parsed_json(body)`, the name
/// this crate gives to the outcome of that parser, which depends on the bytes
/// alone.
#[verifier::external_body]
pub(crate) fn parse_json(body: &[u8]) -> (parsed: Result<serde_json::Value, String>)
    ensures
        (match parsed {
            Ok(value) => parsed_json(body@) == Ok::<serde_json::Value, Seq<char>>(value),
            Err(cause) => parsed_json(body@) == Err::<serde_json::Value, Seq<char>>(cause@),
        }),
{
    match serde_json::from_slice::<serde_json::Value>(body) {
        Ok(value) => Ok(value),
        Err(error) => Err(error.to_string()),
    }
}

} // verus!
