//! Decoding of JSON text, through serde_json.

use vstd::prelude::*;

verus! {

#[verifier::external_type_specification]
#[verifier::external_body]
pub struct ExValue(serde_json::Value);

/// Whether `text` is one well-formed JSON document, as serde_json judges it.
pub uninterp spec fn is_json(text: Seq<char>) -> bool;

/// Relies on `serde_json::from_str::<serde_json::Value>`: it succeeds exactly when
/// the text is one well-formed JSON document, and the error is rendered as text.
#[verifier::external_body]
pub(crate) fn parse_json(text: &str) -> (r: Result<serde_json::Value, String>)
    ensures
        r is Ok <==> is_json(text@),
{
    serde_json::from_str::<serde_json::Value>(text).map_err(|e| e.to_string())
}

} // verus!
