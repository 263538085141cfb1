//! Untyped JSON values: the payload a builder carries and the untyped
//! decoding of a response body. The values themselves are opaque; only
//! how they are carried and how failures are mapped is stated.

use vstd::prelude::*;
use crate::error::SupabasicError;

verus! {

#[verifier::external_type_specification]
#[verifier::external_body]
pub struct ExValue(serde_json::Value);

/// Whether a text parses as JSON, as serde_json decides it. The outcome
/// is a function of the text alone.
pub uninterp spec fn json_parses(s: Seq<char>) -> bool;

/// Relies on serde_json::from_str::<Value>: parses a text as JSON; it
/// succeeds exactly on the texts serde_json accepts as JSON.
#[verifier::external_body]
pub(crate) fn parse_json(s: &str) -> (r: Result<serde_json::Value, serde_json::Error>)
    ensures
        r is Ok <==> json_parses(s@),
{
    serde_json::from_str(s)
}

/// Maps the outcome of a JSON parse to the library's error type: a parsed
/// value passes through unchanged, a parse failure becomes a Json error.
pub fn json_result_to_value(r: Result<serde_json::Value, serde_json::Error>) -> (out: Result<
    serde_json::Value,
    SupabasicError,
>)
    ensures
        r matches Ok(v) ==> out == Ok::<serde_json::Value, SupabasicError>(v),
        r matches Err(e) ==> out == Err::<serde_json::Value, SupabasicError>(
            SupabasicError::Json(e),
        ),
{
    match r {
        Ok(v) => Ok(v),
        Err(e) => Err(SupabasicError::Json(e)),
    }
}

/// Decodes a response body into an untyped JSON value: it succeeds
/// exactly on the bodies that parse as JSON, and a body that does not
/// yields the Json error, never a panic.
pub fn decode_value(body: &str) -> (out: Result<serde_json::Value, SupabasicError>)
    ensures
        out is Ok <==> json_parses(body@),
        out matches Err(e) ==> e is Json,
{
    json_result_to_value(parse_json(body))
}

} // verus!
