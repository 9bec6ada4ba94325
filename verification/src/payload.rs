//! The backend payload boundary: response bodies are parsed as JSON behind
//! a trusted wrapper, and everything downstream of the parse is verified.

use vstd::prelude::*;
use crate::error::AdapterError;
use crate::error::decode_failure;

verus! {

#[verifier::external_type_specification]
#[verifier::external_body]
pub struct ExValue(serde_json::Value);

#[verifier::external_type_specification]
#[verifier::external_body]
pub struct ExJsonError(serde_json::Error);

/// Whether `serde_json` accepts `bytes` as one complete JSON document.
pub uninterp spec fn json_ok(bytes: Seq<u8>) -> bool;

/// Relies on serde_json::from_slice::<Value>: it is deterministic in the
/// bytes, and returns Ok exactly when the bytes form one complete JSON
/// document.
#[verifier::external_body]
fn parse_json(bytes: &[u8]) -> (r: Result<serde_json::Value, serde_json::Error>)
    ensures
        (r is Ok <==> json_ok(bytes@)),
{
    serde_json::from_slice(bytes)
}

/// Relies on serde_json::Error's Display impl for the diagnostic text of a
/// parse failure; nothing is assumed of the text.
#[verifier::external_body]
fn json_error_text(e: &serde_json::Error) -> String {
    e.to_string()
}

/// Parse one response body. A body that is not valid JSON becomes a
/// `DecodeFailure` — never a transport failure — whatever the HTTP status
/// was.
pub fn decode_body(bytes: &[u8]) -> (r: Result<serde_json::Value, AdapterError>)
    ensures
        (r is Ok <==> json_ok(bytes@)),
        (r matches Err(e) ==> e is DecodeFailure),
{
    match parse_json(bytes) {
        Ok(v) => forward_payload(v),
        Err(e) => {
            let reason = json_error_text(&e);
            Err(decode_failure(reason))
        },
    }
}

/// A successful backend payload is handed on exactly as parsed: no field is
/// filtered, nothing is rewritten.
pub fn forward_payload(v: serde_json::Value) -> (r: Result<serde_json::Value, AdapterError>)
    ensures
        (r matches Ok(out) && out == v),
{
    Ok(v)
}

} // verus!
