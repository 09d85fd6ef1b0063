//! JSON handling for the backend's HTTP surface. Parsing bytes into a
//! JSON value is delegated to serde_json behind trusted declarations;
//! every decision taken on what was parsed is verified over plain values.

use vstd::prelude::*;
use crate::http::{http_json_payload, parse_http_json_payload, raw_status_code_spec};
use crate::text::str_eq;

verus! {

#[verifier::external_type_specification]
#[verifier::external_body]
pub struct ExValue(serde_json::Value);

/// Whether `bytes` parse as one JSON value — a function of the bytes
/// alone, decided by serde_json.
pub uninterp spec fn json_parses(bytes: Seq<u8>) -> bool;

/// Relies on serde_json::from_slice::<Value>: parses bytes as a JSON
/// document; whether it succeeds depends on the bytes alone.
#[verifier::external_body]
fn json_from_slice(bytes: &[u8]) -> (r: Option<serde_json::Value>)
    ensures
        (r is Some) == json_parses(bytes@),
{
    serde_json::from_slice(bytes).ok()
}

/// Decodes a raw HTTP response into its JSON payload value: the head is
/// split off and its status checked, chunked framing is decoded, and the
/// remaining bytes are parsed as JSON. A response whose status lies
/// outside 200..300 yields `None` regardless of its body.
pub fn parse_http_json_response(raw: &[u8]) -> (r: Option<serde_json::Value>)
    ensures
        (r is Some) == (http_json_payload(raw@) matches Some(p) && json_parses(p)),
        raw_status_code_spec(raw@) matches Some(code) && !(200 <= code < 300) ==> r is None,
{
    match parse_http_json_payload(raw) {
        None => None,
        Some(payload) => json_from_slice(payload.as_slice()),
    }
}

/// What the identity-marker endpoint's JSON envelope carries, as plain
/// values: the `status` field, and the `data.start_time` number in its
/// signed and unsigned readings.
pub struct StatusEnvelope {
    pub status: Option<String>,
    pub start_time_signed: Option<i64>,
    pub start_time_unsigned: Option<u64>,
}

/// Relies on serde_json::Value::{get, as_str, as_i64, as_u64}: picks the
/// `status` string and the `data.start_time` number out of a JSON value,
/// field for field.
#[verifier::external_body]
fn status_envelope_of(payload: &serde_json::Value) -> StatusEnvelope {
    let start_time = payload.get("data").and_then(|data| data.get("start_time"));
    StatusEnvelope {
        status: payload.get("status").and_then(|s| s.as_str()).map(|s| s.to_string()),
        start_time_signed: start_time.and_then(|t| t.as_i64()),
        start_time_unsigned: start_time.and_then(|t| t.as_u64()),
    }
}

/// The start time a well-formed envelope carries: its `status` must be
/// `"ok"`, and `data.start_time` must be a number that fits a signed
/// 64-bit value.
pub open spec fn envelope_start_time(env: StatusEnvelope) -> Option<i64> {
    if !(env.status matches Some(s) && s@ == "ok"@) {
        None
    } else if env.start_time_signed is Some {
        env.start_time_signed
    } else if env.start_time_unsigned matches Some(u) && u <= i64::MAX as u64 {
        Some(env.start_time_unsigned->Some_0 as i64)
    } else {
        None
    }
}

/// Reads the identity marker out of an extracted envelope.
pub fn start_time_from_envelope(env: &StatusEnvelope) -> (r: Option<i64>)
    ensures
        r == envelope_start_time(*env),
{
    let ok = match &env.status {
        Some(s) => str_eq(s.as_str(), "ok"),
        None => false,
    };
    if !ok {
        return None;
    }
    if let Some(v) = env.start_time_signed {
        return Some(v);
    }
    if let Some(u) = env.start_time_unsigned {
        if u <= i64::MAX as u64 {
            return Some(u as i64);
        }
    }
    None
}

/// Extracts the backend's start-time identity marker from a decoded JSON
/// payload: `Some` exactly for the conventional `{status: "ok", data:
/// {start_time: n}}` envelope. The extraction of the fields is trusted;
/// the decision on the extracted values is `start_time_from_envelope`.
pub fn parse_backend_start_time(payload: &serde_json::Value) -> (r: Option<i64>) {
    let env = status_envelope_of(payload);
    start_time_from_envelope(&env)
}

} // verus!
