//! Reading fields out of the worker's JSON response bodies.
//!
//! The worker answers the initialize call with a JSON object carrying the
//! task token under `uuid`, and the info call with an object carrying the
//! task's status code under `status`.`code`. Parsing is delegated to an
//! outside JSON library; what each extraction returns is named below and
//! the orchestrator's contracts are stated over those names.

use vstd::prelude::*;
use crate::errors::OrchestratorError;
use crate::status::TaskStatus;
use crate::status::status_of;
use crate::status::classify_status;

verus! {

/// The string value of the top-level field `field` of the JSON document
/// `body`, if `body` parses as a JSON object with such a field and the
/// field holds a string; the result depends on `body` and `field` alone.
pub uninterp spec fn json_string_field_of(body: Seq<u8>, field: Seq<char>) -> Option<Seq<char>>;

/// Relies on serde_json::from_slice (parsing a byte string is a pure
/// function of its contents), serde_json::Value::get (field lookup in an
/// object) and serde_json::Value::as_str (the field's value if it is a
/// string).
#[verifier::external_body]
fn json_string_field(body: &Vec<u8>, field: &str) -> (r: Option<String>)
    ensures
        (r is Some) == (json_string_field_of(body@, field@) is Some),
        r matches Some(s) ==> json_string_field_of(body@, field@) == Some(s@),
{
    let v: serde_json::Value = match serde_json::from_slice(body) {
        Ok(v) => v,
        Err(_) => return None,
    };
    match v.get(field) {
        Some(f) => f.as_str().map(|s| s.to_string()),
        None => None,
    }
}

/// The integer value of the field `outer`.`inner` of the JSON document
/// `body`, if `body` parses as a JSON object whose field `outer` is an
/// object whose field `inner` holds an integer representable as `i64`;
/// the result depends on `body`, `outer` and `inner` alone.
pub uninterp spec fn json_i64_field2_of(body: Seq<u8>, outer: Seq<char>, inner: Seq<char>) -> Option<
    i64,
>;

/// Relies on serde_json::from_slice, serde_json::Value::get and
/// serde_json::Value::as_i64 (the field's value if it is an integer that
/// fits in an `i64`).
#[verifier::external_body]
fn json_i64_field2(body: &Vec<u8>, outer: &str, inner: &str) -> (r: Option<i64>)
    ensures
        r == json_i64_field2_of(body@, outer@, inner@),
{
    let v: serde_json::Value = match serde_json::from_slice(body) {
        Ok(v) => v,
        Err(_) => return None,
    };
    let o = match v.get(outer) {
        Some(o) => o,
        None => return None,
    };
    let c = match o.get(inner) {
        Some(c) => c,
        None => return None,
    };
    c.as_i64()
}

/// The task token carried by an initialize response body, if any: the
/// string value of the body's `uuid` field.
pub open spec fn token_of_init_body(body: Seq<u8>) -> Option<Seq<char>> {
    json_string_field_of(body, "uuid"@)
}

/// Extract the task token from the initialize response body. A body
/// without a string `uuid` field is an unexpected response shape.
pub fn token_from_init_body(body: &Vec<u8>) -> (r: Result<String, OrchestratorError>)
    ensures
        token_of_init_body(body@) matches Some(t) ==> (r matches Ok(s) && s@ == t),
        token_of_init_body(body@) is None ==> r == Err::<String, OrchestratorError>(
            OrchestratorError::UnexpectedResponseShape,
        ),
{
    match json_string_field(body, "uuid") {
        Some(s) => Ok(s),
        None => Err(OrchestratorError::UnexpectedResponseShape),
    }
}

/// The status code carried by an info response body, if any: the integer
/// value of the body's `status`.`code` field.
pub open spec fn code_of_info_body(body: Seq<u8>) -> Option<i64> {
    json_i64_field2_of(body, "status"@, "code"@)
}

/// Read the task's status out of an info response body: the code at
/// `status`.`code`, classified; a missing or non-integer code counts as
/// an unrecognized state.
pub fn status_from_info_body(body: &Vec<u8>) -> (s: TaskStatus)
    ensures
        s == status_of(code_of_info_body(body@)),
{
    classify_status(json_i64_field2(body, "status", "code"))
}

} // verus!
