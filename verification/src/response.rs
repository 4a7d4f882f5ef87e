//! The response of one HTTP exchange: a status code and a raw body, with safe
//! accessors for reading a named JSON field out of the body.
//!
//! JSON parsing itself is the work of an outside crate; this module states
//! what the accessors return and leaves the parsing behind trusted wrappers.

use vstd::prelude::*;
use vstd::string::StringExecFns;

use crate::error::ApiError;

verus! {

/// The named top-level field of the JSON body, when the body is well-formed
/// JSON whose top level holds that field as a string. What this is on given
/// bytes is decided by the JSON grammar; the library does not restate it.
pub uninterp spec fn json_string_field_of(body: Seq<u8>, field: Seq<char>) -> Option<Seq<char>>;

/// The named top-level field of the JSON body, when the body is well-formed
/// JSON whose top level holds that field as a boolean.
pub uninterp spec fn json_bool_field_of(body: Seq<u8>, field: Seq<char>) -> Option<bool>;

/// The bytes decoded as UTF-8, with invalid sequences replaced; a function of
/// the bytes alone.
pub uninterp spec fn utf8_lossy_of(bytes: Seq<u8>) -> Seq<char>;

/// Relies on `serde_json::from_slice::<Value>`, `Value::get` and
/// `Value::as_str`: parsing is a function of the bytes alone, `get` looks the
/// field up in a top-level object, and `as_str` returns the value only when
/// it is a JSON string.
#[verifier::external_body]
fn json_string_field(body: &Vec<u8>, field: &str) -> (r: Option<String>)
    ensures
        r.deep_view() == json_string_field_of(body@, field@),
{
    match serde_json::from_slice::<serde_json::Value>(body.as_slice()) {
        Ok(value) => match value.get(field) {
            Some(f) => match f.as_str() {
                Some(s) => Some(s.to_string()),
                None => None,
            },
            None => None,
        },
        Err(_) => None,
    }
}

/// Relies on `serde_json::from_slice::<Value>`, `Value::get` and
/// `Value::as_bool`: as [`json_string_field`], for a boolean-valued field.
#[verifier::external_body]
fn json_bool_field(body: &Vec<u8>, field: &str) -> (r: Option<bool>)
    ensures
        r == json_bool_field_of(body@, field@),
{
    match serde_json::from_slice::<serde_json::Value>(body.as_slice()) {
        Ok(value) => match value.get(field) {
            Some(f) => f.as_bool(),
            None => None,
        },
        Err(_) => None,
    }
}

/// Relies on `String::from_utf8_lossy`: the result is a function of the bytes
/// alone.
#[verifier::external_body]
fn utf8_lossy(bytes: &Vec<u8>) -> (r: String)
    ensures
        r@ == utf8_lossy_of(bytes@),
{
    String::from_utf8_lossy(bytes.as_slice()).into_owned()
}

/// The response of one HTTP exchange: the status code the remote answered
/// with, and the raw body it sent. Never mutated after construction.
#[derive(Clone, Debug, PartialEq, Eq)]
pub struct ApiResponse {
    pub status_code: u16,
    pub body: Vec<u8>,
}

impl ApiResponse {
    /// Holds when the remote reported logical success for the exchange.
    pub open spec fn spec_succeeded(&self) -> bool {
        200 <= self.status_code < 300
    }

    /// Creates a response from a status code and a body.
    pub fn new(status_code: u16, body: Vec<u8>) -> (r: Self)
        ensures
            r.status_code == status_code,
            r.body@ == body@,
    {
        ApiResponse { status_code, body }
    }

    /// The HTTP status code the remote answered with.
    pub fn status_code(&self) -> (r: u16)
        ensures
            r == self.status_code,
    {
        self.status_code
    }

    /// Whether the remote reported a success status for the exchange.
    pub fn succeeded(&self) -> (r: bool)
        ensures
            r == self.spec_succeeded(),
    {
        200 <= self.status_code && self.status_code < 300
    }

    /// The body decoded as text.
    pub fn body_as_string(&self) -> (r: String)
        ensures
            r@ == utf8_lossy_of(self.body@),
    {
        utf8_lossy(&self.body)
    }

    /// The named top-level JSON field of the body, when present and
    /// string-typed; `None` on a malformed body, a missing field, or a field
    /// of another type.
    pub fn json_value_as_string(&self, field: &str) -> (r: Option<String>)
        ensures
            r.deep_view() == json_string_field_of(self.body@, field@),
    {
        json_string_field(&self.body, field)
    }

    /// The named top-level JSON field of the body, when present and
    /// boolean-typed.
    pub fn json_value_as_bool(&self, field: &str) -> (r: Option<bool>)
        ensures
            r == json_bool_field_of(self.body@, field@),
    {
        json_bool_field(&self.body, field)
    }
}

/// The message of the protocol error reported when a response that was
/// expected to carry a job id does not: it names the URL the response came
/// from.
pub open spec fn invalid_json_message(url: Seq<char>) -> Seq<char> {
    url + " returned invalid JSON response"@
}

/// Extracts the job id a submission response carries in its "id" field; a
/// response without one is a protocol error naming the submission URL.
pub fn job_id_from_response(response: &ApiResponse, url: &str) -> (r: Result<String, ApiError>)
    ensures
        json_string_field_of(response.body@, "id"@) matches Some(s) ==> (r matches Ok(id)
            && id@ == s),
        json_string_field_of(response.body@, "id"@) is None ==> (r matches Err(e)
            && e matches ApiError::Protocol(m) && m@ == invalid_json_message(url@)),
{
    match response.json_value_as_string("id") {
        Some(id) => Ok(id),
        None => Err(
            ApiError::Protocol(url.to_string().concat(" returned invalid JSON response")),
        ),
    }
}

} // verus!
