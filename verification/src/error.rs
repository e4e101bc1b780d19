//! The error type of the client, and the text that describes each error.

use crate::text::{decimal_i64, decimal_text};
use vstd::prelude::*;
use vstd::string::*;

verus! {

#[verifier::external_type_specification]
#[verifier::external_body]
pub struct ExTransportError(reqwest::Error);

#[verifier::external_type_specification]
#[verifier::external_body]
pub struct ExJsonError(serde_json::Error);

/// What can go wrong in a call. Nothing is retried or swallowed: each failure
/// reaches the caller as one of these.
#[derive(Debug)]
pub enum BybitError {
    /// The transport failed: no connection, or no complete response.
    RequestError(reqwest::Error),
    /// The exchange answered with a code other than zero. Code and message are
    /// those of the response, unchanged.
    ApiError { ret_code: i32, ret_msg: String },
    InvalidTimestamp(String),
    /// The response body is not JSON of the expected shape.
    SerializationError(serde_json::Error),
    /// A value cannot be sent, such as an API key that no header can hold.
    InvalidParameter(String),
    AuthenticationError(String),
    RateLimitExceeded { limit_type: String, limit_reset_ms: Option<u64> },
    InvalidEnumValue { enum_name: String, value: String },
    MissingRequiredField { field_name: String },
}

pub type Result<T> = std::result::Result<T, BybitError>;

/// Whether `text` begins with `prefix`.
pub open spec fn starts_with(text: Seq<char>, prefix: Seq<char>) -> bool {
    prefix.len() <= text.len() && text.subrange(0, prefix.len() as int) == prefix
}

/// Whether `text` describes `error`. For the two errors that come from
/// outside, the text is fixed up to the outside error's own words.
pub open spec fn describes(error: BybitError, text: Seq<char>) -> bool {
    match error {
        BybitError::RequestError(_) => starts_with(text, "HTTP request failed: "@),
        BybitError::ApiError { ret_code, ret_msg } => text == "API error (code "@ + decimal_text(
            ret_code as int,
        ) + "): "@ + ret_msg@,
        BybitError::InvalidTimestamp(msg) => text == "Invalid timestamp: "@ + msg@,
        BybitError::SerializationError(_) => starts_with(text, "Serialization error: "@),
        BybitError::InvalidParameter(msg) => text == "Invalid parameter: "@ + msg@,
        BybitError::AuthenticationError(msg) => text == "Authentication failed: "@ + msg@,
        BybitError::RateLimitExceeded { limit_type, limit_reset_ms } => text
            == "Rate limit exceeded: "@ + limit_type@,
        BybitError::InvalidEnumValue { enum_name, value } => text == "Invalid enum value for "@
            + enum_name@ + ": "@ + value@,
        BybitError::MissingRequiredField { field_name } => text == "Missing required field: "@
            + field_name@,
    }
}

/// The words of a transport error, by its `Display` in reqwest. They depend on
/// what happened, so nothing is stated of them.
#[verifier::external_body]
fn transport_error_text(error: &reqwest::Error) -> String {
    error.to_string()
}

/// The words of a JSON error, by its `Display` in serde_json. They depend on
/// where parsing stopped, so nothing is stated of them.
#[verifier::external_body]
fn json_error_text(error: &serde_json::Error) -> String {
    error.to_string()
}

/// `prefix` followed by `rest`.
fn prefixed(prefix: &str, rest: &str) -> (text: String)
    ensures
        text@ == prefix@ + rest@,
        starts_with(text@, prefix@),
{
    let mut text = String::from_str(prefix);
    text.append(rest);
    assert(text@.subrange(0, prefix@.len() as int) =~= prefix@);
    text
}

impl BybitError {
    /// The text that describes this error to a reader.
    pub fn message(&self) -> (text: String)
        ensures
            describes(*self, text@),
    {
        match self {
            BybitError::RequestError(e) => {
                let inner = transport_error_text(e);
                prefixed("HTTP request failed: ", inner.as_str())
            },
            BybitError::ApiError { ret_code, ret_msg } => {
                let mut text = String::from_str("API error (code ");
                let code = decimal_i64(*ret_code as i64);
                text.append(code.as_str());
                text.append("): ");
                text.append(ret_msg.as_str());
                text
            },
            BybitError::InvalidTimestamp(msg) => prefixed("Invalid timestamp: ", msg.as_str()),
            BybitError::SerializationError(e) => {
                let inner = json_error_text(e);
                prefixed("Serialization error: ", inner.as_str())
            },
            BybitError::InvalidParameter(msg) => prefixed("Invalid parameter: ", msg.as_str()),
            BybitError::AuthenticationError(msg) => prefixed(
                "Authentication failed: ",
                msg.as_str(),
            ),
            BybitError::RateLimitExceeded { limit_type, .. } => prefixed(
                "Rate limit exceeded: ",
                limit_type.as_str(),
            ),
            BybitError::InvalidEnumValue { enum_name, value } => {
                let mut text = String::from_str("Invalid enum value for ");
                text.append(enum_name.as_str());
                text.append(": ");
                text.append(value.as_str());
                text
            },
            BybitError::MissingRequiredField { field_name } => prefixed(
                "Missing required field: ",
                field_name.as_str(),
            ),
        }
    }
}

impl From<reqwest::Error> for BybitError {
    fn from(error: reqwest::Error) -> (converted: BybitError) {
        BybitError::RequestError(error)
    }
}

impl vstd::std_specs::convert::FromSpecImpl<reqwest::Error> for BybitError {
    open spec fn obeys_from_spec() -> bool {
        true
    }

    open spec fn from_spec(error: reqwest::Error) -> BybitError {
        BybitError::RequestError(error)
    }
}

impl From<serde_json::Error> for BybitError {
    fn from(error: serde_json::Error) -> (converted: BybitError) {
        BybitError::SerializationError(error)
    }
}

impl vstd::std_specs::convert::FromSpecImpl<serde_json::Error> for BybitError {
    open spec fn obeys_from_spec() -> bool {
        true
    }

    open spec fn from_spec(error: serde_json::Error) -> BybitError {
        BybitError::SerializationError(error)
    }
}

} // verus!
