//! Error types for PAY.JP API interactions.

use crate::text::{decimal_of, int_text};
use vstd::prelude::*;

verus! {

/// API error details returned by PAY.JP.
#[derive(Debug, Clone)]
pub struct ApiError {
    /// HTTP status code.
    pub status: u16,
    /// Error type (e.g. "card_error", "invalid_request_error").
    pub error_type: String,
    /// Human-readable error message.
    pub message: String,
    /// Specific error code, if any.
    pub code: Option<String>,
    /// Parameter that caused the error, if any.
    pub param: Option<String>,
}

/// Card-specific error details.
#[derive(Debug, Clone)]
pub struct CardError {
    /// Error code.
    pub code: String,
    /// Error message.
    pub message: String,
    /// Parameter that caused the error, if any.
    pub param: Option<String>,
}

/// The main error type for PAY.JP operations.
#[derive(Debug, Clone)]
pub enum PayjpError {
    /// API error returned by PAY.JP.
    Api(ApiError),
    /// Card-related error.
    Card(CardError),
    /// Authentication error (invalid API key, etc.).
    Auth(String),
    /// Rate limit exceeded (HTTP 429) after every allowed retry.
    RateLimit,
    /// Network or HTTP transport error.
    Network(String),
    /// Request or response body could not be encoded or decoded.
    Serialization(String),
    /// Invalid request (missing required parameters, etc.).
    InvalidRequest(String),
    /// URL parsing error.
    Url(String),
}

/// Result type for PAY.JP operations.
pub type PayjpResult<T> = Result<T, PayjpError>;

/// `" (<label>: <value>)"` when `value` is present, else nothing.
pub open spec fn optional_part(label: Seq<char>, value: Option<String>) -> Seq<char> {
    match value {
        Some(v) => " ("@ + label + ": "@ + v@ + ")"@,
        None => Seq::empty(),
    }
}

/// `[<status>] <type>: <message>`, then the code and the parameter if present.
pub open spec fn api_error_text(e: ApiError) -> Seq<char> {
    "["@ + decimal_of(e.status as int) + "] "@ + e.error_type@ + ": "@ + e.message@
        + optional_part("code"@, e.code) + optional_part("param"@, e.param)
}

/// `<code>: <message>`, then the parameter if present.
pub open spec fn card_error_text(e: CardError) -> Seq<char> {
    e.code@ + ": "@ + e.message@ + optional_part("param"@, e.param)
}

fn append_optional(out: &mut String, label: &str, value: &Option<String>)
    ensures
        final(out)@ == old(out)@ + optional_part(label@, *value),
{
    match value {
        Some(v) => {
            out.append(" (");
            out.append(label);
            out.append(": ");
            out.append(v.as_str());
            out.append(")");
            assert(final(out)@ == old(out)@ + optional_part(label@, *value));
        },
        None => {
            assert(old(out)@ + Seq::<char>::empty() == old(out)@);
        },
    }
}

impl ApiError {
    /// The human-readable form of the error.
    pub fn to_string(&self) -> (r: String)
        ensures
            r@ == api_error_text(*self),
    {
        let mut out = String::from_str("[");
        let status = int_text(self.status as i64);
        out.append(status.as_str());
        out.append("] ");
        out.append(self.error_type.as_str());
        out.append(": ");
        out.append(self.message.as_str());
        append_optional(&mut out, "code", &self.code);
        append_optional(&mut out, "param", &self.param);
        out
    }
}

impl CardError {
    /// The human-readable form of the error.
    pub fn to_string(&self) -> (r: String)
        ensures
            r@ == card_error_text(*self),
    {
        let mut out = self.code.clone();
        out.append(": ");
        out.append(self.message.as_str());
        append_optional(&mut out, "param", &self.param);
        out
    }
}

} // verus!
