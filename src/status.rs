//! Interpretation of the HTTP status of a response.

use crate::error::{ApiError, PayjpError};
use crate::text::{decimal_of, int_text};
use vstd::prelude::*;

verus! {

/// Message of the error for HTTP 401.
pub const UNAUTHORIZED_MESSAGE: &'static str = "Invalid API key";

/// Error type of an API error whose body could not be parsed.
pub const UNKNOWN_ERROR_TYPE: &'static str = "unknown_error";

/// Text in place of the reason phrase of a status that has none.
pub const UNKNOWN_REASON: &'static str = "<unknown status code>";

/// The canonical reason phrase of a status code (`"Internal Server Error"`
/// for 500), if it has one.
pub uninterp spec fn canonical_reason_of(status: u16) -> Option<Seq<char>>;

/// The characters of an optional static text.
pub open spec fn str_option(t: Option<&'static str>) -> Option<Seq<char>> {
    match t {
        Some(s) => Some(s@),
        None => None,
    }
}

/// Relies on `reqwest::StatusCode::from_u16` and
/// `StatusCode::canonical_reason`: the reason phrase of a status code, and
/// none for a code outside `100..=999`.
#[verifier::external_body]
fn canonical_reason(status: u16) -> (r: Option<&'static str>)
    ensures
        str_option(r) == canonical_reason_of(status),
{
    match reqwest::StatusCode::from_u16(status) {
        Ok(code) => code.canonical_reason(),
        Err(_) => None,
    }
}

/// How a status code is written: its number, a space and its reason phrase,
/// or `<unknown status code>` when it has none.
pub open spec fn status_text(status: u16) -> Seq<char> {
    decimal_of(status as int) + " "@ + match canonical_reason_of(status) {
        Some(r) => r,
        None => UNKNOWN_REASON@,
    }
}

/// How a response is handled, by its status.
#[derive(Debug, Clone, Copy, PartialEq, Eq, Structural)]
pub enum ResponseClass {
    /// 200 or 201: the body is decoded as the expected value.
    Success,
    /// 429: rate limited, the attempt may be retried.
    RateLimited,
    /// 401: the key was refused.
    Unauthorized,
    /// Any other status: the body is parsed as a structured API error.
    Failure,
}

/// The class of a status code.
pub open spec fn class_of(status: u16) -> ResponseClass {
    if status == 200 || status == 201 {
        ResponseClass::Success
    } else if status == 429 {
        ResponseClass::RateLimited
    } else if status == 401 {
        ResponseClass::Unauthorized
    } else {
        ResponseClass::Failure
    }
}

/// Classifies a status code.
pub fn classify_status(status: u16) -> (r: ResponseClass)
    ensures
        r == class_of(status),
{
    if status == 200 || status == 201 {
        ResponseClass::Success
    } else if status == 429 {
        ResponseClass::RateLimited
    } else if status == 401 {
        ResponseClass::Unauthorized
    } else {
        ResponseClass::Failure
    }
}

/// The API error made up for a status whose body is not a structured error.
pub open spec fn is_unknown_error_for(e: ApiError, status: u16) -> bool {
    &&& e.status == status
    &&& e.error_type@ == UNKNOWN_ERROR_TYPE@
    &&& e.message@ == "HTTP error: "@ + status_text(status)
    &&& e.code is None
    &&& e.param is None
}

/// The API error for a status whose body could not be parsed.
pub fn unknown_api_error(status: u16) -> (r: ApiError)
    ensures
        is_unknown_error_for(r, status),
{
    let mut message = String::from_str("HTTP error: ");
    let digits = int_text(status as i64);
    message.append(digits.as_str());
    message.append(" ");
    match canonical_reason(status) {
        Some(reason) => message.append(reason),
        None => message.append(UNKNOWN_REASON),
    }
    assert(message@ =~= "HTTP error: "@ + status_text(status));
    ApiError {
        status,
        error_type: String::from_str(UNKNOWN_ERROR_TYPE),
        message,
        code: None,
        param: None,
    }
}

/// The error for a response that is not a success, given the structured
/// error parsed from its body, if any (the body of a 401 or a 429 is not
/// read).
pub fn status_failure(status: u16, parsed: Option<ApiError>) -> (r: PayjpError)
    requires
        class_of(status) != ResponseClass::Success,
    ensures
        status == 429 ==> r == PayjpError::RateLimit,
        status == 401 ==> (r matches PayjpError::Auth(m) && m@ == UNAUTHORIZED_MESSAGE@),
        class_of(status) == ResponseClass::Failure ==> match parsed {
            Some(e) => r == PayjpError::Api(e),
            None => r matches PayjpError::Api(e) && is_unknown_error_for(e, status),
        },
{
    match classify_status(status) {
        ResponseClass::RateLimited => PayjpError::RateLimit,
        ResponseClass::Unauthorized => PayjpError::Auth(String::from_str(UNAUTHORIZED_MESSAGE)),
        _ => match parsed {
            Some(e) => PayjpError::Api(e),
            None => PayjpError::Api(unknown_api_error(status)),
        },
    }
}

} // verus!
