//! HTTP status codes, held as their numeric value.
use vstd::prelude::*;

verus! {

pub const OK: u16 = 200;
pub const SEE_OTHER: u16 = 303;
pub const BAD_REQUEST: u16 = 400;
pub const UNAUTHORIZED: u16 = 401;
pub const FORBIDDEN: u16 = 403;
pub const NOT_FOUND: u16 = 404;
pub const INTERNAL_SERVER_ERROR: u16 = 500;
pub const BAD_GATEWAY: u16 = 502;

/// A status code that `http::StatusCode` can hold.
pub open spec fn valid_status(code: u16) -> bool {
    100 <= code <= 999
}

/// `StatusCode::is_success`: 200 to 299.
pub open spec fn spec_is_success(code: u16) -> bool {
    200 <= code < 300
}

/// `StatusCode::is_redirection`: 300 to 399.
pub open spec fn spec_is_redirection(code: u16) -> bool {
    300 <= code < 400
}

pub fn is_success(code: u16) -> (b: bool)
    ensures
        b == spec_is_success(code),
{
    200 <= code && code < 300
}

pub fn is_redirection(code: u16) -> (b: bool)
    ensures
        b == spec_is_redirection(code),
{
    300 <= code && code < 400
}

/// How `http::StatusCode` displays the code `code` (its number and
/// canonical reason).
pub uninterp spec fn status_code_text(code: u16) -> Seq<char>;

/// Calls `http::StatusCode::from_u16` and its `Display`: for a code from 100
/// to 999 the conversion succeeds, and the text is named `status_code_text`.
#[verifier::external_body]
pub(crate) fn status_text(code: u16) -> (s: String)
    requires
        valid_status(code),
    ensures
        s@ == status_code_text(code),
{
    match http::StatusCode::from_u16(code) {
        Ok(c) => c.to_string(),
        Err(_) => String::new(),
    }
}

} // verus!
