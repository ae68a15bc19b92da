//! Cross-site request forgery protection with a static header token.

use vstd::prelude::*;
use crate::middleware::validation::Rejection;
use crate::text::str_eq;

verus! {

/// The header that carries the token.
pub const CSRF_HEADER: &'static str = "X-CSRF-Token";

/// The value the header must hold.
pub const CSRF_EXPECTED_VALUE: &'static str = "speicherwald-api-request";

/// Whether requests with this method change state (POST, PUT, DELETE, PATCH).
pub open spec fn is_state_changing(method: Seq<char>) -> bool {
    method == "POST"@ || method == "PUT"@ || method == "DELETE"@ || method == "PATCH"@
}

/// The token is valid when the header is present, readable as text, and
/// holds exactly `speicherwald-api-request`.
pub fn validate_csrf_token(header: Option<&str>) -> (r: bool)
    ensures
        r == (header matches Some(h) && h@ == CSRF_EXPECTED_VALUE@),
{
    match header {
        Some(h) => str_eq(h, CSRF_EXPECTED_VALUE),
        None => false,
    }
}

/// The decision for a request: state-changing methods need a valid token;
/// others pass. A refusal is 403 `CSRF_TOKEN_MISSING`.
pub fn csrf_check(method: &str, header: Option<&str>) -> (r: Result<(), Rejection>)
    ensures
        match r {
            Ok(()) => !is_state_changing(method@) || (header matches Some(h) && h@
                == CSRF_EXPECTED_VALUE@),
            Err(e) => is_state_changing(method@) && !(header matches Some(h) && h@
                == CSRF_EXPECTED_VALUE@) && e.status == 403 && e.code@ == "CSRF_TOKEN_MISSING"@
                && e.message@
                == "CSRF token required. Include 'X-CSRF-Token' header with value 'speicherwald-api-request'"@
                && e.body_has_status,
        },
{
    let changing = str_eq(method, "POST") || str_eq(method, "PUT") || str_eq(method, "DELETE")
        || str_eq(method, "PATCH");
    if changing && !validate_csrf_token(header) {
        return Err(
            Rejection {
                status: 403,
                code: String::from_str("CSRF_TOKEN_MISSING"),
                message: String::from_str(
                    "CSRF token required. Include 'X-CSRF-Token' header with value 'speicherwald-api-request'",
                ),
                body_has_status: true,
            },
        );
    }
    Ok(())
}

} // verus!
