//! The error taxonomy of the API core and its mapping to HTTP status
//! codes. Bad-username and bad-password outcomes share one class so a
//! caller cannot tell which half of a credential pair was wrong.

use vstd::prelude::*;

verus! {

/// Every failure the core can report.
#[derive(Clone, Copy, Debug, PartialEq, Eq, Structural)]
pub enum ApiError {
    /// Unknown username or wrong password, indistinguishable on purpose.
    InvalidCredentials,
    /// Missing, malformed, tampered, or expired token.
    Unauthorized,
    /// Resource or relation target absent.
    NotFound,
    /// Malformed request shape, rejected before the core runs.
    ValidationError,
    /// Unique-constraint violation surfaced from a storage race.
    Conflict,
    /// Store unreachable or hashing failure.
    InternalError,
}

/// The HTTP status that the serving layer reports for each error class.
pub open spec fn spec_status_code(e: ApiError) -> u16 {
    match e {
        ApiError::InvalidCredentials => 401,
        ApiError::Unauthorized => 401,
        ApiError::NotFound => 404,
        ApiError::ValidationError => 400,
        ApiError::Conflict => 409,
        ApiError::InternalError => 500,
    }
}

/// Maps an error class to its HTTP status code; both credential and token
/// failures map to the same generic 401.
pub fn status_code(e: &ApiError) -> (r: u16)
    ensures
        r == spec_status_code(*e),
{
    match e {
        ApiError::InvalidCredentials => 401,
        ApiError::Unauthorized => 401,
        ApiError::NotFound => 404,
        ApiError::ValidationError => 400,
        ApiError::Conflict => 409,
        ApiError::InternalError => 500,
    }
}

} // verus!
