//! Error kinds returned by the library and their fixed HTTP status mapping.

use vstd::prelude::*;

verus! {

/// The error kinds every handler code path resolves to.  The mapping to HTTP
/// status codes is fixed: validation and payload-shape errors are 400,
/// authentication failures 401, missing scopes 403, unknown names or ids 404,
/// conflicting writes 409, an unavailable backing store 503, anything else 500.
#[derive(Debug)]
pub enum ApiError {
    Validation(String),
    BadRequest(String),
    Unauthorized(String),
    Forbidden(String),
    NotFound(String),
    Conflict(String),
    ServiceUnavailable(String),
    Internal(String),
}

impl ApiError {
    /// The HTTP status code this error kind maps to.
    pub fn status_code(&self) -> (code: u16)
        ensures
            code == self.spec_status_code(),
    {
        match self {
            ApiError::Validation(_) => 400,
            ApiError::BadRequest(_) => 400,
            ApiError::Unauthorized(_) => 401,
            ApiError::Forbidden(_) => 403,
            ApiError::NotFound(_) => 404,
            ApiError::Conflict(_) => 409,
            ApiError::ServiceUnavailable(_) => 503,
            ApiError::Internal(_) => 500,
        }
    }

    pub open spec fn spec_status_code(&self) -> u16 {
        match self {
            ApiError::Validation(_) => 400u16,
            ApiError::BadRequest(_) => 400u16,
            ApiError::Unauthorized(_) => 401u16,
            ApiError::Forbidden(_) => 403u16,
            ApiError::NotFound(_) => 404u16,
            ApiError::Conflict(_) => 409u16,
            ApiError::ServiceUnavailable(_) => 503u16,
            ApiError::Internal(_) => 500u16,
        }
    }

    /// The message carried by the error.
    pub fn message(&self) -> (m: &String)
        ensures
            m@ == self.spec_message(),
    {
        match self {
            ApiError::Validation(m) => m,
            ApiError::BadRequest(m) => m,
            ApiError::Unauthorized(m) => m,
            ApiError::Forbidden(m) => m,
            ApiError::NotFound(m) => m,
            ApiError::Conflict(m) => m,
            ApiError::ServiceUnavailable(m) => m,
            ApiError::Internal(m) => m,
        }
    }

    pub open spec fn spec_message(&self) -> Seq<char> {
        match self {
            ApiError::Validation(m) => m@,
            ApiError::BadRequest(m) => m@,
            ApiError::Unauthorized(m) => m@,
            ApiError::Forbidden(m) => m@,
            ApiError::NotFound(m) => m@,
            ApiError::Conflict(m) => m@,
            ApiError::ServiceUnavailable(m) => m@,
            ApiError::Internal(m) => m@,
        }
    }
}

/// Builds the validation error used by the payload validators.
pub fn validation_error(message: &str) -> (e: ApiError)
    ensures
        e matches ApiError::Validation(m) && m@ == message@,
{
    ApiError::Validation(String::from_str(message))
}

/// Failures of the bearer-token authentication layer.
#[derive(Debug)]
pub enum AuthError {
    MissingBearer,
    MalformedBearer,
    TokenNotFound,
    InactiveToken,
    ExpiredToken,
    Forbidden,
    Persistence(String),
}

/// Maps an authentication failure to the API error the HTTP layer returns:
/// every way a bearer token can fail to authenticate is 401, a missing scope
/// is 403, and a failing backing store is 503 so that callers may retry.
pub fn map_auth_error(err: AuthError) -> (e: ApiError)
    ensures
        match err {
            AuthError::MissingBearer
            | AuthError::MalformedBearer
            | AuthError::TokenNotFound
            | AuthError::InactiveToken
            | AuthError::ExpiredToken => e is Unauthorized,
            AuthError::Forbidden => e is Forbidden,
            AuthError::Persistence(_) => e is ServiceUnavailable,
        },
{
    match err {
        AuthError::MissingBearer => {
            ApiError::Unauthorized(String::from_str("missing bearer token"))
        },
        AuthError::MalformedBearer => {
            ApiError::Unauthorized(String::from_str("malformed bearer token"))
        },
        AuthError::TokenNotFound => ApiError::Unauthorized(String::from_str("token not found")),
        AuthError::InactiveToken => ApiError::Unauthorized(String::from_str("token is inactive")),
        AuthError::ExpiredToken => ApiError::Unauthorized(String::from_str("token is expired")),
        AuthError::Forbidden => {
            ApiError::Forbidden(String::from_str("forbidden: missing required scope"))
        },
        AuthError::Persistence(inner) => {
            let mut m = String::from_str("auth service unavailable: ");
            m.append(inner.as_str());
            ApiError::ServiceUnavailable(m)
        },
    }
}

} // verus!
