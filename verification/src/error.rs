//! The errors that the HTTP API answers with.
use vstd::prelude::*;

use crate::text::owned;

verus! {

/// An error answered to an API client.
#[derive(Debug)]
pub enum AppError {
    NotFound(String),
    Unauthorized,
    BadRequest(String),
    Internal(String),
}

/// The HTTP status code an error is answered with.
pub open spec fn error_status(e: AppError) -> u16 {
    match e {
        AppError::NotFound(_) => 404,
        AppError::Unauthorized => 401,
        AppError::BadRequest(_) => 400,
        AppError::Internal(_) => 500,
    }
}

/// The message shown to the client: the error's own text for "not found"
/// and "bad request", fixed texts otherwise (an internal error's detail is
/// never shown).
pub open spec fn error_message(e: AppError) -> Seq<char> {
    match e {
        AppError::NotFound(m) => m@,
        AppError::Unauthorized => "Could not validate credentials"@,
        AppError::BadRequest(m) => m@,
        AppError::Internal(_) => "Internal server error"@,
    }
}

impl AppError {
    /// The HTTP status code this error is answered with.
    pub fn status_code(&self) -> (r: u16)
        ensures
            r == error_status(*self),
    {
        match self {
            AppError::NotFound(_) => 404,
            AppError::Unauthorized => 401,
            AppError::BadRequest(_) => 400,
            AppError::Internal(_) => 500,
        }
    }

    /// The message put in the response body under `"error"`.
    pub fn public_message(&self) -> (r: String)
        ensures
            r@ == error_message(*self),
    {
        match self {
            AppError::NotFound(m) => m.clone(),
            AppError::Unauthorized => owned("Could not validate credentials"),
            AppError::BadRequest(m) => m.clone(),
            AppError::Internal(_) => owned("Internal server error"),
        }
    }

    /// Whether the error is logged as a server fault before answering.
    pub fn is_logged(&self) -> (r: bool)
        ensures
            r == (*self is Internal),
    {
        match self {
            AppError::Internal(_) => true,
            _ => false,
        }
    }
}

/// An internal error never reveals its detail to the client.
pub proof fn law_internal_detail_hidden(detail: String)
    ensures
        error_status(AppError::Internal(detail)) == 500,
        error_message(AppError::Internal(detail)) == "Internal server error"@,
{
}

} // verus!
