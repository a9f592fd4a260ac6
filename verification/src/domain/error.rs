//! The error taxonomy surfaced by the authentication core.

use vstd::prelude::*;

verus! {

/// A typed failure of one of the core operations.
///
/// `InvalidCredentials` is a caller error (malformed input); conversely
/// `IncorrectCredentials` deliberately covers a wrong secret, an unknown
/// user and a failed two-factor match alike, so that a caller cannot tell
/// the cases apart. `UnexpectedError` stands for store, hashing or signing
/// failures outside normal business logic.
#[derive(Debug, Clone, Copy, PartialEq, Eq, Structural)]
pub enum AuthAPIError {
    UserAlreadyExists,
    InvalidCredentials,
    IncorrectCredentials,
    MissingToken,
    InvalidToken,
    UnexpectedError,
}

impl AuthAPIError {
    /// The HTTP status code under which a transport layer reports this error.
    pub fn status_code(&self) -> (r: u16)
        ensures
            r == self.spec_status_code(),
    {
        match self {
            AuthAPIError::UserAlreadyExists => 409,
            AuthAPIError::InvalidCredentials => 400,
            AuthAPIError::IncorrectCredentials => 401,
            AuthAPIError::MissingToken => 400,
            AuthAPIError::InvalidToken => 401,
            AuthAPIError::UnexpectedError => 500,
        }
    }

    /// The status code of each variant.
    pub open spec fn spec_status_code(&self) -> u16 {
        match self {
            AuthAPIError::UserAlreadyExists => 409,
            AuthAPIError::InvalidCredentials => 400,
            AuthAPIError::IncorrectCredentials => 401,
            AuthAPIError::MissingToken => 400,
            AuthAPIError::InvalidToken => 401,
            AuthAPIError::UnexpectedError => 500,
        }
    }

    /// The message a caller sees for this error; internal detail is never
    /// part of it.
    pub fn message(&self) -> (r: &'static str)
        ensures
            self == AuthAPIError::UserAlreadyExists ==> r@ == "User already exists"@,
            self == AuthAPIError::InvalidCredentials ==> r@ == "Invalid credentials"@,
            self == AuthAPIError::IncorrectCredentials ==> r@ == "Invalid credentials"@,
            self == AuthAPIError::MissingToken ==> r@ == "Missing Token"@,
            self == AuthAPIError::InvalidToken ==> r@ == "Invalid Request"@,
            self == AuthAPIError::UnexpectedError ==> r@ == "An unexpected error occurred"@,
    {
        match self {
            AuthAPIError::UserAlreadyExists => "User already exists",
            AuthAPIError::InvalidCredentials => "Invalid credentials",
            AuthAPIError::IncorrectCredentials => "Invalid credentials",
            AuthAPIError::MissingToken => "Missing Token",
            AuthAPIError::InvalidToken => "Invalid Request",
            AuthAPIError::UnexpectedError => "An unexpected error occurred",
        }
    }
}

/// The body of an error reply: the message shown to the caller.
#[derive(Debug)]
pub struct ErrorResponse {
    pub error: String,
}

} // verus!
