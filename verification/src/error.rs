//! The error taxonomy and how it surfaces to callers: absence maps to
//! a not-found response, rejected input to an unprocessable-entity
//! response, authentication failures to an unauthorized response, and
//! every internal failure to a generic server error that leaks no
//! internals.

use vstd::prelude::*;
use vstd::string::StringExecFns;

verus! {

/// Errors surfaced by the library.
#[derive(Debug)]
pub enum Error {
    /// A persistence or I/O failure; retried at the call site with
    /// backoff before it reaches a caller.
    Storage(String),
    /// A requested job or record does not exist.
    NotFound,
    /// A job handler failed; recorded on the job, never fatal.
    Handler(String),
    /// A background loop itself failed; fatal, reported through the
    /// shutdown coordinator.
    TaskPanic(String),
    /// Malformed input at the boundary; never reaches the store.
    Validation(String),
    /// A registration confirmation token that matches no user.
    InvalidRegisterToken,
    /// The caller is not authenticated.
    Unauthenticated,
    /// Hashing a password failed.
    PasswordHash,
}

/// The response status an error maps to.
pub open spec fn status_code_of(e: &Error) -> u16 {
    match e {
        Error::InvalidRegisterToken => 401u16,
        Error::Unauthenticated => 401u16,
        Error::NotFound => 404u16,
        Error::Validation(_) => 422u16,
        Error::Storage(_) => 500u16,
        Error::Handler(_) => 500u16,
        Error::TaskPanic(_) => 500u16,
        Error::PasswordHash => 500u16,
    }
}

/// The message shown to the caller: specific for client-side errors,
/// the validation detail for rejected input, and a fixed generic line
/// for every internal failure, so internals never leak.
pub open spec fn client_message_of(e: &Error) -> Seq<char> {
    match e {
        Error::InvalidRegisterToken => "invalid register token"@,
        Error::Unauthenticated => "unauthenticated"@,
        Error::NotFound => "no record found"@,
        Error::Validation(m) => m@,
        Error::Storage(_) => "internal server error"@,
        Error::Handler(_) => "internal server error"@,
        Error::TaskPanic(_) => "internal server error"@,
        Error::PasswordHash => "internal server error"@,
    }
}

impl Error {
    /// Maps the error to its response status code.
    pub fn status_code(&self) -> (r: u16)
        ensures
            r == status_code_of(self),
    {
        match self {
            Error::InvalidRegisterToken => 401,
            Error::Unauthenticated => 401,
            Error::NotFound => 404,
            Error::Validation(_) => 422,
            Error::Storage(_) => 500,
            Error::Handler(_) => 500,
            Error::TaskPanic(_) => 500,
            Error::PasswordHash => 500,
        }
    }

    /// The body shown to the caller alongside the status code.
    pub fn client_message(&self) -> (r: String)
        ensures
            r@ == client_message_of(self),
    {
        match self {
            Error::InvalidRegisterToken => String::from_str("invalid register token"),
            Error::Unauthenticated => String::from_str("unauthenticated"),
            Error::NotFound => String::from_str("no record found"),
            Error::Validation(m) => m.clone(),
            Error::Storage(_) => String::from_str("internal server error"),
            Error::Handler(_) => String::from_str("internal server error"),
            Error::TaskPanic(_) => String::from_str("internal server error"),
            Error::PasswordHash => String::from_str("internal server error"),
        }
    }
}

} // verus!
