//! The outcomes a decision can have besides success, and the responses that
//! carry them to a caller.

use vstd::prelude::*;
use vstd::string::*;

verus! {

/// Why a request is turned down. Every denial ends the request: none of the
/// checks of this crate is tried again.
#[derive(Debug, Clone, Copy, PartialEq, Eq, Structural)]
pub enum Denial {
    /// The request is malformed.
    BadRequest,
    /// No credential, or one that resolves to nobody. Which of the two is
    /// never told.
    Unauthenticated,
    /// The caller is known but the token, address or use count does not allow
    /// the request.
    Unauthorized,
    /// The caller's tier does not allow the request.
    Forbidden,
    /// There is no such thing, or none that this caller may know of.
    NotFound,
    /// The name is taken.
    Conflict,
    /// The caller lacks what the request builds on.
    ExpectationFailed,
    /// The store failed.
    Internal,
    /// The feature is switched off.
    Unavailable,
}

impl Denial {
    /// The HTTP status that reports the denial.
    pub open spec fn spec_status(self) -> u16 {
        match self {
            Denial::BadRequest => 400,
            Denial::Unauthenticated => 401,
            Denial::Unauthorized => 401,
            Denial::Forbidden => 403,
            Denial::NotFound => 404,
            Denial::Conflict => 409,
            Denial::ExpectationFailed => 417,
            Denial::Internal => 500,
            Denial::Unavailable => 503,
        }
    }

    /// The HTTP status that reports the denial.
    pub fn status(&self) -> (code: u16)
        ensures
            code == self.spec_status(),
    {
        match self {
            Denial::BadRequest => 400,
            Denial::Unauthenticated => 401,
            Denial::Unauthorized => 401,
            Denial::Forbidden => 403,
            Denial::NotFound => 404,
            Denial::Conflict => 409,
            Denial::ExpectationFailed => 417,
            Denial::Internal => 500,
            Denial::Unavailable => 503,
        }
    }
}

/// The status a request is answered with where the answer has no body of its
/// own.
#[derive(Debug, Clone, Copy, PartialEq, Eq, Structural)]
pub enum Status {
    /// Done.
    Success,
    /// Taken note of; nothing was done.
    Accepted,
    /// Done, and there is nothing to say.
    NoContent,
    /// Turned down.
    Denied(Denial),
}

impl Status {
    /// The HTTP status code.
    pub open spec fn spec_code(self) -> u16 {
        match self {
            Status::Success => 200,
            Status::Accepted => 202,
            Status::NoContent => 204,
            Status::Denied(denial) => denial.spec_status(),
        }
    }

    /// The HTTP status code.
    pub fn code(&self) -> (code: u16)
        ensures
            code == self.spec_code(),
    {
        match self {
            Status::Success => 200,
            Status::Accepted => 202,
            Status::NoContent => 204,
            Status::Denied(denial) => denial.status(),
        }
    }
}

/// A store operation that failed. What went wrong stays with the store.
#[derive(Debug, Clone, Copy, PartialEq, Eq, Structural)]
pub struct StoreFault;

/// A status and its message, as the account operations answer.
#[derive(Debug)]
pub struct ErrorResponse {
    pub status: u16,
    pub message: String,
}

/// The answers the account operations give.
#[derive(Debug, Clone, Copy, PartialEq, Eq, Structural)]
pub enum Answer {
    Success,
    BadRequest,
    Unauthorized,
    Forbidden,
    InternalServerError,
}

impl Answer {
    /// The status of the answer.
    pub open spec fn spec_status(self) -> u16 {
        match self {
            Answer::Success => 200,
            Answer::BadRequest => 400,
            Answer::Unauthorized => 401,
            Answer::Forbidden => 403,
            Answer::InternalServerError => 500,
        }
    }

    /// The message of the answer.
    pub open spec fn spec_message(self) -> Seq<char> {
        match self {
            Answer::Success => "OK"@,
            Answer::BadRequest => "Bad Request"@,
            Answer::Unauthorized => "Unauthorized"@,
            Answer::Forbidden => "Forbidden"@,
            Answer::InternalServerError => "Internal Server Error"@,
        }
    }

    /// The response that carries the answer.
    pub fn response(&self) -> (r: ErrorResponse)
        ensures
            r.status == self.spec_status(),
            r.message@ == self.spec_message(),
    {
        match self {
            Answer::Success => ErrorResponse { status: 200, message: String::from_str("OK") },
            Answer::BadRequest => ErrorResponse {
                status: 400,
                message: String::from_str("Bad Request"),
            },
            Answer::Unauthorized => ErrorResponse {
                status: 401,
                message: String::from_str("Unauthorized"),
            },
            Answer::Forbidden => ErrorResponse {
                status: 403,
                message: String::from_str("Forbidden"),
            },
            Answer::InternalServerError => ErrorResponse {
                status: 500,
                message: String::from_str("Internal Server Error"),
            },
        }
    }
}

/// The answer to a request whose changes were handed to the store: `Success`
/// where the store took them, `InternalServerError` where it failed.
pub fn store_answer(written: &Result<(), StoreFault>) -> (answer: Answer)
    ensures
        answer == match written {
            Ok(_) => Answer::Success,
            Err(_) => Answer::InternalServerError,
        },
{
    match written {
        Ok(_) => Answer::Success,
        Err(_) => Answer::InternalServerError,
    }
}

} // verus!
