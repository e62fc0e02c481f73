//! What the service answers: a status and the uniform envelope.

use vstd::prelude::*;
use vstd::string::*;
use crate::models::ApiResponse;
use crate::store::{error_text, StoreError};

verus! {

/// The kinds of failure that a caller can be told of.
#[derive(Clone, Copy, Debug, PartialEq, Eq, Structural)]
pub enum ErrorKind {
    /// No secret, or one that no active credential has.
    Unauthenticated,
    /// A valid secret whose role does not reach far enough.
    Forbidden,
    /// A first initialization where an administrator exists already.
    Conflict,
    /// An emergency reissue before the first initialization.
    PreconditionFailed,
    /// The credential or todo item that was asked for does not exist.
    NotFound,
    /// The store is missing or failed.
    StoreUnavailable,
    /// The request lacks a part or its body cannot be read.
    InvalidInput,
    /// The operation was withdrawn in favour of another.
    Gone,
}

/// The status code that reports a kind of failure.
pub open spec fn status_of(kind: ErrorKind) -> u16 {
    match kind {
        ErrorKind::Unauthenticated => 401,
        ErrorKind::Forbidden => 403,
        ErrorKind::Conflict => 409,
        ErrorKind::PreconditionFailed => 400,
        ErrorKind::NotFound => 404,
        ErrorKind::StoreUnavailable => 500,
        ErrorKind::InvalidInput => 400,
        ErrorKind::Gone => 410,
    }
}

impl ErrorKind {
    /// The status code that reports this kind of failure.
    pub fn status(&self) -> (code: u16)
        ensures
            code == status_of(*self),
            code != 200,
    {
        match self {
            ErrorKind::Unauthenticated => 401,
            ErrorKind::Forbidden => 403,
            ErrorKind::Conflict => 409,
            ErrorKind::PreconditionFailed => 400,
            ErrorKind::NotFound => 404,
            ErrorKind::StoreUnavailable => 500,
            ErrorKind::InvalidInput => 400,
            ErrorKind::Gone => 410,
        }
    }
}

/// The status code of a successful answer.
pub const OK: u16 = 200;

/// An answer: its status and its envelope.
#[derive(Debug, PartialEq, Eq)]
pub struct Reply<T> {
    pub status: u16,
    pub body: ApiResponse<T>,
}

impl<T> Reply<T> {
    /// Whether this answer reports success and carries a result.
    pub open spec fn is_ok(&self) -> bool {
        self.status == OK && self.body.is_success()
    }

    /// The result that a successful answer carries.
    pub open spec fn payload(&self) -> T {
        self.body.data->0
    }

    /// Whether this answer reports a failure of the given kind with the
    /// given text, and carries no result.
    pub open spec fn is_failure(&self, kind: ErrorKind, text: Seq<char>) -> bool {
        self.status == status_of(kind) && self.body.is_error(text)
    }

    /// A successful answer that carries `data`.
    pub fn ok(data: T) -> (reply: Self)
        ensures
            reply.is_ok(),
            reply.payload() == data,
    {
        Reply { status: OK, body: ApiResponse::success(data) }
    }

    /// An answer that reports a failure.
    pub fn failure(kind: ErrorKind, text: String) -> (reply: Self)
        ensures
            reply.is_failure(kind, text@),
            !reply.is_ok(),
    {
        Reply { status: kind.status(), body: ApiResponse::error(text) }
    }
}

/// The text that reports a failed store operation: what was attempted,
/// then the report of the store.
pub open spec fn store_failure_text(attempt: Seq<char>, e: StoreError) -> Seq<char> {
    attempt + ": "@ + error_text(e)
}

/// Builds the text that reports a failed store operation.
pub fn store_failure(attempt: &str, e: &StoreError) -> (text: String)
    ensures
        text@ == store_failure_text(attempt@, *e),
{
    let report = e.message();
    String::from_str(attempt).concat(": ").concat(report.as_str())
}

} // verus!
