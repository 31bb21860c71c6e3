//! The error body every endpoint answers with, and the HTTP status it carries.

use vstd::prelude::*;

use crate::text::owned;

verus! {

/// An error answer: a machine-readable kind and a human-readable message.
#[derive(Debug, Clone, PartialEq, Eq)]
pub struct ApiError {
    pub error: String,
    pub message: String,
}

impl ApiError {
    pub fn new(error: String, message: String) -> (r: Self)
        ensures
            r.error == error,
            r.message == message,
    {
        ApiError { error, message }
    }

    /// A `not_found` error.
    pub fn not_found(message: String) -> (r: Self)
        ensures
            r.error@ == "not_found"@,
            r.message == message,
    {
        ApiError::new(owned("not_found"), message)
    }

    /// A `bad_request` error.
    pub fn bad_request(message: String) -> (r: Self)
        ensures
            r.error@ == "bad_request"@,
            r.message == message,
    {
        ApiError::new(owned("bad_request"), message)
    }

    /// An `internal_error` error.
    pub fn internal(message: String) -> (r: Self)
        ensures
            r.error@ == "internal_error"@,
            r.message == message,
    {
        ApiError::new(owned("internal_error"), message)
    }
}

/// HTTP 400.
pub const STATUS_BAD_REQUEST: u16 = 400;

/// HTTP 404.
pub const STATUS_NOT_FOUND: u16 = 404;

/// HTTP 500.
pub const STATUS_INTERNAL_ERROR: u16 = 500;

/// A refused request: the status to answer with and the error body.
#[derive(Debug, Clone, PartialEq, Eq)]
pub struct Rejection {
    pub status: u16,
    pub error: ApiError,
}

/// A rejection with the given status, error kind and message.
pub open spec fn is_rejection(r: Rejection, status: u16, kind: Seq<char>, message: Seq<char>) -> bool {
    r.status == status && r.error.error@ == kind && r.error.message@ == message
}

/// The result is a refusal with the given status, error kind and message.
pub open spec fn rejected<T>(r: Result<T, Rejection>, status: u16, kind: Seq<char>, message: Seq<char>) -> bool {
    match r {
        Err(e) => is_rejection(e, status, kind, message),
        Ok(_) => false,
    }
}

impl Rejection {
    /// 400 with a `bad_request` body.
    pub fn bad_request(message: &str) -> (r: Self)
        ensures
            is_rejection(r, STATUS_BAD_REQUEST, "bad_request"@, message@),
    {
        Rejection { status: STATUS_BAD_REQUEST, error: ApiError::bad_request(owned(message)) }
    }

    /// 404 with a `not_found` body.
    pub fn not_found(message: String) -> (r: Self)
        ensures
            is_rejection(r, STATUS_NOT_FOUND, "not_found"@, message@),
    {
        Rejection { status: STATUS_NOT_FOUND, error: ApiError::not_found(message) }
    }

    /// 500 with an `internal_error` body.
    pub fn internal(message: String) -> (r: Self)
        ensures
            is_rejection(r, STATUS_INTERNAL_ERROR, "internal_error"@, message@),
    {
        Rejection { status: STATUS_INTERNAL_ERROR, error: ApiError::internal(message) }
    }
}

} // verus!
