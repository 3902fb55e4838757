//! The two-kind error taxonomy of the front end, and its mapping to an
//! HTTP-style status code and message.

use vstd::prelude::*;

verus! {

/// Status code for a successful request.
pub const STATUS_OK: u16 = 200;

/// Status code for a caller-fixable request error.
pub const STATUS_BAD_REQUEST: u16 = 400;

/// Status code for a missing asset.
pub const STATUS_NOT_FOUND: u16 = 404;

/// Status code for a failure the caller cannot fix from this layer.
pub const STATUS_INTERNAL_ERROR: u16 = 500;

/// A classified request failure: either the caller's fault (a missing or
/// too-short payload) or an internal one (the decompiler failed or
/// produced nothing).
#[derive(Debug)]
pub enum AppError {
    BadRequest(String),
    InternalError(String),
}

impl AppError {
    /// The human-readable reason carried by either kind of error.
    pub open spec fn message(&self) -> Seq<char> {
        match self {
            AppError::BadRequest(m) => m@,
            AppError::InternalError(m) => m@,
        }
    }

    /// Status code and message for a classified error: client errors map
    /// to a client-error status, internal errors to a server-error status,
    /// with the message carried verbatim either way.
    pub fn into_response(self) -> (r: (u16, String))
        ensures
            self is BadRequest ==> r.0 == STATUS_BAD_REQUEST,
            self is InternalError ==> r.0 == STATUS_INTERNAL_ERROR,
            r.1@ == self.message(),
    {
        match self {
            AppError::BadRequest(msg) => (STATUS_BAD_REQUEST, msg),
            AppError::InternalError(msg) => (STATUS_INTERNAL_ERROR, msg),
        }
    }
}

} // verus!
