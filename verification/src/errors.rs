//! The errors the server reports to its clients.

use vstd::prelude::*;
use crate::text::owned;

verus! {

/// An error reported to a client: an HTTP status code and a message.
pub struct ApiError {
    pub status: u16,
    pub message: String,
}

impl ApiError {
    /// An internal failure (500).
    pub fn internal(message: &str) -> (res: ApiError)
        ensures
            res.status == 500 && res.message@ == message@,
    {
        ApiError { status: 500, message: owned(message) }
    }

    /// A request the server refuses (400).
    pub fn bad_request(message: &str) -> (res: ApiError)
        ensures
            res.status == 400 && res.message@ == message@,
    {
        ApiError { status: 400, message: owned(message) }
    }

    /// A task that does not exist (404).
    pub fn not_found(message: &str) -> (res: ApiError)
        ensures
            res.status == 404 && res.message@ == message@,
    {
        ApiError { status: 404, message: owned(message) }
    }

    /// A request that conflicts with the task's state (409).
    pub fn conflict(message: &str) -> (res: ApiError)
        ensures
            res.status == 409 && res.message@ == message@,
    {
        ApiError { status: 409, message: owned(message) }
    }
}

} // verus!
