//! The adapter's error type.

use vstd::prelude::*;

verus! {

/// An error returned by the backend adapter.
///
/// `BadRequestError` marks caller-supplied input that is invalid (a missing or
/// malformed service id, a batch list that does not serialize); it is always
/// detected before any network call. `InternalError` marks anything downstream
/// of a well-formed request: a transport failure or an unparsable response.
/// Both carry a human-readable description.
#[derive(Debug)]
pub enum BackendClientError {
    BadRequestError(String),
    InternalError(String),
}

/// Holds when `e` is a `BadRequestError` carrying exactly the message `msg`.
pub open spec fn is_bad_request_with(e: BackendClientError, msg: Seq<char>) -> bool {
    e matches BackendClientError::BadRequestError(m) && m@ == msg
}

/// Holds when `e` is an `InternalError` carrying exactly the message `msg`.
pub open spec fn is_internal_with(e: BackendClientError, msg: Seq<char>) -> bool {
    e matches BackendClientError::InternalError(m) && m@ == msg
}

impl BackendClientError {
    /// The error's description, as the adapter would report it.
    pub fn message(&self) -> (r: &String)
        ensures
            self matches BackendClientError::BadRequestError(m) ==> r@ == m@,
            self matches BackendClientError::InternalError(m) ==> r@ == m@,
    {
        match self {
            BackendClientError::BadRequestError(m) => m,
            BackendClientError::InternalError(m) => m,
        }
    }
}

} // verus!
