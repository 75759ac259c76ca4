//! Failure kinds surfaced by the scoring core.
//!
//! Every score-affecting operation either succeeds or short-circuits with
//! one of these kinds before any point mutation is committed.  The first
//! three are user-facing rejections; `NotFound` marks a referenced school
//! or classroom that does not exist, and `StorageFailure` stands for an
//! underlying store error that the transport layer reports opaquely.

use vstd::prelude::*;

verus! {

/// A tagged failure of a scoring operation.
#[derive(Clone, Copy, Debug, PartialEq, Eq, Structural)]
pub enum ApiError {
    /// The request carried no session token at all.
    Unauthenticated,
    /// A session token was presented but is not in the token store.
    InvalidToken,
    /// The request payload was malformed.
    InvalidInput,
    /// A referenced school or classroom does not exist.
    NotFound,
    /// The underlying store failed to read or write.
    StorageFailure,
}

impl ApiError {
    /// The short user-facing text of the failure; empty where the
    /// transport layer answers with an empty body.
    pub open spec fn spec_message(self) -> Seq<char> {
        match self {
            ApiError::Unauthenticated => ""@,
            ApiError::InvalidToken => "Invalid token"@,
            ApiError::InvalidInput => "Invalid params"@,
            ApiError::NotFound => "Invalid school_id"@,
            ApiError::StorageFailure => ""@,
        }
    }

    /// The HTTP status class of the failure: the first three are the
    /// caller's fault, a missing or stale token answering 401 and bad
    /// input 400; a store fault is an opaque 500.
    pub open spec fn spec_status_code(self) -> int {
        match self {
            ApiError::Unauthenticated => 401,
            ApiError::InvalidToken => 401,
            ApiError::InvalidInput => 400,
            ApiError::NotFound => 400,
            ApiError::StorageFailure => 500,
        }
    }

    /// Short user-facing message of the failure.
    pub fn message(&self) -> (r: String)
        ensures
            r@ == self.spec_message(),
    {
        match self {
            ApiError::Unauthenticated => "".to_owned(),
            ApiError::InvalidToken => "Invalid token".to_owned(),
            ApiError::InvalidInput => "Invalid params".to_owned(),
            ApiError::NotFound => "Invalid school_id".to_owned(),
            ApiError::StorageFailure => "".to_owned(),
        }
    }

    /// HTTP status code the failure is reported with.
    pub fn status_code(&self) -> (r: u16)
        ensures
            r as int == self.spec_status_code(),
    {
        match self {
            ApiError::Unauthenticated => 401,
            ApiError::InvalidToken => 401,
            ApiError::InvalidInput => 400,
            ApiError::NotFound => 400,
            ApiError::StorageFailure => 500,
        }
    }
}

} // verus!
