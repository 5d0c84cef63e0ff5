//! Errors the API answers with.

use vstd::prelude::*;
use vstd::string::*;

verus! {

/// An API error: its variant decides the HTTP status, its text is the
/// `error` field of the JSON body.
#[derive(Debug, Clone, PartialEq)]
pub enum ApiError {
    /// 400: the request is invalid.
    BadRequest(String),
    /// 404: the resource does not exist.
    NotFound(String),
    /// 409: the request conflicts with the resource's state.
    Conflict(String),
    /// 500: the database failed; the text is the database's message.
    Database(String),
}

/// The HTTP status of an error.
pub open spec fn status_of(e: ApiError) -> u16 {
    match e {
        ApiError::BadRequest(_) => 400,
        ApiError::NotFound(_) => 404,
        ApiError::Conflict(_) => 409,
        ApiError::Database(_) => 500,
    }
}

/// The text of an error.
pub open spec fn message_of(e: ApiError) -> Seq<char> {
    match e {
        ApiError::BadRequest(m) => m@,
        ApiError::NotFound(m) => m@,
        ApiError::Conflict(m) => m@,
        ApiError::Database(m) => m@,
    }
}

/// `e` is a bad request with text `m`.
pub open spec fn is_bad_request(e: ApiError, m: Seq<char>) -> bool {
    e matches ApiError::BadRequest(x) && x@ == m
}

/// `e` is a not-found error with text `m`.
pub open spec fn is_not_found(e: ApiError, m: Seq<char>) -> bool {
    e matches ApiError::NotFound(x) && x@ == m
}

/// `e` is a conflict with text `m`.
pub open spec fn is_conflict(e: ApiError, m: Seq<char>) -> bool {
    e matches ApiError::Conflict(x) && x@ == m
}

impl ApiError {
    /// The HTTP status code to answer with.
    pub fn status_code(&self) -> (r: u16)
        ensures
            r == status_of(*self),
    {
        match self {
            ApiError::BadRequest(_) => 400,
            ApiError::NotFound(_) => 404,
            ApiError::Conflict(_) => 409,
            ApiError::Database(_) => 500,
        }
    }

    /// The error text for the `error` field of the answer.
    pub fn message(&self) -> (r: String)
        ensures
            r@ == message_of(*self),
    {
        match self {
            ApiError::BadRequest(m) => m.clone(),
            ApiError::NotFound(m) => m.clone(),
            ApiError::Conflict(m) => m.clone(),
            ApiError::Database(m) => m.clone(),
        }
    }
}

} // verus!
