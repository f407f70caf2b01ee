//! The errors the API answers with.

use vstd::prelude::*;

verus! {

/// An API error: the HTTP status it maps to and its message.
#[derive(Debug)]
pub enum AppError {
    /// 400: the request is malformed or refused.
    BadRequest(String),
    /// 401: no valid session or credentials.
    Unauthorized,
    /// 403: the action is not allowed.
    Forbidden(String),
    /// 404: nothing of that kind is visible to the caller.
    NotFound(String),
    /// 409: the request conflicts with existing data.
    Conflict(String),
}

/// Whether `e` is a bad request with this message.
pub open spec fn is_bad_request(e: AppError, msg: Seq<char>) -> bool {
    e matches AppError::BadRequest(m) && m@ == msg
}

impl AppError {
    pub fn bad_request(msg: &str) -> (e: AppError)
        ensures
            is_bad_request(e, msg@),
    {
        AppError::BadRequest(String::from_str(msg))
    }

    pub fn forbidden(msg: &str) -> (e: AppError)
        ensures
            e matches AppError::Forbidden(m) && m@ == msg@,
    {
        AppError::Forbidden(String::from_str(msg))
    }

    pub fn not_found(msg: &str) -> (e: AppError)
        ensures
            e matches AppError::NotFound(m) && m@ == msg@,
    {
        AppError::NotFound(String::from_str(msg))
    }

    pub fn conflict(msg: &str) -> (e: AppError)
        ensures
            e matches AppError::Conflict(m) && m@ == msg@,
    {
        AppError::Conflict(String::from_str(msg))
    }
}

} // verus!
