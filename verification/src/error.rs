//! The replies that the service gives when a request fails.

use vstd::prelude::*;

use crate::entity::DbFailure;

verus! {

/// The error replies that the service sends to its clients.
#[derive(Debug, PartialEq, Eq)]
pub enum ErrorResponse {
    /// 400, with a message for the client.
    BadRequest(String),
    /// 500.
    InternalServerError(()),
    /// 403.
    Forbidden(()),
}

/// `r` is a `BadRequest` that carries exactly the message `msg`.
pub open spec fn is_bad_request(r: ErrorResponse, msg: Seq<char>) -> bool {
    r matches ErrorResponse::BadRequest(m) && m@ == msg
}

impl Clone for ErrorResponse {
    fn clone(&self) -> (r: Self)
        ensures
            r == *self,
    {
        match self {
            ErrorResponse::BadRequest(m) => ErrorResponse::BadRequest(m.clone()),
            ErrorResponse::InternalServerError(u) => ErrorResponse::InternalServerError(*u),
            ErrorResponse::Forbidden(u) => ErrorResponse::Forbidden(*u),
        }
    }
}

impl ErrorResponse {
    /// A `BadRequest` reply with the given message.
    pub fn bad_request(msg: &str) -> (r: ErrorResponse)
        ensures
            is_bad_request(r, msg@),
    {
        ErrorResponse::BadRequest(msg.to_string())
    }
}


/// What a failed query becomes in a reply: a 500.
pub open spec fn is_internal(r: ErrorResponse) -> bool {
    r == ErrorResponse::InternalServerError(())
}

impl ErrorResponse {
    /// The reply for a failed query or transaction.
    pub fn from_db_failure(_failure: DbFailure) -> (r: ErrorResponse)
        ensures
            is_internal(r),
    {
        ErrorResponse::InternalServerError(())
    }
}

/// The outcome of a query as a reply: its value, or a 500 where it failed.
pub fn db_outcome<T>(result: Result<T, DbFailure>) -> (r: Result<T, ErrorResponse>)
    ensures
        match result {
            Ok(v) => r == Ok::<T, ErrorResponse>(v),
            Err(_) => r matches Err(e) && is_internal(e),
        },
{
    match result {
        Ok(v) => Ok(v),
        Err(f) => Err(ErrorResponse::from_db_failure(f)),
    }
}


/// The reply once the transaction is committed: `value` where the commit went
/// through, a 500 where it failed.
pub fn commit_outcome<R>(committed: Result<(), DbFailure>, value: R) -> (r: Result<R, ErrorResponse>)
    ensures
        match committed {
            Ok(()) => r == Ok::<R, ErrorResponse>(value),
            Err(_) => r matches Err(e) && is_internal(e),
        },
{
    match committed {
        Ok(()) => Ok(value),
        Err(f) => Err(ErrorResponse::from_db_failure(f)),
    }
}

} // verus!
