//! Who a request is made by: the session key in the request's `auth` cookie,
//! resolved by the store.

use vstd::prelude::*;

use crate::entity::{DbFailure, LoggedInUserDTO};

verus! {

/// Why a request has no user: no valid session (401), or the store failed (500).
#[derive(Debug, Clone, Copy, PartialEq, Eq)]
pub enum AuthFailure {
    Unauthorized,
    InternalServerError,
}

/// The resolution of a request's user.
pub enum AuthFlow {
    /// Ask the store which user holds the session `key`, then call `on_lookup`.
    LookupKey { key: String },
    /// The outcome.
    Finished(Result<LoggedInUserDTO, AuthFailure>),
}

/// How the resolution starts: a request without a session cookie has no user.
pub open spec fn auth_start_post(cookie: Option<String>, r: AuthFlow) -> bool {
    match cookie {
        None => r == AuthFlow::Finished(Err(AuthFailure::Unauthorized)),
        Some(key) => r == (AuthFlow::LookupKey { key }),
    }
}

/// What follows the lookup: the user is the one that the store names for the
/// key, with that key; a key that the store does not know is unauthorized.
pub open spec fn auth_on_lookup_post(key: String, user_id: Result<Option<i32>, DbFailure>, r: AuthFlow) -> bool {
    match user_id {
        Err(_) => r == AuthFlow::Finished(Err(AuthFailure::InternalServerError)),
        Ok(None) => r == AuthFlow::Finished(Err(AuthFailure::Unauthorized)),
        Ok(Some(id)) => r == AuthFlow::Finished(Ok(LoggedInUserDTO { id, key })),
    }
}

impl AuthFlow {
    /// Starts with the value of the request's `auth` cookie, if it has one.
    pub fn start(cookie: Option<String>) -> (r: AuthFlow)
        ensures
            auth_start_post(cookie, r),
    {
        match cookie {
            None => AuthFlow::Finished(Err(AuthFailure::Unauthorized)),
            Some(key) => AuthFlow::LookupKey { key },
        }
    }

    /// Takes the user that holds the session (none where no session has that
    /// key), or the failure of the store.
    pub fn on_lookup(self, user_id: Result<Option<i32>, DbFailure>) -> (r: AuthFlow)
        requires
            self is LookupKey,
        ensures
            auth_on_lookup_post(self->key, user_id, r),
    {
        match self {
            AuthFlow::LookupKey { key } => match user_id {
                Err(_) => AuthFlow::Finished(Err(AuthFailure::InternalServerError)),
                Ok(None) => AuthFlow::Finished(Err(AuthFailure::Unauthorized)),
                Ok(Some(id)) => AuthFlow::Finished(Ok(LoggedInUserDTO { id, key })),
            },
            other => other,
        }
    }
}

/// A request is made by a user only where it carries a session cookie and the
/// store names a user for that session; the user is then that one, holding
/// that very key.
pub proof fn lemma_user_only_from_known_session(
    cookie: Option<String>,
    first: AuthFlow,
    user_id: Result<Option<i32>, DbFailure>,
    last: AuthFlow,
)
    requires
        auth_start_post(cookie, first),
        first is LookupKey,
        auth_on_lookup_post(first->key, user_id, last),
        last matches AuthFlow::Finished(Ok(_)),
    ensures
        cookie matches Some(key) && user_id matches Ok(Some(id))
            && last == AuthFlow::Finished(Ok(LoggedInUserDTO { id, key })),
{
}

} // verus!
