//! Basic authentication in front of the CalDAV tree, handing the endpoints
//! the identity of the signed-in user.

use vstd::prelude::*;

use crate::http::opt_bytes;
use crate::webdav::middleware::{
    basic_credentials, basic_credentials_of, checked_view, credentials_outcome, opt_credentials,
    spec_credentials_outcome, AuthOutcome,
};

verus! {

/// The identity of the signed-in user, handed to the endpoints.
#[derive(Clone, Debug)]
pub struct UserClaims {
    pub user_id: u128,
}

impl UserClaims {
    /// The identity of the user `user_id`.
    pub fn new(user_id: u128) -> (c: UserClaims)
        ensures
            c.user_id == user_id,
    {
        UserClaims { user_id }
    }
}

/// The factory of the authentication middleware.
#[derive(Default)]
pub struct CalDavAuth {}

/// The authentication middleware around a service.
pub struct CalDavAuthMiddleware<S> {
    pub service: S,
}

impl CalDavAuth {
    /// Wraps a service in the authentication middleware.
    pub fn new_transform<S>(&self, service: S) -> (m: CalDavAuthMiddleware<S>)
        ensures
            m.service == service,
    {
        CalDavAuthMiddleware { service }
    }
}

impl<S> CalDavAuthMiddleware<S> {
    /// The email and password a request presents, or `None` when it must be
    /// refused with 401 at once.
    pub fn credentials(&self, authorization: Option<&[u8]>) -> (r: Option<(String, String)>)
        ensures
            opt_credentials(r) == basic_credentials_of(opt_bytes(authorization)),
    {
        basic_credentials(authorization)
    }

    /// The fate of a request given the result of checking its credentials.
    pub fn outcome(&self, valid: &Result<bool, String>) -> (o: AuthOutcome)
        ensures
            o == spec_credentials_outcome(checked_view(*valid)),
    {
        credentials_outcome(valid)
    }
}

} // verus!
