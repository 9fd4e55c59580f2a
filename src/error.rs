//! Errors of the authentication core.
use vstd::prelude::*;

verus! {

/// Why an authentication operation failed.
#[derive(Debug, Clone, Copy, PartialEq, Eq, Structural)]
pub enum AuthError {
    /// A required configuration setting is absent.
    Configuration,
    /// The identity provider's token or userinfo call failed.
    Upstream,
    /// The store could not complete an operation.
    Persistence,
    /// No valid session, or a role that does not grant the operation.
    Unauthorized,
    /// The request carries no session cookie.
    NoCookie,
    /// The session cookie does not hold a session identifier.
    InvalidSessionFormat,
}

impl AuthError {
    /// The HTTP status that the web layer answers with for this error.
    pub fn http_status(&self) -> (r: u16)
        ensures
            r == 401 <==> (*self == AuthError::Unauthorized || *self == AuthError::NoCookie
                || *self == AuthError::InvalidSessionFormat),
            r == 502 <==> *self == AuthError::Upstream,
            r == 500 <==> (*self == AuthError::Configuration || *self == AuthError::Persistence),
    {
        match self {
            AuthError::Configuration => 500,
            AuthError::Upstream => 502,
            AuthError::Persistence => 500,
            AuthError::Unauthorized => 401,
            AuthError::NoCookie => 401,
            AuthError::InvalidSessionFormat => 401,
        }
    }
}

} // verus!
