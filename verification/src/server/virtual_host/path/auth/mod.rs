//! Authentication of requests.

use vstd::prelude::*;

use crate::config::server::virtual_host::path::auth::BasicAuthSettings;
use crate::errors::VetisError;
use crate::server::virtual_host::path::auth::basic_auth::{
    basic_auth_outcome, header_view, reports_outcome, BasicAuth,
};

pub mod basic_auth;

verus! {

/// An authentication method: it decides on a request by its `Authorization` header
/// value, `None` when the request has none.
pub trait Auth {
    /// Whether the request is authenticated, or why its credentials were refused.
    fn authenticate(&self, authorization: Option<&[u8]>) -> Result<bool, VetisError>;
}

/// An authentication method of a path.
#[derive(Clone)]
pub enum AuthType {
    /// HTTP basic authentication
    Basic(BasicAuth),
}

/// What an authentication method holds.
pub enum AuthSettings {
    /// The users, algorithm and htpasswd file of basic authentication
    Basic(BasicAuthSettings),
}

impl View for AuthType {
    type V = AuthSettings;

    open spec fn view(&self) -> AuthSettings {
        match self {
            AuthType::Basic(auth) => AuthSettings::Basic(auth.config()@),
        }
    }
}

impl AuthType {
    /// A copy of this authentication method.
    pub fn duplicate(&self) -> (res: Self)
        ensures
            res@ == self@,
    {
        match self {
            AuthType::Basic(auth) => AuthType::Basic(auth.duplicate()),
        }
    }
}

impl Auth for AuthType {
    /// Authenticates with the method this value holds.
    fn authenticate(&self, authorization: Option<&[u8]>) -> (res: Result<bool, VetisError>)
        ensures
            match self@ {
                AuthSettings::Basic(settings) => reports_outcome(
                    res,
                    basic_auth_outcome(settings, header_view(authorization)),
                ),
            },
    {
        match self {
            AuthType::Basic(auth) => auth.authenticate(authorization),
        }
    }
}

} // verus!
