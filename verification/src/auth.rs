//! Pluggable authentication for the Identity zone.
use vstd::prelude::*;

use crate::issuer::EmployeeId;

verus! {

/// Errors returned by [`Authenticator`] implementations.
#[derive(Debug, Clone, PartialEq, Eq)]
pub enum AuthError {
    InvalidCredentials,
    ProviderError(String),
}

/// The description of each error.
pub open spec fn auth_error_message(e: AuthError) -> Seq<char> {
    match e {
        AuthError::InvalidCredentials => "invalid credentials"@,
        AuthError::ProviderError(m) => "provider error: "@ + m@,
    }
}

impl AuthError {
    /// Human-readable description: `invalid credentials`, or
    /// `provider error: ` followed by the provider's message.
    pub fn message(&self) -> (r: String)
        ensures
            r@ == auth_error_message(*self),
    {
        match self {
            AuthError::InvalidCredentials => String::from_str("invalid credentials"),
            AuthError::ProviderError(m) => String::from_str("provider error: ").concat(m.as_str()),
        }
    }
}

/// Pluggable authentication backend for the Identity zone.
///
/// Implementations verify a credential (API key, OIDC token, etc.) and return
/// the authenticated [`EmployeeId`]. They live with the server that composes
/// the zones; this library only defines the interface.
pub trait Authenticator {
    /// The employee that `credential` authenticates, or why it does not.
    fn authenticate(&self, credential: &str) -> Result<EmployeeId, AuthError>;
}

} // verus!
