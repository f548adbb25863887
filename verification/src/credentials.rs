//! Validation policy for the bearer credential.
//!
//! Acquiring and storing the credential is the host's concern; the core
//! only fixes the validation rule: a credential shorter than 10 characters is
//! rejected.

use vstd::prelude::*;

verus! {

/// Failures of the credential provider.
#[derive(Debug, Clone, PartialEq, Eq)]
pub enum CredentialError {
    /// The credential could not be read; carries the provider's message.
    GetError(String),
    /// The credential could not be written; carries the provider's message.
    SetError(String),
    /// No credential is stored.
    NotFound,
}

/// Validation policy for bearer credentials.
pub struct CredentialManager;

impl CredentialManager {
    /// A credential is acceptable exactly when it is at least 10 characters
    /// long.
    pub fn validate_api_key(api_key: &str) -> (r: bool)
        ensures
            r == (api_key@.len() >= 10),
    {
        if api_key.unicode_len() < 10 {
            return false;
        }
        true
    }
}

} // verus!
