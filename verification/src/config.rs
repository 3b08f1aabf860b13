//! Immutable configuration handed to the components that need it.

use vstd::prelude::*;

verus! {

/// Configuration consumed by the credential subsystem. Built once at
/// startup and passed by reference into every component that needs it;
/// there is no ambient global state.
pub struct BackendConfiguration {
    /// The pre-shared key which is used to sign and validate the generated token.
    pub token_signature_psk: String,
    /// The access token lifetime in seconds.
    pub access_token_lifetime_in_seconds: u64,
    /// The refresh token lifetime in seconds.
    pub refresh_token_lifetime_in_seconds: u64,
    /// Whether or not the user registration is enabled.
    pub user_registration_enabled: bool,
}

} // verus!
