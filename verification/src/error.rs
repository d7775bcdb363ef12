//! Error taxonomy of the authentication engine.

use vstd::prelude::*;

verus! {

/// Everything that can go wrong while driving the authorization flow.
///
/// Security-relevant mismatches (`CsrfMismatch`, `NonceMismatch`) are routed
/// to a forbidden outcome by the engine and always clear pending material
/// first; the remaining variants are surfaced to the caller.
#[derive(Clone, Copy, Debug, PartialEq, Eq, Structural)]
pub enum AuthError {
    /// No browser context or storage for the current operation.
    EnvironmentUnavailable,
    /// A callback arrived without the expected redirect parameters.
    MalformedCallback,
    /// The callback `state` does not match the issued CSRF state.
    CsrfMismatch,
    /// The `id_token` nonce claim does not match the issued nonce.
    NonceMismatch,
    /// The `id_token` could not be decoded far enough to be checked.
    MalformedToken,
    /// No key in the fetched key set matches the token's key id.
    KeyNotFound,
    /// The matching key does not use a supported algorithm.
    UnsupportedAlgorithm,
    /// Bad signature, issuer or audience on the `id_token`.
    InvalidToken,
    /// A token exchange, refresh or key-set fetch failed.
    NetworkOrProviderError,
}

impl AuthError {
    /// A short description, in place of a `Display` implementation.
    pub fn message(&self) -> &'static str {
        match self {
            AuthError::EnvironmentUnavailable => "browser environment not available",
            AuthError::MalformedCallback => "callback parameters missing or malformed",
            AuthError::CsrfMismatch => "callback state does not match the issued state",
            AuthError::NonceMismatch => "id_token nonce does not match the issued nonce",
            AuthError::MalformedToken => "id_token could not be decoded",
            AuthError::KeyNotFound => "no key in the key set matches the token key id",
            AuthError::UnsupportedAlgorithm => "token key algorithm not supported",
            AuthError::InvalidToken => "id_token failed verification",
            AuthError::NetworkOrProviderError => "token endpoint or key set request failed",
        }
    }
}

} // verus!
