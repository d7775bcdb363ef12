//! The OAuth2 request parameter names.

use vstd::prelude::*;

verus! {

/// Every query / form parameter name the protocol uses.
#[derive(Debug, Clone, Copy, PartialEq, Eq, Structural)]
pub enum Params {
    ClientId,
    Code,
    GrantType,
    ResponseType,
    RedirectUri,
    ResponseMode,
    Scope,
    State,
    CodeChallenge,
    CodeChallengeMethod,
    CodeVerifier,
    RefreshToken,
    Nonce,
}

/// The wire name of a parameter.
pub open spec fn param_key(p: Params) -> Seq<char> {
    match p {
        Params::ClientId => "client_id"@,
        Params::Code => "code"@,
        Params::GrantType => "grant_type"@,
        Params::ResponseType => "response_type"@,
        Params::RedirectUri => "redirect_uri"@,
        Params::ResponseMode => "response_mode"@,
        Params::Scope => "scope"@,
        Params::State => "state"@,
        Params::CodeChallenge => "code_challenge"@,
        Params::CodeChallengeMethod => "code_challenge_method"@,
        Params::CodeVerifier => "code_verifier"@,
        Params::RefreshToken => "refresh_token"@,
        Params::Nonce => "nonce"@,
    }
}

impl Params {
    /// The wire name, in place of a `Display` implementation.
    pub fn as_str(&self) -> (r: &'static str)
        ensures
            r@ == param_key(*self),
    {
        match self {
            Params::ClientId => "client_id",
            Params::Code => "code",
            Params::GrantType => "grant_type",
            Params::ResponseType => "response_type",
            Params::RedirectUri => "redirect_uri",
            Params::ResponseMode => "response_mode",
            Params::Scope => "scope",
            Params::State => "state",
            Params::CodeChallenge => "code_challenge",
            Params::CodeChallengeMethod => "code_challenge_method",
            Params::CodeVerifier => "code_verifier",
            Params::RefreshToken => "refresh_token",
            Params::Nonce => "nonce",
        }
    }
}

} // verus!
