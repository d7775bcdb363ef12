//! `id_token` verification against a JSON Web Key Set (hybrid flow).
//!
//! Fetching the key set is a network GET done by the surrounding
//! application; given the fetched set, [`verify`] locates the key named by
//! the token's `kid` header, accepts only RSA keys validated as RS256,
//! checks signature, issuer and audience through the jsonwebtoken crate, and
//! returns the decoded claims — never partial ones.

use vstd::prelude::*;

use crate::error::AuthError;
use crate::json;
use crate::token::IdToken;

verus! {

#[verifier::external_type_specification]
#[verifier::external_body]
pub struct ExJwkSet(jsonwebtoken::jwk::JwkSet);

#[verifier::external_type_specification]
#[verifier::external_body]
pub struct ExJwk(jsonwebtoken::jwk::Jwk);

#[verifier::external_type_specification]
#[verifier::external_body]
pub struct ExDecodingKey(jsonwebtoken::DecodingKey);

#[verifier::external_type_specification]
#[verifier::external_body]
pub struct ExValidation(jsonwebtoken::Validation);

/// The key id named in a JWT's header, as jsonwebtoken's header decoder
/// reads it; `None` when the header does not decode or carries no `kid`.
pub uninterp spec fn jwt_kid_of(token: Seq<char>) -> Option<Seq<char>>;

/// The key ids present in a key set.
pub uninterp spec fn jwks_kids(set: &jsonwebtoken::jwk::JwkSet) -> Set<Seq<char>>;

/// Whether a key of the set is an RSA key.
pub uninterp spec fn jwk_is_rsa(jwk: &jsonwebtoken::jwk::Jwk) -> bool;

/// Whether the key the set's lookup returns for `kid` is an RSA key (lookup
/// is a function of the set and the id, so this is well defined).
pub uninterp spec fn jwks_rsa_for(set: &jsonwebtoken::jwk::JwkSet, kid: Seq<char>) -> bool;

/// Relies on jsonwebtoken's `decode_header`: the `kid` field of the decoded
/// header, a function of the token text alone.
#[verifier::external_body]
fn jwt_kid(token: &str) -> (r: Option<String>)
    ensures
        match r {
            Some(k) => jwt_kid_of(token@) == Some(k@),
            None => jwt_kid_of(token@) is None,
        },
{
    match jsonwebtoken::decode_header(token) {
        Ok(header) => header.kid,
        Err(_) => None,
    }
}

/// Relies on `JwkSet::find`: a key whose id equals `kid` when the set holds
/// one, `None` otherwise.  Which key comes back is a function of the set and
/// the id, so its kind is `jwks_rsa_for`.
#[verifier::external_body]
fn jwks_find<'a>(set: &'a jsonwebtoken::jwk::JwkSet, kid: &str) -> (r: Option<
    &'a jsonwebtoken::jwk::Jwk,
>)
    ensures
        match r {
            Some(jwk) => jwks_kids(set).contains(kid@) && jwk_is_rsa(jwk) == jwks_rsa_for(
                set,
                kid@,
            ),
            None => !jwks_kids(set).contains(kid@),
        },
{
    set.find(kid)
}

/// Relies on the `AlgorithmParameters` enum of jsonwebtoken's jwk module:
/// the RSA modulus and exponent of an RSA key, `None` exactly for any other
/// kind.
#[verifier::external_body]
fn jwk_rsa_components(jwk: &jsonwebtoken::jwk::Jwk) -> (r: Option<(String, String)>)
    ensures
        r is Some <==> jwk_is_rsa(jwk),
{
    match &jwk.algorithm {
        jsonwebtoken::jwk::AlgorithmParameters::RSA(rsa) => Some((rsa.n.clone(), rsa.e.clone())),
        _ => None,
    }
}

/// Relies on `DecodingKey::from_rsa_components`; `None` when the components
/// are not valid base64url numbers.
#[verifier::external_body]
fn rsa_decoding_key(n: &str, e: &str) -> Option<jsonwebtoken::DecodingKey> {
    jsonwebtoken::DecodingKey::from_rsa_components(n, e).ok()
}

/// Relies on `Validation::new`: a validation accepting RS256 only.
#[verifier::external_body]
fn rs256_validation() -> jsonwebtoken::Validation {
    jsonwebtoken::Validation::new(jsonwebtoken::Algorithm::RS256)
}

/// Relies on `Validation::set_issuer`: the validation will require `iss` to
/// be one of `issuers`.
#[verifier::external_body]
fn validation_set_issuer(v: &mut jsonwebtoken::Validation, issuers: &Vec<String>) {
    v.set_issuer(issuers.as_slice());
}

/// Relies on `Validation::set_audience`: the validation will require `aud`
/// to equal `audience`.
#[verifier::external_body]
fn validation_set_audience(v: &mut jsonwebtoken::Validation, audience: &str) {
    v.set_audience(&[audience]);
}

/// Relies on jsonwebtoken's `decode`: the claims of a token whose signature
/// verifies under `key` and whose header, `iss` and `aud` pass `validation`;
/// `None` on any verification failure.
#[verifier::external_body]
fn decode_verified(
    token: &str,
    key: &jsonwebtoken::DecodingKey,
    validation: &jsonwebtoken::Validation,
) -> Option<serde_json::Value> {
    match jsonwebtoken::decode::<serde_json::Value>(token, key, validation) {
        Ok(data) => Some(data.claims),
        Err(_) => None,
    }
}

/// Verifies a raw `id_token` against a fetched key set: locates the key
/// named by the token's `kid`, accepts only RSA keys, validates signature,
/// issuer (one of `issuers_urls`) and audience (`client_id`), and returns
/// the `sub` and `nonce` claims.  No claims are exposed on failure.  Each
/// pre-verification error comes exactly on its condition: a missing `kid`,
/// an id absent from the set, a non-RSA key; everything the signature check
/// itself refuses is `InvalidToken`.
pub fn verify(
    client_id: &str,
    issuers_urls: &Vec<String>,
    jwkset: &jsonwebtoken::jwk::JwkSet,
    s: &str,
) -> (r: Result<IdToken, AuthError>)
    ensures
        r == Err::<IdToken, AuthError>(AuthError::MalformedToken) <==> jwt_kid_of(s@) is None,
        (match jwt_kid_of(s@) {
            Some(k) => {
                &&& (r == Err::<IdToken, AuthError>(AuthError::KeyNotFound) <==> !jwks_kids(
                    jwkset,
                ).contains(k))
                &&& jwks_kids(jwkset).contains(k) ==> (r == Err::<IdToken, AuthError>(
                    AuthError::UnsupportedAlgorithm,
                ) <==> !jwks_rsa_for(jwkset, k))
                &&& (jwks_kids(jwkset).contains(k) && jwks_rsa_for(jwkset, k)) ==> (r is Ok || r
                    == Err::<IdToken, AuthError>(AuthError::InvalidToken))
            },
            None => true,
        }),
        match r {
            Ok(_) => jwt_kid_of(s@) matches Some(k) && jwks_kids(jwkset).contains(k)
                && jwks_rsa_for(jwkset, k),
            Err(e) => e == AuthError::MalformedToken || e == AuthError::KeyNotFound || e
                == AuthError::UnsupportedAlgorithm || e == AuthError::InvalidToken,
        },
{
    let kid = match jwt_kid(s) {
        Some(k) => k,
        None => {
            return Err(AuthError::MalformedToken);
        },
    };
    let jwk = match jwks_find(jwkset, kid.as_str()) {
        Some(j) => j,
        None => {
            return Err(AuthError::KeyNotFound);
        },
    };
    let (modulus, exponent) = match jwk_rsa_components(jwk) {
        Some(p) => p,
        None => {
            return Err(AuthError::UnsupportedAlgorithm);
        },
    };
    let key = match rsa_decoding_key(modulus.as_str(), exponent.as_str()) {
        Some(k) => k,
        None => {
            return Err(AuthError::InvalidToken);
        },
    };
    let mut validation = rs256_validation();
    validation_set_issuer(&mut validation, issuers_urls);
    validation_set_audience(&mut validation, client_id);
    let claims = match decode_verified(s, &key, &validation) {
        Some(v) => v,
        None => {
            return Err(AuthError::InvalidToken);
        },
    };
    let sub = match json::json_get(&claims, "sub") {
        Some(v) => match json::json_as_str(v) {
            Some(text) => text,
            None => {
                return Err(AuthError::InvalidToken);
            },
        },
        None => {
            return Err(AuthError::InvalidToken);
        },
    };
    let nonce = match json::json_get(&claims, "nonce") {
        Some(v) => match json::json_as_str(v) {
            Some(text) => text,
            None => {
                return Err(AuthError::InvalidToken);
            },
        },
        None => {
            return Err(AuthError::InvalidToken);
        },
    };
    Ok(IdToken { sub, nonce })
}

} // verus!
