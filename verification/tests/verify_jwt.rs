use base64::Engine;
use oauth2_pkce::error::AuthError;
use oauth2_pkce::jwk;

fn jwt_with_header(header_json: &str) -> String {
    let enc = base64::engine::general_purpose::URL_SAFE_NO_PAD;
    let header = enc.encode(header_json.as_bytes());
    let payload = enc.encode(b"{\"sub\":\"user-1\",\"nonce\":\"n1\"}");
    format!("{}.{}.fakesig", header, payload)
}

fn jwk_set(json: &str) -> jsonwebtoken::jwk::JwkSet {
    serde_json::from_str(json).expect("well-formed key set")
}

fn empty_set() -> jsonwebtoken::jwk::JwkSet {
    jwk_set("{\"keys\":[]}")
}

fn issuers() -> Vec<String> {
    vec!["https://login.microsoftonline.com/tenant-1/v2.0".to_owned()]
}

#[test]
fn undecodable_header_is_malformed() {
    let r = jwk::verify("client-1", &issuers(), &empty_set(), "garbage-no-dots");
    assert_eq!(r.unwrap_err(), AuthError::MalformedToken);
}

#[test]
fn header_without_kid_is_malformed() {
    let token = jwt_with_header("{\"alg\":\"RS256\",\"typ\":\"JWT\"}");
    let r = jwk::verify("client-1", &issuers(), &empty_set(), &token);
    assert_eq!(r.unwrap_err(), AuthError::MalformedToken);
}

#[test]
fn kid_absent_from_set_is_key_not_found() {
    let token = jwt_with_header("{\"alg\":\"RS256\",\"typ\":\"JWT\",\"kid\":\"k1\"}");
    let r = jwk::verify("client-1", &issuers(), &empty_set(), &token);
    assert_eq!(r.unwrap_err(), AuthError::KeyNotFound);
    let other = jwk_set(
        "{\"keys\":[{\"kty\":\"oct\",\"kid\":\"other-kid\",\"k\":\"c2VjcmV0\"}]}",
    );
    let r = jwk::verify("client-1", &issuers(), &other, &token);
    assert_eq!(r.unwrap_err(), AuthError::KeyNotFound);
}

#[test]
fn non_rsa_key_is_unsupported_algorithm() {
    let token = jwt_with_header("{\"alg\":\"RS256\",\"typ\":\"JWT\",\"kid\":\"k1\"}");
    let set = jwk_set("{\"keys\":[{\"kty\":\"oct\",\"kid\":\"k1\",\"k\":\"c2VjcmV0\"}]}");
    let r = jwk::verify("client-1", &issuers(), &set, &token);
    assert_eq!(r.unwrap_err(), AuthError::UnsupportedAlgorithm);
}

#[test]
fn bad_signature_is_invalid_token() {
    let token = jwt_with_header("{\"alg\":\"RS256\",\"typ\":\"JWT\",\"kid\":\"k1\"}");
    let enc = base64::engine::general_purpose::URL_SAFE_NO_PAD;
    let modulus = enc.encode([0xABu8; 256]);
    let set = jwk_set(&format!(
        "{{\"keys\":[{{\"kty\":\"RSA\",\"kid\":\"k1\",\"n\":\"{}\",\"e\":\"AQAB\"}}]}}",
        modulus
    ));
    let r = jwk::verify("client-1", &issuers(), &set, &token);
    assert_eq!(r.unwrap_err(), AuthError::InvalidToken);
}

#[test]
fn error_messages_name_each_failure() {
    assert!(AuthError::CsrfMismatch.message().contains("state"));
    assert!(AuthError::NonceMismatch.message().contains("nonce"));
    assert!(AuthError::MalformedCallback.message().contains("allback"));
    assert!(AuthError::EnvironmentUnavailable.message().contains("environment"));
}
