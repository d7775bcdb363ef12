use oauth2_pkce::pkce::{CodeChallenge, CodeVerifier};
use oauth2_pkce::storage::KeyValueStore;

// RFC 7636 appendix B: the S256 challenge of the example verifier.
#[test]
fn challenge_matches_rfc_7636_example() {
    let verifier = CodeVerifier { value: "dBjftJeZ4CVP-mB92K27uhbUJU1p1r_wW1gFWFOEjXk".to_owned() };
    let challenge = CodeChallenge::from(&verifier);
    assert_eq!(challenge.as_str(), "E9Melhoa2OwvFrEMTJguCHaoeK1t8URWbuGJSstw-cM");
}

#[test]
fn challenge_is_deterministic() {
    let verifier = CodeVerifier::new();
    let first = CodeChallenge::from(&verifier);
    let second = CodeChallenge::from(&verifier);
    assert_eq!(first.as_str(), second.as_str());
    assert_eq!(first.as_str().len(), 43);
}

#[test]
fn fresh_verifier_is_long_enough() {
    let verifier = CodeVerifier::new();
    assert_eq!(verifier.as_str().len(), 86);
    assert!(verifier.as_str().len() >= 43);
    // distinct draws give distinct verifiers (512 bits of randomness)
    let other = CodeVerifier::new();
    assert_ne!(verifier.as_str(), other.as_str());
}

#[test]
fn verifier_round_trips_through_storage() {
    let mut store = KeyValueStore::new();
    let verifier = CodeVerifier::new();
    verifier.persist(&mut store);
    let back = CodeVerifier::retrieve(&store).expect("persisted verifier");
    assert_eq!(back.as_str(), verifier.as_str());
    CodeVerifier::unpersist(&mut store);
    assert!(CodeVerifier::retrieve(&store).is_none());
}

// The challenge of a known verifier differs from the verifier itself and
// from the challenge of a different verifier.
#[test]
fn challenge_depends_on_verifier() {
    let a = CodeVerifier { value: "a".repeat(43) };
    let b = CodeVerifier { value: "b".repeat(43) };
    let ca = CodeChallenge::from(&a);
    let cb = CodeChallenge::from(&b);
    assert_ne!(ca.as_str(), cb.as_str());
    assert_ne!(ca.as_str(), a.as_str());
}

#[test]
fn generated_values_use_the_url_safe_alphabet() {
    let is_url_safe = |s: &str| {
        s.chars().all(|c| c.is_ascii_alphanumeric() || c == '-' || c == '_')
    };
    assert!(is_url_safe(CodeVerifier::new().as_str()));
    assert!(is_url_safe(CodeChallenge::from(&CodeVerifier::new()).as_str()));
    assert!(is_url_safe(oauth2_pkce::csrf::State::new().as_str()));
    assert!(is_url_safe(oauth2_pkce::csrf::Nonce::new().as_str()));
}
