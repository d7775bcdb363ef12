use oauth2_pkce::csrf::{Nonce, State};
use oauth2_pkce::oidc::Configuration;
use oauth2_pkce::params::Params;
use oauth2_pkce::decimal::{i64_to_string, parse_i64, u64_to_string};
use oauth2_pkce::storage::{KeyValueStore, StorageType};

#[test]
fn store_set_get_remove() {
    let mut store = KeyValueStore::new();
    assert!(store.get("a").is_none());
    store.set("a", "1");
    store.set("b", "2");
    assert_eq!(store.get("a").unwrap(), "1");
    assert_eq!(store.get("b").unwrap(), "2");
    store.set("a", "3");
    assert_eq!(store.get("a").unwrap(), "3");
    store.remove("a");
    assert!(store.get("a").is_none());
    assert_eq!(store.get("b").unwrap(), "2");
    store.remove("missing");
    assert!(store.contains("b"));
}

#[test]
fn storage_type_defaults_to_local() {
    assert_eq!(StorageType::default(), StorageType::LocalStorage);
}

#[test]
fn csrf_state_matches_only_exact_value() {
    let mut store = KeyValueStore::new();
    let state = State::new();
    state.persist(&mut store);
    assert!(State::exists_and_matches_raw(&store, state.as_str()));
    assert!(!State::exists_and_matches_raw(&store, "something-else"));
}

// CSRF single-use: once the stored value is gone, replaying the previously
// issued value always fails.
#[test]
fn csrf_replay_after_clear_fails() {
    let mut store = KeyValueStore::new();
    let state = State::new();
    state.persist(&mut store);
    let issued = state.as_str().to_owned();
    assert!(State::exists_and_matches_raw(&store, &issued));
    State::unpersist(&mut store);
    assert!(!State::exists_and_matches_raw(&store, &issued));

    let nonce = Nonce::new();
    nonce.persist(&mut store);
    let issued_nonce = nonce.as_str().to_owned();
    assert!(Nonce::exists_and_matches_raw(&store, &issued_nonce));
    Nonce::unpersist(&mut store);
    assert!(!Nonce::exists_and_matches_raw(&store, &issued_nonce));
}

#[test]
fn csrf_missing_value_is_invalid_not_error() {
    let store = KeyValueStore::new();
    assert!(!State::exists_and_matches_raw(&store, "anything"));
    assert!(!Nonce::exists_and_matches_raw(&store, ""));
    assert!(State::retrieve(&store).is_none());
    assert!(Nonce::retrieve(&store).is_none());
}

#[test]
fn decimal_renders_canonically() {
    assert_eq!(u64_to_string(0), "0");
    assert_eq!(u64_to_string(7), "7");
    assert_eq!(u64_to_string(1234567890123456789), "1234567890123456789");
    assert_eq!(i64_to_string(0), "0");
    assert_eq!(i64_to_string(-1), "-1");
    assert_eq!(i64_to_string(i64::MAX), "9223372036854775807");
    assert_eq!(i64_to_string(i64::MIN), "-9223372036854775808");
}

#[test]
fn decimal_parses_exactly_the_canonical_forms() {
    assert_eq!(parse_i64("0"), Some(0));
    assert_eq!(parse_i64("42"), Some(42));
    assert_eq!(parse_i64("-42"), Some(-42));
    assert_eq!(parse_i64("9223372036854775807"), Some(i64::MAX));
    assert_eq!(parse_i64("-9223372036854775808"), Some(i64::MIN));
    assert_eq!(parse_i64(""), None);
    assert_eq!(parse_i64("-"), None);
    assert_eq!(parse_i64("007"), None);
    assert_eq!(parse_i64("-0"), None);
    assert_eq!(parse_i64("+5"), None);
    assert_eq!(parse_i64("12a"), None);
    assert_eq!(parse_i64("9223372036854775808"), None);
    assert_eq!(parse_i64("-9223372036854775809"), None);
    assert_eq!(parse_i64("99999999999999999999999999"), None);
}

#[test]
fn decimal_round_trips() {
    let samples: Vec<i64> = vec![0, 1, -1, 9, 10, -10, 3599, 1700000000, i64::MAX, i64::MIN];
    for v in samples {
        assert_eq!(parse_i64(&i64_to_string(v)), Some(v));
    }
}

#[test]
fn param_names_match_the_wire() {
    assert_eq!(Params::ClientId.as_str(), "client_id");
    assert_eq!(Params::Code.as_str(), "code");
    assert_eq!(Params::GrantType.as_str(), "grant_type");
    assert_eq!(Params::ResponseType.as_str(), "response_type");
    assert_eq!(Params::RedirectUri.as_str(), "redirect_uri");
    assert_eq!(Params::ResponseMode.as_str(), "response_mode");
    assert_eq!(Params::Scope.as_str(), "scope");
    assert_eq!(Params::State.as_str(), "state");
    assert_eq!(Params::CodeChallenge.as_str(), "code_challenge");
    assert_eq!(Params::CodeChallengeMethod.as_str(), "code_challenge_method");
    assert_eq!(Params::CodeVerifier.as_str(), "code_verifier");
    assert_eq!(Params::RefreshToken.as_str(), "refresh_token");
    assert_eq!(Params::Nonce.as_str(), "nonce");
}

#[test]
fn configuration_holds_the_endpoints() {
    let c = Configuration::new("https://t.example/token".to_owned(), "https://t.example/auth".to_owned());
    assert_eq!(c.token_endpoint, "https://t.example/token");
    assert_eq!(c.authorization_endpoint, "https://t.example/auth");
}
