use oauth2_pkce::storage::KeyValueStore;
use oauth2_pkce::token::{decode_token, encode_token, TokenResponse};

fn sample_token(id_token: Option<String>) -> TokenResponse {
    TokenResponse {
        access_token: "acc-token-123".to_owned(),
        expires_in: 3600,
        ext_expires_in: 7200,
        refresh_token: "ref-token-456".to_owned(),
        scope: "api://app/access".to_owned(),
        token_type: "Bearer".to_owned(),
        id_token,
    }
}

fn assert_tokens_equal(a: &TokenResponse, b: &TokenResponse) {
    assert_eq!(a.access_token, b.access_token);
    assert_eq!(a.expires_in, b.expires_in);
    assert_eq!(a.ext_expires_in, b.ext_expires_in);
    assert_eq!(a.refresh_token, b.refresh_token);
    assert_eq!(a.scope, b.scope);
    assert_eq!(a.token_type, b.token_type);
    assert_eq!(a.id_token, b.id_token);
}

#[test]
fn codec_round_trips_without_id_token() {
    let token = sample_token(None);
    let text = encode_token(&token);
    let back = decode_token(&text).expect("canonical encoding decodes");
    assert_tokens_equal(&token, &back);
}

#[test]
fn codec_round_trips_with_id_token() {
    let token = sample_token(Some("h.p.s".to_owned()));
    let text = encode_token(&token);
    let back = decode_token(&text).expect("canonical encoding decodes");
    assert_tokens_equal(&token, &back);
}

#[test]
fn codec_round_trips_awkward_values() {
    let token = TokenResponse {
        access_token: "with:colon&and=chars".to_owned(),
        expires_in: -5,
        ext_expires_in: i64::MAX,
        refresh_token: "".to_owned(),
        scope: "two words".to_owned(),
        token_type: "1:2:3".to_owned(),
        id_token: Some("".to_owned()),
    };
    let text = encode_token(&token);
    let back = decode_token(&text).expect("canonical encoding decodes");
    assert_tokens_equal(&token, &back);
}

#[test]
fn codec_rejects_tampered_text() {
    let token = sample_token(None);
    let text = encode_token(&token);
    assert!(decode_token("").is_none());
    assert!(decode_token("garbage").is_none());
    let mut truncated = text.clone();
    truncated.pop();
    assert!(decode_token(&truncated).is_none());
    let mut extended = text.clone();
    extended.push('x');
    assert!(decode_token(&extended).is_none());
}

// Token expiry: persisted at T with expires_in = 3600, the token is
// returned at T + 3595 and no longer at T + 3600.
#[test]
fn expiry_minus_safety_margin_honored_exactly() {
    let mut store = KeyValueStore::new();
    let token = sample_token(None);
    let t: i64 = 1_700_000_000;
    token.persist(&mut store, t);
    assert!(TokenResponse::retrieve(&store, t + 3595).is_some());
    assert!(TokenResponse::retrieve(&store, t + 3596).is_none());
    assert!(TokenResponse::retrieve(&store, t + 3600).is_none());
    assert!(TokenResponse::retrieve(&store, t).is_some());
}

#[test]
fn retrieve_unchecked_ignores_expiry() {
    let mut store = KeyValueStore::new();
    let token = sample_token(None);
    let t: i64 = 1_700_000_000;
    token.persist(&mut store, t);
    let stale_time = t + 1_000_000;
    assert!(TokenResponse::retrieve(&store, stale_time).is_none());
    let back = TokenResponse::retrieve_unchecked(&store).expect("still stored");
    assert_tokens_equal(&token, &back);
}

#[test]
fn retrieve_without_expiry_entry_is_none() {
    let mut store = KeyValueStore::new();
    // a token entry alone, without its expiry companion, never counts as valid
    store.set("oauth_token_response", &encode_token(&sample_token(None)));
    assert!(TokenResponse::retrieve(&store, 0).is_none());
    assert!(TokenResponse::retrieve_unchecked(&store).is_some());
}

#[test]
fn retrieve_with_malformed_expiry_is_none() {
    let mut store = KeyValueStore::new();
    let token = sample_token(None);
    token.persist(&mut store, 100);
    store.set("oauth_token_response_expiration", "not-a-number");
    assert!(TokenResponse::retrieve(&store, 0).is_none());
}

#[test]
fn unpersist_removes_both_entries() {
    let mut store = KeyValueStore::new();
    let token = sample_token(None);
    token.persist(&mut store, 100);
    token.unpersist(&mut store);
    assert!(store.get("oauth_token_response").is_none());
    assert!(store.get("oauth_token_response_expiration").is_none());
    assert!(TokenResponse::retrieve_unchecked(&store).is_none());
}

#[test]
fn persist_overwrites_prior_token() {
    let mut store = KeyValueStore::new();
    let first = sample_token(None);
    first.persist(&mut store, 100);
    let mut second = sample_token(Some("x.y.z".to_owned()));
    second.access_token = "newer".to_owned();
    second.persist(&mut store, 200);
    let back = TokenResponse::retrieve_unchecked(&store).expect("stored");
    assert_tokens_equal(&second, &back);
}
