use base64::Engine;
use oauth2_pkce::azure::{
    AuthorizationCodeFlowWithPKCE, AzureIdToken, LoginStep, RefreshOutcome, SilentStep,
};
use oauth2_pkce::pkce::{CodeChallenge, CodeVerifier};
use oauth2_pkce::storage::KeyValueStore;
use oauth2_pkce::token::TokenResponse;

const ORIGIN: &str = "http://localhost:8080";

fn standard_engine() -> AuthorizationCodeFlowWithPKCE {
    AuthorizationCodeFlowWithPKCE::new(
        "client-1".to_owned(),
        "tenant-1".to_owned(),
        "api://aud/access".to_owned(),
    )
}

fn hybrid_engine() -> AuthorizationCodeFlowWithPKCE {
    let mut engine = standard_engine();
    engine.with_hybrid_flow();
    engine.with_session_storage();
    engine
}

fn provider_token(id_token: Option<String>) -> TokenResponse {
    TokenResponse {
        access_token: "acc-1".to_owned(),
        expires_in: 3600,
        ext_expires_in: 3600,
        refresh_token: "ref-1".to_owned(),
        scope: "api://aud/access".to_owned(),
        token_type: "Bearer".to_owned(),
        id_token,
    }
}

fn fake_jwt(nonce: &str) -> String {
    let enc = base64::engine::general_purpose::URL_SAFE_NO_PAD;
    let header = enc.encode(b"{\"alg\":\"RS256\",\"typ\":\"JWT\",\"kid\":\"k1\"}");
    let payload = enc.encode(format!("{{\"sub\":\"user-1\",\"nonce\":\"{}\"}}", nonce).as_bytes());
    format!("{}.{}.fakesig", header, payload)
}

// End-to-end standard flow: fresh login builds the query-mode redirect, a
// valid callback leads to an exchange carrying the persisted verifier, and a
// successful exchange response authenticates.
#[test]
fn standard_flow_end_to_end() {
    let mut engine = standard_engine();
    let mut store = KeyValueStore::new();

    let step = engine.login_with_redirect(&mut store, "", "", ORIGIN).expect("fresh login");
    let url = match step {
        LoginStep::Redirect(url) => url,
        _ => panic!("fresh attempt must redirect"),
    };
    assert!(url.starts_with("https://login.microsoftonline.com/tenant-1/oauth2/v2.0/authorize?"));
    assert!(url.contains("response_type=code"));
    assert!(!url.contains("response_type=code%20id_token"));
    assert!(url.contains("response_mode=query"));
    assert!(url.contains("client_id=client-1"));
    assert!(url.contains("code_challenge_method=S256"));
    assert!(url.contains("redirect_uri=http%3A%2F%2Flocalhost%3A8080"));
    assert!(!url.contains("&nonce="));

    let state = store.get("oauth_csrf_state").expect("state issued");
    let verifier = store.get("oauth_pkce_code_verifier").expect("verifier issued");
    let challenge = CodeChallenge::from(&CodeVerifier { value: verifier.clone() });
    assert!(url.contains(&format!("code_challenge={}", challenge.as_str())));

    let query = format!("?code=authcode-1&state={}", state);
    let step = engine.login_with_redirect(&mut store, &query, "", ORIGIN).expect("callback");
    let request = match step {
        LoginStep::Exchange(request) => request,
        _ => panic!("valid callback must exchange"),
    };
    assert_eq!(request.code, "authcode-1");
    assert_eq!(request.state, state);
    assert_eq!(request.code_verifier, verifier);
    assert_eq!(request.url, "https://login.microsoftonline.com/tenant-1/oauth2/v2.0/token");
    assert!(request.id_token.is_none());
    let form = request.form_params();
    assert!(form.contains(&("grant_type".to_owned(), "authorization_code".to_owned())));
    assert!(form.contains(&("code_verifier".to_owned(), verifier.clone())));
    assert!(form.contains(&("redirect_uri".to_owned(), ORIGIN.to_owned())));

    let now: i64 = 1_700_000_000;
    engine.complete_login(&mut store, provider_token(Some("from-exchange".to_owned())), request.id_token, now);
    assert!(engine.is_authenticated);
    assert!(store.get("oauth_csrf_state").is_none());
    assert!(store.get("oauth_pkce_code_verifier").is_none());
    let stored = TokenResponse::retrieve(&store, now + 10).expect("fresh token is valid");
    assert_eq!(stored.access_token, "acc-1");
    // the standard flow stores no id_token, whatever the exchange returned
    assert!(stored.id_token.is_none());
}

// End-to-end CSRF attack: a callback with a code but a garbage state clears
// the material and routes to the forbidden outcome; no exchange happens.
#[test]
fn csrf_attack_routes_to_forbidden() {
    let mut engine = standard_engine();
    let mut store = KeyValueStore::new();
    let step = engine.login_with_redirect(&mut store, "", "", ORIGIN).expect("fresh login");
    assert!(matches!(step, LoginStep::Redirect(_)));
    let issued_state = store.get("oauth_csrf_state").expect("state issued");

    let step = engine
        .login_with_redirect(&mut store, "?code=evil&state=garbage", "", ORIGIN)
        .expect("forbidden is a defined outcome, not an error");
    assert!(matches!(step, LoginStep::Forbidden));
    assert!(store.get("oauth_csrf_state").is_none());
    assert!(store.get("oauth_pkce_code_verifier").is_none());
    assert!(!engine.is_authenticated);
    assert!(TokenResponse::retrieve_unchecked(&store).is_none());

    // replaying the originally issued state after resolution fails too
    let query = format!("?code=evil&state={}", issued_state);
    let step = engine.login_with_redirect(&mut store, &query, "", ORIGIN).expect("replay");
    assert!(matches!(step, LoginStep::Forbidden));
}

#[test]
fn callback_without_state_is_malformed_and_clears() {
    let mut engine = standard_engine();
    let mut store = KeyValueStore::new();
    engine.login_with_redirect(&mut store, "", "", ORIGIN).expect("fresh login");
    let r = engine.login_with_redirect(&mut store, "?code=abc", "", ORIGIN);
    assert!(r.is_err());
    assert!(store.get("oauth_csrf_state").is_none());
    assert!(store.get("oauth_pkce_code_verifier").is_none());
}

// Hybrid nonce binding: an id_token whose nonce claim does not match the
// issued nonce always routes to the forbidden outcome, never to an exchange.
#[test]
fn hybrid_nonce_mismatch_is_forbidden() {
    let mut engine = hybrid_engine();
    let mut store = KeyValueStore::new();

    let step = engine.login_with_redirect(&mut store, "", "", ORIGIN).expect("fresh login");
    let url = match step {
        LoginStep::Redirect(url) => url,
        _ => panic!("fresh attempt must redirect"),
    };
    assert!(url.contains("response_type=code%20id_token"));
    assert!(url.contains("response_mode=fragment"));
    assert!(url.contains("&nonce="));
    assert!(url.contains("scope=openid%20api://aud/access"));
    let state = store.get("oauth_csrf_state").expect("state issued");
    assert!(store.get("oauth_csrf_nonce").is_some());

    let fragment = format!("#code=c1&id_token={}&state={}", fake_jwt("not-the-nonce"), state);
    let step = engine.login_with_redirect(&mut store, "", &fragment, ORIGIN).expect("callback");
    assert!(matches!(step, LoginStep::Forbidden));
    assert!(store.get("oauth_csrf_state").is_none());
    assert!(store.get("oauth_csrf_nonce").is_none());
    assert!(store.get("oauth_pkce_code_verifier").is_none());
    assert!(!engine.is_authenticated);
}

#[test]
fn hybrid_matching_nonce_reaches_exchange() {
    let mut engine = hybrid_engine();
    let mut store = KeyValueStore::new();
    engine.login_with_redirect(&mut store, "", "", ORIGIN).expect("fresh login");
    let state = store.get("oauth_csrf_state").expect("state issued");
    let nonce = store.get("oauth_csrf_nonce").expect("nonce issued");

    let jwt = fake_jwt(&nonce);
    let fragment = format!("#code=c1&id_token={}&state={}", jwt, state);
    let step = engine.login_with_redirect(&mut store, "", &fragment, ORIGIN).expect("callback");
    let request = match step {
        LoginStep::Exchange(request) => request,
        _ => panic!("matching nonce must reach the exchange"),
    };
    assert_eq!(request.id_token, Some(jwt));
    assert_eq!(request.code, "c1");
}

#[test]
fn hybrid_missing_id_token_is_malformed() {
    let mut engine = hybrid_engine();
    let mut store = KeyValueStore::new();
    engine.login_with_redirect(&mut store, "", "", ORIGIN).expect("fresh login");
    let state = store.get("oauth_csrf_state").expect("state issued");
    let fragment = format!("#code=c1&state={}", state);
    let r = engine.login_with_redirect(&mut store, "", &fragment, ORIGIN);
    assert!(r.is_err());
    assert!(store.get("oauth_csrf_state").is_none());
    assert!(store.get("oauth_csrf_nonce").is_none());
}

// Silent refresh fallback: a stored token with a refresh token, a refresh
// endpoint that refuses — the stale token is cleared and a login redirect
// follows.
#[test]
fn silent_refresh_fallback_clears_and_redirects() {
    let engine = standard_engine();
    let mut store = KeyValueStore::new();
    let t: i64 = 1_700_000_000;
    provider_token(None).persist(&mut store, t);

    let stale_time = t + 10_000;
    let step = engine.acquire_token_silent_at(&store, ORIGIN, stale_time);
    let request = match step {
        SilentStep::Refresh(request) => request,
        _ => panic!("an expired token asks for a refresh"),
    };
    assert_eq!(request.refresh_token, "ref-1");
    assert_eq!(request.url, "https://login.microsoftonline.com/tenant-1/oauth2/v2.0/token");
    let form = request.form_params();
    assert!(form.contains(&("grant_type".to_owned(), "refresh_token".to_owned())));
    assert!(form.contains(&("refresh_token".to_owned(), "ref-1".to_owned())));

    // the provider answered HTTP 400: no new token
    let outcome = engine.complete_refresh(&mut store, None, stale_time);
    assert!(matches!(outcome, RefreshOutcome::LoginFallback));
    assert!(store.get("oauth_token_response").is_none());
    assert!(store.get("oauth_token_response_expiration").is_none());

    // the fallback re-enters the login flow, which redirects afresh
    let mut engine = engine;
    let step = engine.login_with_redirect(&mut store, "", "", ORIGIN).expect("fallback login");
    assert!(matches!(step, LoginStep::Redirect(_)));
}

#[test]
fn silent_acquisition_uses_valid_cache() {
    let engine = standard_engine();
    let mut store = KeyValueStore::new();
    let t: i64 = 1_700_000_000;
    provider_token(None).persist(&mut store, t);
    match engine.acquire_token_silent_at(&store, ORIGIN, t + 100) {
        SilentStep::Token(token) => assert_eq!(token.access_token, "acc-1"),
        _ => panic!("a valid cached token is returned directly"),
    }
}

#[test]
fn silent_acquisition_with_empty_store_logs_in() {
    let engine = standard_engine();
    let store = KeyValueStore::new();
    assert!(matches!(engine.acquire_token_silent_at(&store, ORIGIN, 0), SilentStep::Login));
}

#[test]
fn successful_refresh_persists_new_token() {
    let engine = standard_engine();
    let mut store = KeyValueStore::new();
    let t: i64 = 1_700_000_000;
    provider_token(None).persist(&mut store, t);
    let mut newer = provider_token(None);
    newer.access_token = "acc-2".to_owned();
    let outcome = engine.complete_refresh(&mut store, Some(newer), t + 10_000);
    match outcome {
        RefreshOutcome::Refreshed(token) => assert_eq!(token.access_token, "acc-2"),
        _ => panic!("a successful refresh returns the new token"),
    }
    let cached = TokenResponse::retrieve(&store, t + 10_100).expect("refreshed token is valid");
    assert_eq!(cached.access_token, "acc-2");
}

#[test]
fn extract_params_standard_reads_query_only() {
    let engine = standard_engine();
    let (code, id_token, state) = engine.extract_auth_params_from_url("?code=1&state=2", "#code=9");
    assert_eq!(code, Some("1".to_owned()));
    assert_eq!(id_token, None);
    assert_eq!(state, Some("2".to_owned()));
}

#[test]
fn extract_params_hybrid_reads_fragment_and_decodes() {
    let engine = hybrid_engine();
    let (code, id_token, state) =
        engine.extract_auth_params_from_url("?code=q", "#code=a%2Bb&id_token=t.t.t&state=x+y");
    assert_eq!(code, Some("a+b".to_owned()));
    assert_eq!(id_token, Some("t.t.t".to_owned()));
    assert_eq!(state, Some("x y".to_owned()));
}

#[test]
fn id_token_claims_parse_from_payload() {
    let jwt = fake_jwt("nonce-123");
    let claims = AzureIdToken::from_str(&jwt).expect("well-formed payload");
    assert_eq!(claims.sub, "user-1");
    assert_eq!(claims.nonce, "nonce-123");
    assert!(AzureIdToken::from_str("no-dots-here").is_err());
    assert!(AzureIdToken::from_str("a.!!!.c").is_err());
    assert!(AzureIdToken::from_str("a.aGVsbG8.c").is_err());
}

#[test]
fn builder_setters_configure_the_engine() {
    let mut engine = standard_engine();
    assert!(!engine.hybrid_flow);
    engine.with_hybrid_flow();
    assert!(engine.hybrid_flow);
    engine.with_session_storage();
    assert_eq!(engine.persistence, oauth2_pkce::storage::StorageType::SessionStorage);
    engine.with_local_storage();
    assert_eq!(engine.persistence, oauth2_pkce::storage::StorageType::LocalStorage);
    assert!(!engine.is_authenticated);
}

#[test]
fn missing_verifier_fails_the_exchange() {
    let mut engine = standard_engine();
    let mut store = KeyValueStore::new();
    engine.login_with_redirect(&mut store, "", "", ORIGIN).expect("fresh login");
    let state = store.get("oauth_csrf_state").expect("state issued");
    // a tampered or expired flow: the verifier is gone but the state matches
    store.remove("oauth_pkce_code_verifier");
    let query = format!("?code=c1&state={}", state);
    let r = engine.login_with_redirect(&mut store, &query, "", ORIGIN);
    assert!(r.is_err());
    assert!(store.get("oauth_csrf_state").is_none());
}

#[test]
fn hybrid_undecodable_id_token_is_malformed() {
    let mut engine = hybrid_engine();
    let mut store = KeyValueStore::new();
    engine.login_with_redirect(&mut store, "", "", ORIGIN).expect("fresh login");
    let state = store.get("oauth_csrf_state").expect("state issued");
    let fragment = format!("#code=c1&id_token=not-a-jwt&state={}", state);
    let r = engine.login_with_redirect(&mut store, "", &fragment, ORIGIN);
    assert!(r.is_err());
    assert!(store.get("oauth_csrf_state").is_none());
    assert!(store.get("oauth_csrf_nonce").is_none());
    assert!(store.get("oauth_pkce_code_verifier").is_none());
}
