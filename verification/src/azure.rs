//! The authorization state machine: building the authorize redirect,
//! handling the callback (CSRF state, hybrid nonce binding), preparing the
//! token exchange, and silent acquisition with refresh fallback.
//!
//! Browser navigation and network calls belong to the surrounding
//! application.  The engine decides: each public step function takes the
//! plain values the application read (callback query/fragment, the current
//! origin, a network response) and returns what to do next, with the store
//! effects stated exactly.

use vstd::prelude::*;

use crate::crypto;
use crate::csrf;
use crate::error::AuthError;
use crate::json;
use crate::params::{param_key, Params};
use crate::pkce;
use crate::storage::{KeyValueStore, StorageType};
use crate::decimal::spec_int_str;
use crate::token::{
    encode_spec, expiry_key, lemma_find_at, lemma_find_none, repr, spec_find, spec_stored_token,
    spec_token_valid_at, token_key, unix_now, TokenData, TokenResponse, EXPIRY_SAFETY_MARGIN,
};
use crate::urlenc;
use crate::urlenc::{lookup_param, pairs_view, query_pairs_of, url_parse_of, urlencoded_of};

verus! {

/// The claims this engine reads from a hybrid-flow `id_token`.
#[derive(Clone, Debug)]
pub struct AzureIdToken {
    pub sub: String,
    pub nonce: String,
}

/// The second dot-separated segment of a JWT: its payload, still encoded.
pub open spec fn spec_jwt_payload(s: Seq<char>) -> Option<Seq<char>> {
    match spec_find(s, 0, '.') {
        None => None,
        Some(i) => match spec_find(s, i + 1, '.') {
            Some(j) => Some(s.subrange(i + 1, j)),
            None => Some(s.subrange(i + 1, s.len() as int)),
        },
    }
}

fn find_char(s: &str, n: usize, from: usize, c: char) -> (r: Option<usize>)
    requires
        n == s@.len(),
        from <= n,
    ensures
        match r {
            Some(j) => spec_find(s@, from as int, c) == Some(j as int) && from <= j < n,
            None => spec_find(s@, from as int, c) is None,
        },
{
    let mut j: usize = from;
    while j < n && s.get_char(j) != c
        invariant
            from <= j <= n,
            n == s@.len(),
            forall|k: int| from <= k < j ==> s@[k] != c,
        decreases n - j,
    {
        j = j + 1;
    }
    if j == n {
        proof {
            lemma_find_none(s@, from as int, c);
        }
        None
    } else {
        proof {
            lemma_find_at(s@, from as int, j as int, c);
        }
        Some(j)
    }
}

/// The claims this engine reads out of a raw JWT, as a function of its text:
/// the payload segment base64url-decoded, read as UTF-8 JSON, and its `sub`
/// and `nonce` string claims, in that order; `None` when any step refuses.
pub open spec fn spec_id_token_claims(s: Seq<char>) -> Option<(Seq<char>, Seq<char>)> {
    match spec_jwt_payload(s) {
        None => None,
        Some(segment) => match crypto::b64url_decode_of(segment) {
            None => None,
            Some(bytes) => if !vstd::utf8::valid_utf8(bytes) {
                None
            } else {
                match (
                    json::json_text_entry(vstd::utf8::decode_utf8(bytes), "sub"@),
                    json::json_text_entry(vstd::utf8::decode_utf8(bytes), "nonce"@),
                ) {
                    (Some(sub), Some(nonce)) => Some((sub, nonce)),
                    _ => None,
                }
            },
        },
    }
}

impl AzureIdToken {
    /// Decodes the unverified claims out of a raw JWT: base64url-decodes the
    /// payload segment, reads it as JSON, and picks the `sub` and `nonce`
    /// string claims — exactly [`spec_id_token_claims`] of the text.  Any
    /// failure along the way is a malformed token.
    pub fn from_str(s: &str) -> (r: Result<AzureIdToken, AuthError>)
        ensures
            match r {
                Ok(t) => spec_id_token_claims(s@) == Some((t.sub@, t.nonce@)),
                Err(e) => e == AuthError::MalformedToken && spec_id_token_claims(s@) is None,
            },
    {
        let n = s.unicode_len();
        let i = match find_char(s, n, 0, '.') {
            Some(i) => i,
            None => {
                return Err(AuthError::MalformedToken);
            },
        };
        let j = match find_char(s, n, i + 1, '.') {
            Some(j) => j,
            None => n,
        };
        let segment = s.substring_char(i + 1, j).to_owned();
        let bytes = match crypto::b64url_decode(segment.as_str()) {
            Some(b) => b,
            None => {
                return Err(AuthError::MalformedToken);
            },
        };
        let text = match crypto::utf8_to_string(bytes) {
            Some(t) => t,
            None => {
                return Err(AuthError::MalformedToken);
            },
        };
        let value = match json::json_parse(text.as_str()) {
            Some(v) => v,
            None => {
                return Err(AuthError::MalformedToken);
            },
        };
        let sub = match json::json_get(&value, "sub") {
            Some(v) => match json::json_as_str(v) {
                Some(text) => text,
                None => {
                    return Err(AuthError::MalformedToken);
                },
            },
            None => {
                return Err(AuthError::MalformedToken);
            },
        };
        let nonce = match json::json_get(&value, "nonce") {
            Some(v) => match json::json_as_str(v) {
                Some(text) => text,
                None => {
                    return Err(AuthError::MalformedToken);
                },
            },
            None => {
                return Err(AuthError::MalformedToken);
            },
        };
        Ok(AzureIdToken { sub, nonce })
    }
}

/// The engine: immutable flow configuration plus the observable
/// authentication flag.
#[derive(Debug)]
pub struct AuthorizationCodeFlowWithPKCE {
    /// Set once a login attempt completes successfully; the application
    /// mirrors it into its shared observable cell.
    pub is_authenticated: bool,
    pub hybrid_flow: bool,
    pub persistence: StorageType,
    pub security_client_id: String,
    pub security_tenant_id: String,
    pub security_audience_id: String,
}

/// Both values hold the same flow configuration.
pub open spec fn same_config(
    a: &AuthorizationCodeFlowWithPKCE,
    b: &AuthorizationCodeFlowWithPKCE,
) -> bool {
    &&& a.hybrid_flow == b.hybrid_flow
    &&& a.persistence == b.persistence
    &&& a.security_client_id@ == b.security_client_id@
    &&& a.security_tenant_id@ == b.security_tenant_id@
    &&& a.security_audience_id@ == b.security_audience_id@
}

/// The provider's authorize endpoint for a tenant.
pub open spec fn spec_authorize_endpoint(tenant: Seq<char>) -> Seq<char> {
    "https://login.microsoftonline.com/"@ + tenant + "/oauth2/v2.0/authorize"@
}

/// The provider's token endpoint for a tenant.
pub open spec fn spec_token_endpoint(tenant: Seq<char>) -> Seq<char> {
    "https://login.microsoftonline.com/"@ + tenant + "/oauth2/v2.0/token"@
}

/// The authorize endpoint as the url crate renders it back; building the
/// redirect fails exactly when this has no value.
pub open spec fn spec_authorize_base(tenant: Seq<char>) -> Option<Seq<char>> {
    url_parse_of(spec_authorize_endpoint(tenant))
}

/// The store after issuing fresh material: nonce (hybrid only), state, and
/// PKCE verifier under their fixed keys.
pub open spec fn spec_issued(
    m: Map<Seq<char>, Seq<char>>,
    hybrid: bool,
    nonce: Seq<char>,
    state: Seq<char>,
    verifier: Seq<char>,
) -> Map<Seq<char>, Seq<char>> {
    if hybrid {
        m.insert(csrf::nonce_key(), nonce).insert(csrf::state_key(), state).insert(
            pkce::verifier_key(),
            verifier,
        )
    } else {
        m.insert(csrf::state_key(), state).insert(pkce::verifier_key(), verifier)
    }
}

/// The store after clearing all pending material of an attempt.
pub open spec fn spec_cleared(m: Map<Seq<char>, Seq<char>>, hybrid: bool) -> Map<
    Seq<char>,
    Seq<char>,
> {
    if hybrid {
        m.remove(csrf::state_key()).remove(pkce::verifier_key()).remove(csrf::nonce_key())
    } else {
        m.remove(csrf::state_key()).remove(pkce::verifier_key())
    }
}

/// The full authorize URL: every pair the provider needs, percent-encoded
/// the way the url crate encodes query pairs, with `scope` and
/// `response_type` appended in the provider's own pre-encoded form.
pub open spec fn spec_authorize_url(
    base: Seq<char>,
    hybrid: bool,
    client_id: Seq<char>,
    redirect_uri: Seq<char>,
    state: Seq<char>,
    challenge: Seq<char>,
    nonce: Seq<char>,
    audience: Seq<char>,
) -> Seq<char> {
    base + "?"@ + param_key(Params::ClientId) + "="@ + urlencoded_of(client_id) + "&"@ + param_key(
        Params::RedirectUri,
    ) + "="@ + urlencoded_of(redirect_uri) + "&"@ + param_key(Params::ResponseMode) + "="@
        + urlencoded_of(
        if hybrid {
            "fragment"@
        } else {
            "query"@
        },
    ) + "&"@ + param_key(Params::State) + "="@ + urlencoded_of(state) + "&"@ + param_key(
        Params::CodeChallenge,
    ) + "="@ + urlencoded_of(challenge) + "&"@ + param_key(Params::CodeChallengeMethod) + "="@
        + urlencoded_of("S256"@) + (if hybrid {
        "&"@ + param_key(Params::Nonce) + "="@ + urlencoded_of(nonce)
    } else {
        Seq::<char>::empty()
    }) + "&"@ + param_key(Params::Scope) + "="@ + (if hybrid {
        "openid%20"@ + audience
    } else {
        audience
    }) + "&"@ + param_key(Params::ResponseType) + "="@ + (if hybrid {
        "code%20id_token"@
    } else {
        "code"@
    })
}

/// The query or fragment text the callback parameters are read from: the
/// fragment (hybrid) or the query string (standard), with its leading marker
/// stripped.
pub open spec fn spec_callback_source(hybrid: bool, query: Seq<char>, fragment: Seq<char>) -> Seq<
    char,
> {
    if hybrid {
        if fragment.len() > 0 && fragment[0] == '#' {
            fragment.drop_first()
        } else {
            fragment
        }
    } else {
        if query.len() > 0 && query[0] == '?' {
            query.drop_first()
        } else {
            query
        }
    }
}

/// The callback parameter under `key`, if the callback carries one.
pub open spec fn spec_cb_param(
    hybrid: bool,
    query: Seq<char>,
    fragment: Seq<char>,
    key: Seq<char>,
) -> Option<Seq<char>> {
    lookup_param(query_pairs_of(spec_callback_source(hybrid, query, fragment)), key)
}

/// What the application must do next after a login step.
pub enum LoginStep {
    /// Navigate the browser to this authorize URL (fresh attempt).
    Redirect(String),
    /// Navigate to the forbidden destination; pending material was cleared.
    Forbidden,
    /// POST this token exchange, then hand the response to `complete_login`.
    Exchange(ExchangeRequest),
}

/// Everything the token-exchange POST needs, plus the hybrid-verified
/// `id_token` to attach to the response before persisting.
pub struct ExchangeRequest {
    pub url: String,
    pub client_id: String,
    pub scope: String,
    pub code: String,
    pub redirect_uri: String,
    pub state: String,
    pub code_verifier: String,
    pub id_token: Option<String>,
}

impl ExchangeRequest {
    /// The form fields of the exchange POST, in order.
    pub fn form_params(&self) -> (r: Vec<(String, String)>)
        ensures
            pairs_view(r@) == seq![
                (param_key(Params::ClientId), self.client_id@),
                (param_key(Params::Scope), self.scope@),
                (param_key(Params::Code), self.code@),
                (param_key(Params::RedirectUri), self.redirect_uri@),
                (param_key(Params::GrantType), "authorization_code"@),
                (param_key(Params::State), self.state@),
                (param_key(Params::CodeVerifier), self.code_verifier@),
            ],
    {
        let mut r: Vec<(String, String)> = Vec::new();
        r.push((Params::ClientId.as_str().to_owned(), self.client_id.clone()));
        r.push((Params::Scope.as_str().to_owned(), self.scope.clone()));
        r.push((Params::Code.as_str().to_owned(), self.code.clone()));
        r.push((Params::RedirectUri.as_str().to_owned(), self.redirect_uri.clone()));
        r.push((Params::GrantType.as_str().to_owned(), "authorization_code".to_owned()));
        r.push((Params::State.as_str().to_owned(), self.state.clone()));
        r.push((Params::CodeVerifier.as_str().to_owned(), self.code_verifier.clone()));
        proof {
            assert(pairs_view(r@) =~= seq![
                (param_key(Params::ClientId), self.client_id@),
                (param_key(Params::Scope), self.scope@),
                (param_key(Params::Code), self.code@),
                (param_key(Params::RedirectUri), self.redirect_uri@),
                (param_key(Params::GrantType), "authorization_code"@),
                (param_key(Params::State), self.state@),
                (param_key(Params::CodeVerifier), self.code_verifier@),
            ]);
        }
        r
    }
}

/// Everything the refresh POST needs.
pub struct RefreshRequest {
    pub url: String,
    pub client_id: String,
    pub scope: String,
    pub refresh_token: String,
    pub redirect_uri: String,
}

impl RefreshRequest {
    /// The form fields of the refresh POST, in order.
    pub fn form_params(&self) -> (r: Vec<(String, String)>)
        ensures
            pairs_view(r@) == seq![
                (param_key(Params::ClientId), self.client_id@),
                (param_key(Params::Scope), self.scope@),
                (param_key(Params::RefreshToken), self.refresh_token@),
                (param_key(Params::RedirectUri), self.redirect_uri@),
                (param_key(Params::GrantType), "refresh_token"@),
            ],
    {
        let mut r: Vec<(String, String)> = Vec::new();
        r.push((Params::ClientId.as_str().to_owned(), self.client_id.clone()));
        r.push((Params::Scope.as_str().to_owned(), self.scope.clone()));
        r.push((Params::RefreshToken.as_str().to_owned(), self.refresh_token.clone()));
        r.push((Params::RedirectUri.as_str().to_owned(), self.redirect_uri.clone()));
        r.push((Params::GrantType.as_str().to_owned(), "refresh_token".to_owned()));
        proof {
            assert(pairs_view(r@) =~= seq![
                (param_key(Params::ClientId), self.client_id@),
                (param_key(Params::Scope), self.scope@),
                (param_key(Params::RefreshToken), self.refresh_token@),
                (param_key(Params::RedirectUri), self.redirect_uri@),
                (param_key(Params::GrantType), "refresh_token"@),
            ]);
        }
        r
    }
}

/// What the application must do next for silent acquisition.
pub enum SilentStep {
    /// A valid cached token; no network call.
    Token(TokenResponse),
    /// POST this refresh, then hand the outcome to `complete_refresh`.
    Refresh(RefreshRequest),
    /// Nothing usable is stored: run `login_with_redirect`.
    Login,
}

/// What a silent-acquisition step means at time `now`: a valid cached token
/// is handed back as is, a stored but no longer valid one always asks for a
/// refresh carrying its refresh token, and only a store holding no decodable
/// token at all asks for a fresh login.
pub open spec fn spec_silent_step(
    engine: &AuthorizationCodeFlowWithPKCE,
    m: Map<Seq<char>, Seq<char>>,
    redirect_uri: Seq<char>,
    now: i64,
    r: SilentStep,
) -> bool {
    match r {
        SilentStep::Token(t) => spec_stored_token(m) == Some(repr(&t)) && spec_token_valid_at(
            m,
            now,
        ),
        SilentStep::Refresh(req) => {
            &&& !spec_token_valid_at(m, now)
            &&& match spec_stored_token(m) {
                Some(d) => req.refresh_token@ == d.refresh_token,
                None => false,
            }
            &&& req.url@ == spec_token_endpoint(engine.security_tenant_id@)
            &&& req.client_id@ == engine.security_client_id@
            &&& req.scope@ == engine.security_audience_id@
            &&& req.redirect_uri@ == redirect_uri
        },
        SilentStep::Login => spec_stored_token(m) is None,
    }
}

/// The outcome of `complete_refresh`.
pub enum RefreshOutcome {
    /// The refreshed token, already persisted.
    Refreshed(TokenResponse),
    /// The stale token was cleared; fall back to `login_with_redirect`.
    LoginFallback,
}

/// CSRF single-use (law): once an attempt has resolved and its pending
/// material was cleared, every candidate — the previously issued value
/// included — fails validation, for the state and (hybrid) the nonce alike.
pub proof fn lemma_csrf_single_use(
    m: Map<Seq<char>, Seq<char>>,
    hybrid: bool,
    candidate: Seq<char>,
)
    ensures
        !csrf::matches_stored(spec_cleared(m, hybrid), csrf::state_key(), candidate),
        hybrid ==> !csrf::matches_stored(spec_cleared(m, hybrid), csrf::nonce_key(), candidate),
{
}

/// Hybrid nonce binding (law): when no nonce is stored, or the stored nonce
/// differs from the claims' nonce, validation cannot succeed.
pub proof fn lemma_nonce_binding(m: Map<Seq<char>, Seq<char>>, claims_nonce: Seq<char>)
    requires
        !m.contains_key(csrf::nonce_key()) || m[csrf::nonce_key()] != claims_nonce,
    ensures
        !csrf::matches_stored(m, csrf::nonce_key(), claims_nonce),
{
}

impl AuthorizationCodeFlowWithPKCE {
    /// A fresh engine: standard (non-hybrid) flow, local storage scope, not
    /// authenticated.
    pub fn new(
        security_client_id: String,
        security_tenant_id: String,
        security_audience_id: String,
    ) -> (r: Self)
        ensures
            r.is_authenticated == false,
            r.hybrid_flow == false,
            r.persistence == StorageType::LocalStorage,
            r.security_client_id@ == security_client_id@,
            r.security_tenant_id@ == security_tenant_id@,
            r.security_audience_id@ == security_audience_id@,
    {
        AuthorizationCodeFlowWithPKCE {
            is_authenticated: false,
            hybrid_flow: false,
            persistence: StorageType::LocalStorage,
            security_client_id,
            security_tenant_id,
            security_audience_id,
        }
    }

    /// Persist values in the browser's local storage scope.
    pub fn with_local_storage(&mut self)
        ensures
            final(self).persistence == StorageType::LocalStorage,
            final(self).hybrid_flow == old(self).hybrid_flow,
            final(self).is_authenticated == old(self).is_authenticated,
            final(self).security_client_id@ == old(self).security_client_id@,
            final(self).security_tenant_id@ == old(self).security_tenant_id@,
            final(self).security_audience_id@ == old(self).security_audience_id@,
    {
        self.persistence = StorageType::LocalStorage;
    }

    /// Persist values in the browser's session storage scope.
    pub fn with_session_storage(&mut self)
        ensures
            final(self).persistence == StorageType::SessionStorage,
            final(self).hybrid_flow == old(self).hybrid_flow,
            final(self).is_authenticated == old(self).is_authenticated,
            final(self).security_client_id@ == old(self).security_client_id@,
            final(self).security_tenant_id@ == old(self).security_tenant_id@,
            final(self).security_audience_id@ == old(self).security_audience_id@,
    {
        self.persistence = StorageType::SessionStorage;
    }

    /// Use the OIDC hybrid flow: the callback arrives in the fragment and
    /// carries an `id_token` bound to the issued nonce.
    pub fn with_hybrid_flow(&mut self)
        ensures
            final(self).hybrid_flow == true,
            final(self).persistence == old(self).persistence,
            final(self).is_authenticated == old(self).is_authenticated,
            final(self).security_client_id@ == old(self).security_client_id@,
            final(self).security_tenant_id@ == old(self).security_tenant_id@,
            final(self).security_audience_id@ == old(self).security_audience_id@,
    {
        self.hybrid_flow = true;
    }

    fn authorize_endpoint(&self) -> (r: String)
        ensures
            r@ == spec_authorize_endpoint(self.security_tenant_id@),
    {
        let mut u = String::new();
        u.append("https://login.microsoftonline.com/");
        u.append(self.security_tenant_id.as_str());
        u.append("/oauth2/v2.0/authorize");
        proof {
            assert(u@ =~= spec_authorize_endpoint(self.security_tenant_id@));
        }
        u
    }

    /// The provider's token endpoint for this configuration.
    pub fn token_endpoint(&self) -> (r: String)
        ensures
            r@ == spec_token_endpoint(self.security_tenant_id@),
    {
        let mut u = String::new();
        u.append("https://login.microsoftonline.com/");
        u.append(self.security_tenant_id.as_str());
        u.append("/oauth2/v2.0/token");
        proof {
            assert(u@ =~= spec_token_endpoint(self.security_tenant_id@));
        }
        u
    }

    /// Assembles the authorize URL from a normalized base and the issued
    /// values, exactly as [`spec_authorize_url`] lays it out.
    pub fn compose_authorize_url(
        &self,
        base: &str,
        state: &str,
        challenge: &str,
        nonce: &str,
        redirect_uri: &str,
    ) -> (r: String)
        ensures
            r@ == spec_authorize_url(
                base@,
                self.hybrid_flow,
                self.security_client_id@,
                redirect_uri@,
                state@,
                challenge@,
                nonce@,
                self.security_audience_id@,
            ),
    {
        let mut u = base.to_owned();
        u.append("?");
        u.append(Params::ClientId.as_str());
        u.append("=");
        u.append(urlenc::urlencode(self.security_client_id.as_str()).as_str());
        u.append("&");
        u.append(Params::RedirectUri.as_str());
        u.append("=");
        u.append(urlenc::urlencode(redirect_uri).as_str());
        u.append("&");
        u.append(Params::ResponseMode.as_str());
        u.append("=");
        if self.hybrid_flow {
            u.append(urlenc::urlencode("fragment").as_str());
        } else {
            u.append(urlenc::urlencode("query").as_str());
        }
        u.append("&");
        u.append(Params::State.as_str());
        u.append("=");
        u.append(urlenc::urlencode(state).as_str());
        u.append("&");
        u.append(Params::CodeChallenge.as_str());
        u.append("=");
        u.append(urlenc::urlencode(challenge).as_str());
        u.append("&");
        u.append(Params::CodeChallengeMethod.as_str());
        u.append("=");
        u.append(urlenc::urlencode("S256").as_str());
        if self.hybrid_flow {
            u.append("&");
            u.append(Params::Nonce.as_str());
            u.append("=");
            u.append(urlenc::urlencode(nonce).as_str());
        }
        u.append("&");
        u.append(Params::Scope.as_str());
        u.append("=");
        if self.hybrid_flow {
            u.append("openid%20");
            u.append(self.security_audience_id.as_str());
        } else {
            u.append(self.security_audience_id.as_str());
        }
        u.append("&");
        u.append(Params::ResponseType.as_str());
        u.append("=");
        if self.hybrid_flow {
            u.append("code%20id_token");
        } else {
            u.append("code");
        }
        proof {
            assert(u@ =~= spec_authorize_url(
                base@,
                self.hybrid_flow,
                self.security_client_id@,
                redirect_uri@,
                state@,
                challenge@,
                nonce@,
                self.security_audience_id@,
            ));
        }
        u
    }

    /// Issues fresh CSRF state, a hybrid nonce when configured, and a PKCE
    /// verifier; persists them; and builds the authorize URL around the
    /// derived challenge.  Fails exactly when the provider base URL does not
    /// parse, leaving the store untouched.
    pub fn build_authorize_endpoint(&self, store: &mut KeyValueStore, redirect_uri: &str) -> (r:
        Result<String, AuthError>)
        ensures
            r is Err <==> spec_authorize_base(self.security_tenant_id@) is None,
            match r {
                Ok(u) => exists|state: Seq<char>, verifier: Seq<char>, nonce: Seq<char>|
                    {
                        &&& final(store)@ == spec_issued(
                            old(store)@,
                            self.hybrid_flow,
                            nonce,
                            state,
                            verifier,
                        )
                        &&& spec_authorize_base(self.security_tenant_id@) matches Some(base)
                            && u@ == spec_authorize_url(
                            base,
                            self.hybrid_flow,
                            self.security_client_id@,
                            redirect_uri@,
                            state,
                            pkce::spec_challenge(verifier),
                            nonce,
                            self.security_audience_id@,
                        )
                        &&& verifier.len() == 86
                    },
                Err(e) => e == AuthError::NetworkOrProviderError && final(store)@ == old(store)@,
            },
    {
        let endpoint = self.authorize_endpoint();
        let base = match urlenc::parse_url(endpoint.as_str()) {
            Some(b) => b,
            None => {
                return Err(AuthError::NetworkOrProviderError);
            },
        };
        let csrf_nonce = csrf::Nonce::new();
        if self.hybrid_flow {
            csrf_nonce.persist(store);
        }
        let csrf_state = csrf::State::new();
        csrf_state.persist(store);
        let pkce_code_verifier = pkce::CodeVerifier::new();
        pkce_code_verifier.persist(store);
        let pkce_code_challenge = pkce::CodeChallenge::from(&pkce_code_verifier);
        let url = self.compose_authorize_url(
            base.as_str(),
            csrf_state.as_str(),
            pkce_code_challenge.as_str(),
            csrf_nonce.as_str(),
            redirect_uri,
        );
        proof {
            assert(final(store)@ == spec_issued(
                old(store)@,
                self.hybrid_flow,
                csrf_nonce.value@,
                csrf_state.value@,
                pkce_code_verifier.value@,
            ));
        }
        Ok(url)
    }

    /// Reads the callback parameters: `code`, `id_token` (hybrid only) and
    /// `state`, from the fragment (hybrid) or query string (standard).
    pub fn extract_auth_params_from_url(&self, query: &str, fragment: &str) -> (r: (
        Option<String>,
        Option<String>,
        Option<String>,
    ))
        ensures
            match r.0 {
                Some(v) => spec_cb_param(self.hybrid_flow, query@, fragment@, param_key(Params::Code))
                    == Some(v@),
                None => spec_cb_param(self.hybrid_flow, query@, fragment@, param_key(Params::Code))
                    is None,
            },
            match r.1 {
                Some(v) => self.hybrid_flow && spec_cb_param(
                    self.hybrid_flow,
                    query@,
                    fragment@,
                    "id_token"@,
                ) == Some(v@),
                None => !self.hybrid_flow || spec_cb_param(
                    self.hybrid_flow,
                    query@,
                    fragment@,
                    "id_token"@,
                ) is None,
            },
            match r.2 {
                Some(v) => spec_cb_param(
                    self.hybrid_flow,
                    query@,
                    fragment@,
                    param_key(Params::State),
                ) == Some(v@),
                None => spec_cb_param(self.hybrid_flow, query@, fragment@, param_key(Params::State))
                    is None,
            },
    {
        let source: String = if self.hybrid_flow {
            let len = fragment.unicode_len();
            if len > 0 && fragment.get_char(0) == '#' {
                fragment.substring_char(1, len).to_owned()
            } else {
                fragment.to_owned()
            }
        } else {
            let len = query.unicode_len();
            if len > 0 && query.get_char(0) == '?' {
                query.substring_char(1, len).to_owned()
            } else {
                query.to_owned()
            }
        };
        proof {
            assert(source@ =~= spec_callback_source(self.hybrid_flow, query@, fragment@));
        }
        let pairs = urlenc::parse_query_pairs(source.as_str());
        proof {
            assert(pairs_view(pairs@) =~= query_pairs_of(source@));
        }
        let code = urlenc::lookup_pair(&pairs, Params::Code.as_str());
        let id_token = if self.hybrid_flow {
            urlenc::lookup_pair(&pairs, "id_token")
        } else {
            None
        };
        let state = urlenc::lookup_pair(&pairs, Params::State.as_str());
        (code, id_token, state)
    }

    /// Removes all pending material of the current attempt: CSRF state, PKCE
    /// verifier, and — in the hybrid flow — the nonce.  Idempotent.
    pub fn clear_all(&self, store: &mut KeyValueStore)
        ensures
            final(store)@ == spec_cleared(old(store)@, self.hybrid_flow),
    {
        csrf::State::unpersist(store);
        pkce::CodeVerifier::unpersist(store);
        if self.hybrid_flow {
            csrf::Nonce::unpersist(store);
        }
    }

    /// Decides a verified `id_token`'s fate from its parsed claims: a nonce
    /// claim that matches the stored nonce passes; anything else clears all
    /// pending material (the forbidden outcome follows).
    pub fn resolve_nonce_claim(&self, store: &mut KeyValueStore, claims: &AzureIdToken) -> (r:
        bool)
        ensures
            r == csrf::matches_stored(old(store)@, csrf::nonce_key(), claims.nonce@),
            r ==> final(store)@ == old(store)@,
            !r ==> final(store)@ == spec_cleared(old(store)@, self.hybrid_flow),
    {
        if csrf::Nonce::exists_and_matches_raw(store, claims.nonce.as_str()) {
            true
        } else {
            self.clear_all(store);
            false
        }
    }

    /// One turn of the login state machine, entered on every page load.
    ///
    /// With no `code` in the callback this is a fresh attempt: material is
    /// issued and the authorize URL returned for the application to navigate
    /// to.  With a callback present, the CSRF state — and, in the hybrid
    /// flow, the `id_token`'s nonce claim — decide between the forbidden
    /// outcome (material cleared), a malformed-callback error (material
    /// cleared), and the token exchange request to send.
    pub fn login_with_redirect(
        &self,
        store: &mut KeyValueStore,
        query: &str,
        fragment: &str,
        redirect_uri: &str,
    ) -> (r: Result<LoginStep, AuthError>)
        ensures
    // a fresh attempt issues material and redirects; it fails exactly
    // when the provider base URL does not parse

            spec_cb_param(self.hybrid_flow, query@, fragment@, param_key(Params::Code)) is None
                ==> (r is Err <==> spec_authorize_base(self.security_tenant_id@) is None),
            spec_cb_param(self.hybrid_flow, query@, fragment@, param_key(Params::Code)) is None
                ==> (match r {
                Ok(step) => match step {
                    LoginStep::Redirect(u) => exists|
                        state: Seq<char>,
                        verifier: Seq<char>,
                        nonce: Seq<char>,
                    |
                        {
                            &&& final(store)@ == spec_issued(
                                old(store)@,
                                self.hybrid_flow,
                                nonce,
                                state,
                                verifier,
                            )
                            &&& spec_authorize_base(self.security_tenant_id@) matches Some(base)
                                && u@ == spec_authorize_url(
                                base,
                                self.hybrid_flow,
                                self.security_client_id@,
                                redirect_uri@,
                                state,
                                pkce::spec_challenge(verifier),
                                nonce,
                                self.security_audience_id@,
                            )
                            &&& verifier.len() == 86
                        },
                    _ => false,
                },
                Err(e) => e == AuthError::NetworkOrProviderError && final(store)@ == old(store)@,
            }),
            // a callback without a state parameter is malformed and clears
            (spec_cb_param(self.hybrid_flow, query@, fragment@, param_key(Params::Code)) is Some
                && spec_cb_param(self.hybrid_flow, query@, fragment@, param_key(Params::State))
                is None) ==> r == Err::<LoginStep, AuthError>(AuthError::MalformedCallback)
                && final(store)@ == spec_cleared(old(store)@, self.hybrid_flow),
            // a state that does not match the stored one is the forbidden outcome
            (match spec_cb_param(self.hybrid_flow, query@, fragment@, param_key(Params::State)) {
                Some(st) => spec_cb_param(self.hybrid_flow, query@, fragment@, param_key(Params::Code))
                    is Some && !csrf::matches_stored(old(store)@, csrf::state_key(), st) ==> r == Ok::<
                    LoginStep,
                    AuthError,
                >(LoginStep::Forbidden),
                None => true,
            }),
            // a hybrid callback with a matching state but no id_token is malformed
            (match spec_cb_param(self.hybrid_flow, query@, fragment@, param_key(Params::State)) {
                Some(st) => (self.hybrid_flow && spec_cb_param(
                    self.hybrid_flow,
                    query@,
                    fragment@,
                    param_key(Params::Code),
                ) is Some && csrf::matches_stored(old(store)@, csrf::state_key(), st)
                    && spec_cb_param(self.hybrid_flow, query@, fragment@, "id_token"@) is None)
                    ==> r == Err::<LoginStep, AuthError>(AuthError::MalformedCallback),
                None => true,
            }),
            // a hybrid id_token that does not decode to claims is a malformed
            // token, never an exchange
            (match spec_cb_param(self.hybrid_flow, query@, fragment@, param_key(Params::State)) {
                Some(st) => match spec_cb_param(self.hybrid_flow, query@, fragment@, "id_token"@) {
                    Some(t) => (self.hybrid_flow && spec_cb_param(
                        self.hybrid_flow,
                        query@,
                        fragment@,
                        param_key(Params::Code),
                    ) is Some && csrf::matches_stored(old(store)@, csrf::state_key(), st)
                        && spec_id_token_claims(t) is None) ==> r == Err::<LoginStep, AuthError>(
                        AuthError::MalformedToken,
                    ),
                    None => true,
                },
                None => true,
            }),
            // hybrid nonce binding: a decodable id_token whose nonce claim
            // does not match the stored nonce is the forbidden outcome
            (match spec_cb_param(self.hybrid_flow, query@, fragment@, param_key(Params::State)) {
                Some(st) => match spec_cb_param(self.hybrid_flow, query@, fragment@, "id_token"@) {
                    Some(t) => match spec_id_token_claims(t) {
                        Some(c) => (self.hybrid_flow && spec_cb_param(
                            self.hybrid_flow,
                            query@,
                            fragment@,
                            param_key(Params::Code),
                        ) is Some && csrf::matches_stored(old(store)@, csrf::state_key(), st)
                            && !csrf::matches_stored(old(store)@, csrf::nonce_key(), c.1)) ==> r
                            == Ok::<LoginStep, AuthError>(LoginStep::Forbidden),
                        None => true,
                    },
                    None => true,
                },
                None => true,
            }),
            // a matching state without a stored verifier is a malformed
            // callback: the flow was tampered with or expired
            (match spec_cb_param(self.hybrid_flow, query@, fragment@, param_key(Params::State)) {
                Some(st) => (!self.hybrid_flow && spec_cb_param(
                    self.hybrid_flow,
                    query@,
                    fragment@,
                    param_key(Params::Code),
                ) is Some && csrf::matches_stored(old(store)@, csrf::state_key(), st) && !old(
                    store,
                )@.contains_key(pkce::verifier_key())) ==> r == Err::<LoginStep, AuthError>(
                    AuthError::MalformedCallback,
                ),
                None => true,
            }),
            (match spec_cb_param(self.hybrid_flow, query@, fragment@, param_key(Params::State)) {
                Some(st) => match spec_cb_param(self.hybrid_flow, query@, fragment@, "id_token"@) {
                    Some(t) => match spec_id_token_claims(t) {
                        Some(c) => (self.hybrid_flow && spec_cb_param(
                            self.hybrid_flow,
                            query@,
                            fragment@,
                            param_key(Params::Code),
                        ) is Some && csrf::matches_stored(old(store)@, csrf::state_key(), st)
                            && csrf::matches_stored(old(store)@, csrf::nonce_key(), c.1) && !old(
                            store,
                        )@.contains_key(pkce::verifier_key())) ==> r == Err::<
                            LoginStep,
                            AuthError,
                        >(AuthError::MalformedCallback),
                        None => true,
                    },
                    None => true,
                },
                None => true,
            }),
            // success owed in the hybrid flow: matching state, decodable
            // id_token, matching nonce and a stored verifier always exchange
            (match spec_cb_param(self.hybrid_flow, query@, fragment@, param_key(Params::State)) {
                Some(st) => match spec_cb_param(self.hybrid_flow, query@, fragment@, "id_token"@) {
                    Some(t) => match spec_id_token_claims(t) {
                        Some(c) => (self.hybrid_flow && spec_cb_param(
                            self.hybrid_flow,
                            query@,
                            fragment@,
                            param_key(Params::Code),
                        ) is Some && csrf::matches_stored(old(store)@, csrf::state_key(), st)
                            && csrf::matches_stored(old(store)@, csrf::nonce_key(), c.1) && old(
                            store,
                        )@.contains_key(pkce::verifier_key())) ==> r matches Ok(
                            LoginStep::Exchange(_),
                        ),
                        None => true,
                    },
                    None => true,
                },
                None => true,
            }),
            // the forbidden outcome always leaves the material cleared
            r == Ok::<LoginStep, AuthError>(LoginStep::Forbidden) ==> final(store)@ == spec_cleared(
                old(store)@,
                self.hybrid_flow,
            ),
            // every error on a callback with a code leaves the material cleared
            (spec_cb_param(self.hybrid_flow, query@, fragment@, param_key(Params::Code)) is Some
                && r is Err) ==> final(store)@ == spec_cleared(old(store)@, self.hybrid_flow) && (
            r == Err::<LoginStep, AuthError>(AuthError::MalformedCallback) || r == Err::<
                LoginStep,
                AuthError,
            >(AuthError::MalformedToken)),
            // the exchange step carries exactly the callback and stored values
            (match r {
                Ok(step) => match step {
                    LoginStep::Exchange(req) => {
                        &&& final(store)@ == old(store)@
                        &&& spec_cb_param(
                            self.hybrid_flow,
                            query@,
                            fragment@,
                            param_key(Params::Code),
                        ) == Some(req.code@)
                        &&& spec_cb_param(
                            self.hybrid_flow,
                            query@,
                            fragment@,
                            param_key(Params::State),
                        ) == Some(req.state@)
                        &&& csrf::matches_stored(old(store)@, csrf::state_key(), req.state@)
                        &&& old(store)@.contains_key(pkce::verifier_key())
                        &&& req.code_verifier@ == old(store)@[pkce::verifier_key()]
                        &&& req.url@ == spec_token_endpoint(self.security_tenant_id@)
                        &&& req.client_id@ == self.security_client_id@
                        &&& req.scope@ == self.security_audience_id@
                        &&& req.redirect_uri@ == redirect_uri@
                        &&& self.hybrid_flow ==> (match req.id_token {
                            Some(t) => spec_cb_param(
                                self.hybrid_flow,
                                query@,
                                fragment@,
                                "id_token"@,
                            ) == Some(t@) && (match spec_id_token_claims(t@) {
                                Some(c) => csrf::matches_stored(
                                    old(store)@,
                                    csrf::nonce_key(),
                                    c.1,
                                ),
                                None => false,
                            }),
                            None => false,
                        })
                        &&& !self.hybrid_flow ==> req.id_token is None
                    },
                    _ => true,
                },
                Err(_) => true,
            }),
            // hybrid nonce binding: with no nonce stored, no exchange can follow
            (self.hybrid_flow && !old(store)@.contains_key(csrf::nonce_key())) ==> !(r matches Ok(
                LoginStep::Exchange(_),
            )),
            // success owed: in the standard flow, a callback whose state
            // matches and whose verifier is still stored always exchanges
            (match spec_cb_param(self.hybrid_flow, query@, fragment@, param_key(Params::State)) {
                Some(st) => {
                    (!self.hybrid_flow && spec_cb_param(
                        self.hybrid_flow,
                        query@,
                        fragment@,
                        param_key(Params::Code),
                    ) is Some && csrf::matches_stored(old(store)@, csrf::state_key(), st)
                        && old(store)@.contains_key(pkce::verifier_key())) ==> r matches Ok(
                        LoginStep::Exchange(_),
                    )
                },
                None => true,
            }),
    {
        let (code_opt, id_token_opt, state_opt) = self.extract_auth_params_from_url(
            query,
            fragment,
        );
        let code = match code_opt {
            None => {
                return match self.build_authorize_endpoint(store, redirect_uri) {
                    Ok(u) => Ok(LoginStep::Redirect(u)),
                    Err(e) => Err(e),
                };
            },
            Some(c) => c,
        };
        let state = match state_opt {
            None => {
                self.clear_all(store);
                return Err(AuthError::MalformedCallback);
            },
            Some(s) => s,
        };
        if !csrf::State::exists_and_matches_raw(store, state.as_str()) {
            self.clear_all(store);
            return Ok(LoginStep::Forbidden);
        }
        let mut verified_id_token: Option<String> = None;
        if self.hybrid_flow {
            let raw_id_token = match id_token_opt {
                None => {
                    self.clear_all(store);
                    return Err(AuthError::MalformedCallback);
                },
                Some(t) => t,
            };
            let claims = match AzureIdToken::from_str(raw_id_token.as_str()) {
                Ok(c) => c,
                Err(_) => {
                    self.clear_all(store);
                    return Err(AuthError::MalformedToken);
                },
            };
            if !self.resolve_nonce_claim(store, &claims) {
                return Ok(LoginStep::Forbidden);
            }
            verified_id_token = Some(raw_id_token);
        }
        let code_verifier = match pkce::CodeVerifier::retrieve(store) {
            None => {
                self.clear_all(store);
                return Err(AuthError::MalformedCallback);
            },
            Some(v) => v,
        };
        Ok(
            LoginStep::Exchange(
                ExchangeRequest {
                    url: self.token_endpoint(),
                    client_id: self.security_client_id.clone(),
                    scope: self.security_audience_id.clone(),
                    code,
                    redirect_uri: redirect_uri.to_owned(),
                    state,
                    code_verifier: code_verifier.value,
                    id_token: verified_id_token,
                },
            ),
        )
    }

    /// Finishes a successful token exchange: attaches the hybrid-verified
    /// `id_token` (replacing whatever the exchange response carried),
    /// persists the token with its absolute expiry, clears the pending
    /// material, and raises the authentication flag.
    pub fn complete_login(
        &mut self,
        store: &mut KeyValueStore,
        token: TokenResponse,
        verified_id_token: Option<String>,
        now: i64,
    )
        requires
            i64::MIN <= now + token.expires_in - EXPIRY_SAFETY_MARGIN,
            now + token.expires_in <= i64::MAX,
        ensures
            final(self).is_authenticated == true,
            same_config(final(self), old(self)),
            ({
                let stored = TokenData {
                    access_token: token.access_token@,
                    expires_in: token.expires_in,
                    ext_expires_in: token.ext_expires_in,
                    refresh_token: token.refresh_token@,
                    scope: token.scope@,
                    token_type: token.token_type@,
                    id_token: match verified_id_token {
                        Some(t) => Some(t@),
                        None => None,
                    },
                };
                final(store)@ == spec_cleared(
                    old(store)@.insert(token_key(), encode_spec(stored)).insert(
                        expiry_key(),
                        spec_int_str(now + token.expires_in - EXPIRY_SAFETY_MARGIN),
                    ),
                    old(self).hybrid_flow,
                )
            }),
    {
        let mut stored = token;
        stored.id_token = verified_id_token;
        stored.persist(store, now);
        self.clear_all(store);
        self.is_authenticated = true;
    }

    /// The silent-acquisition decision at a given time: a valid cached token
    /// is returned as is; a stale one asks for a refresh; nothing usable
    /// asks for a fresh login.
    pub fn acquire_token_silent_at(
        &self,
        store: &KeyValueStore,
        redirect_uri: &str,
        now: i64,
    ) -> (r: SilentStep)
        ensures
            spec_silent_step(self, store@, redirect_uri@, now, r),
    {
        if let Some(token) = TokenResponse::retrieve(store, now) {
            return SilentStep::Token(token);
        }
        if let Some(stale) = TokenResponse::retrieve_unchecked(store) {
            return SilentStep::Refresh(
                RefreshRequest {
                    url: self.token_endpoint(),
                    client_id: self.security_client_id.clone(),
                    scope: self.security_audience_id.clone(),
                    refresh_token: stale.refresh_token,
                    redirect_uri: redirect_uri.to_owned(),
                },
            );
        }
        SilentStep::Login
    }

    /// The silent-acquisition decision at the current time (chrono's clock).
    pub fn acquire_token_silent(&self, store: &KeyValueStore, redirect_uri: &str) -> (r:
        SilentStep)
        ensures
            exists|now: i64| #[trigger] spec_silent_step(self, store@, redirect_uri@, now, r),
    {
        let now = unix_now();
        let r = self.acquire_token_silent_at(store, redirect_uri, now);
        proof {
            assert(spec_silent_step(self, store@, redirect_uri@, now, r));
        }
        r
    }

    /// Finishes a refresh round.  A successful response is persisted and
    /// returned; a failed one (the provider refused the refresh token) has
    /// the stale token cleared, and the caller falls back to
    /// `login_with_redirect`.
    pub fn complete_refresh(
        &self,
        store: &mut KeyValueStore,
        response: Option<TokenResponse>,
        now: i64,
    ) -> (r: RefreshOutcome)
        requires
            match response {
                Some(t) => i64::MIN <= now + t.expires_in - EXPIRY_SAFETY_MARGIN && now
                    + t.expires_in <= i64::MAX,
                None => true,
            },
        ensures
            match response {
                Some(t) => match r {
                    RefreshOutcome::Refreshed(t2) => repr(&t2) == repr(&t) && final(store)@ == old(
                        store,
                    )@.insert(token_key(), encode_spec(repr(&t))).insert(
                        expiry_key(),
                        spec_int_str(now + t.expires_in - EXPIRY_SAFETY_MARGIN),
                    ),
                    RefreshOutcome::LoginFallback => false,
                },
                None => r is LoginFallback && final(store)@ == old(store)@.remove(
                    token_key(),
                ).remove(expiry_key()),
            },
    {
        match response {
            Some(token) => {
                token.persist(store, now);
                RefreshOutcome::Refreshed(token)
            },
            None => {
                TokenResponse::clear(store);
                RefreshOutcome::LoginFallback
            },
        }
    }
}

} // verus!
