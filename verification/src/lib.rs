//! Browser-side OAuth2 authorization-code flow with PKCE, with an optional
//! OIDC hybrid variant, verified with Verus.
//!
//! The crate holds the protocol engine: CSRF/replay protection, PKCE
//! challenge/verifier generation, the authorization-redirect / callback state
//! machine, token persistence with expiry tracking, silent refresh with
//! fallback, and `id_token` verification against a remote key set.  Browser
//! globals (window, storage, navigation) and the network are capabilities of
//! the surrounding application: the engine works on an in-memory
//! [`storage::KeyValueStore`] and on plain values handed in by the caller.

pub mod azure;
pub mod crypto;
pub mod csrf;
pub mod decimal;
pub mod error;
pub mod json;
pub mod jwk;
pub mod oidc;
pub mod params;
pub mod pkce;
pub mod storage;
pub mod token;
pub mod urlenc;
