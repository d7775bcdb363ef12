//! PKCE (RFC 7636): code verifier generation and S256 challenge derivation.
//!
//! The verifier is persisted across the redirect round-trip; the challenge is
//! derived, sent in the authorize request, and never persisted.

use vstd::prelude::*;

use crate::crypto;
use crate::storage::KeyValueStore;

verus! {

/// The fixed key the code verifier is stored under.
pub open spec fn verifier_key() -> Seq<char> {
    "oauth_pkce_code_verifier"@
}

fn verifier_key_str() -> (r: &'static str)
    ensures
        r@ == verifier_key(),
{
    "oauth_pkce_code_verifier"
}

/// The S256 challenge of a verifier text: SHA-256 over its UTF-8 bytes,
/// URL-safe base64 no-pad encoded.
pub open spec fn spec_challenge(verifier: Seq<char>) -> Seq<char> {
    crypto::b64url_of(crypto::sha256_of(vstd::utf8::encode_utf8(verifier)))
}

/// PKCE correctness: the challenge is a function of the verifier text alone,
/// so deriving it twice from equal verifiers gives equal challenges.
pub proof fn lemma_challenge_deterministic(v1: Seq<char>, v2: Seq<char>)
    requires
        v1 == v2,
    ensures
        spec_challenge(v1) == spec_challenge(v2),
{
}

/// The random PKCE code verifier.
pub struct CodeVerifier {
    pub value: String,
}

impl CodeVerifier {
    /// A fresh verifier: 64 random bytes (512 bits), URL-safe base64 no-pad
    /// encoded, hence 86 URL-safe characters — within RFC 7636's 43..=128
    /// range.
    pub fn new() -> (r: Self)
        ensures
            r.value@.len() == 86,
            forall|i: int| 0 <= i < r.value@.len() ==> crypto::is_b64url_char(#[trigger] r.value@[i]),
    {
        let bytes = crypto::random_bytes(64);
        CodeVerifier { value: crypto::b64url_encode(bytes.as_slice()) }
    }

    pub fn as_str(&self) -> (r: &str)
        ensures
            r@ == self.value@,
    {
        self.value.as_str()
    }

    /// The verifier currently stored, if any; its absence during token
    /// exchange means the flow was tampered with or expired.
    pub fn retrieve(store: &KeyValueStore) -> (r: Option<Self>)
        ensures
            match r {
                Some(v) => store@.contains_key(verifier_key()) && v.value@ == store@[verifier_key()],
                None => !store@.contains_key(verifier_key()),
            },
    {
        match store.get(verifier_key_str()) {
            Some(v) => Some(CodeVerifier { value: v }),
            None => None,
        }
    }

    /// Stores this verifier under its fixed key.
    pub fn persist(&self, store: &mut KeyValueStore)
        ensures
            final(store)@ == old(store)@.insert(verifier_key(), self.value@),
    {
        store.set(verifier_key_str(), self.value.as_str());
    }

    /// Removes the stored verifier; idempotent.
    pub fn unpersist(store: &mut KeyValueStore)
        ensures
            final(store)@ == old(store)@.remove(verifier_key()),
    {
        store.remove(verifier_key_str());
    }
}

/// The S256 challenge derived from a verifier; never persisted.
pub struct CodeChallenge {
    pub value: String,
}

impl CodeChallenge {
    /// Derives the S256 challenge: SHA-256 over the verifier's bytes,
    /// URL-safe base64 no-pad encoded (43 URL-safe characters).
    pub fn from(verifier: &CodeVerifier) -> (r: CodeChallenge)
        ensures
            r.value@ == spec_challenge(verifier.value@),
            r.value@.len() == 43,
            forall|i: int| 0 <= i < r.value@.len() ==> crypto::is_b64url_char(#[trigger] r.value@[i]),
    {
        let digest = crypto::sha256(verifier.value.as_str().as_bytes());
        CodeChallenge { value: crypto::b64url_encode(digest.as_slice()) }
    }

    pub fn as_str(&self) -> (r: &str)
        ensures
            r@ == self.value@,
    {
        self.value.as_str()
    }
}

} // verus!
