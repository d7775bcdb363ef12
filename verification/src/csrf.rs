//! CSRF/replay protection: one-time `state` and `nonce` values.
//!
//! Each is a single opaque random string, generated per login attempt, stored
//! under a fixed key, compared by exact string equality, and removed once the
//! attempt resolves — success or failure — so that a stale value can never be
//! replayed.

use vstd::prelude::*;

use crate::crypto;
use crate::storage::KeyValueStore;

verus! {

/// The fixed key the CSRF state is stored under.
pub open spec fn state_key() -> Seq<char> {
    "oauth_csrf_state"@
}

/// The fixed key the CSRF nonce is stored under.
pub open spec fn nonce_key() -> Seq<char> {
    "oauth_csrf_nonce"@
}

fn state_key_str() -> (r: &'static str)
    ensures
        r@ == state_key(),
{
    "oauth_csrf_state"
}

fn nonce_key_str() -> (r: &'static str)
    ensures
        r@ == nonce_key(),
{
    "oauth_csrf_nonce"
}

/// True exactly when `candidate` matches the value stored under `key`; a
/// missing value is simply a mismatch.
pub open spec fn matches_stored(
    store: Map<Seq<char>, Seq<char>>,
    key: Seq<char>,
    candidate: Seq<char>,
) -> bool {
    store.contains_key(key) && store[key] == candidate
}

/// CSRF single-use: once the stored value for a kind is gone, every candidate
/// — the previously issued value included — fails validation.
pub proof fn lemma_replay_fails(
    store: Map<Seq<char>, Seq<char>>,
    key: Seq<char>,
    candidate: Seq<char>,
)
    requires
        !store.contains_key(key),
    ensures
        !matches_stored(store, key, candidate),
{
}

/// The one-time `state` value round-tripped through the authorize redirect.
pub struct State {
    pub value: String,
}

impl State {
    /// A fresh random state: 32 random bytes, URL-safe base64 no-pad encoded
    /// (43 URL-safe characters).
    pub fn new() -> (r: Self)
        ensures
            r.value@.len() == 43,
            forall|i: int| 0 <= i < r.value@.len() ==> crypto::is_b64url_char(#[trigger] r.value@[i]),
    {
        let bytes = crypto::random_bytes(32);
        State { value: crypto::b64url_encode(bytes.as_slice()) }
    }

    pub fn as_str(&self) -> (r: &str)
        ensures
            r@ == self.value@,
    {
        self.value.as_str()
    }

    /// The state currently stored, if any.
    pub fn retrieve(store: &KeyValueStore) -> (r: Option<Self>)
        ensures
            match r {
                Some(s) => store@.contains_key(state_key()) && s.value@ == store@[state_key()],
                None => !store@.contains_key(state_key()),
            },
    {
        match store.get(state_key_str()) {
            Some(v) => Some(State { value: v }),
            None => None,
        }
    }

    /// True exactly when a state is stored and equals `candidate`.
    pub fn exists_and_matches_raw(store: &KeyValueStore, candidate: &str) -> (r: bool)
        ensures
            r == matches_stored(store@, state_key(), candidate@),
    {
        match Self::retrieve(store) {
            Some(s) => s.value == candidate.to_owned(),
            None => false,
        }
    }

    /// Stores this state under its fixed key.
    pub fn persist(&self, store: &mut KeyValueStore)
        ensures
            final(store)@ == old(store)@.insert(state_key(), self.value@),
    {
        store.set(state_key_str(), self.value.as_str());
    }

    /// Removes the stored state; idempotent.
    pub fn unpersist(store: &mut KeyValueStore)
        ensures
            final(store)@ == old(store)@.remove(state_key()),
    {
        store.remove(state_key_str());
    }
}

/// The one-time `nonce` value bound into the hybrid flow's `id_token`.
pub struct Nonce {
    pub value: String,
}

impl Nonce {
    /// A fresh random nonce: 32 random bytes, URL-safe base64 no-pad encoded
    /// (43 URL-safe characters).
    pub fn new() -> (r: Self)
        ensures
            r.value@.len() == 43,
            forall|i: int| 0 <= i < r.value@.len() ==> crypto::is_b64url_char(#[trigger] r.value@[i]),
    {
        let bytes = crypto::random_bytes(32);
        Nonce { value: crypto::b64url_encode(bytes.as_slice()) }
    }

    pub fn as_str(&self) -> (r: &str)
        ensures
            r@ == self.value@,
    {
        self.value.as_str()
    }

    /// The nonce currently stored, if any.
    pub fn retrieve(store: &KeyValueStore) -> (r: Option<Self>)
        ensures
            match r {
                Some(s) => store@.contains_key(nonce_key()) && s.value@ == store@[nonce_key()],
                None => !store@.contains_key(nonce_key()),
            },
    {
        match store.get(nonce_key_str()) {
            Some(v) => Some(Nonce { value: v }),
            None => None,
        }
    }

    /// True exactly when a nonce is stored and equals `candidate`.
    pub fn exists_and_matches_raw(store: &KeyValueStore, candidate: &str) -> (r: bool)
        ensures
            r == matches_stored(store@, nonce_key(), candidate@),
    {
        match Self::retrieve(store) {
            Some(s) => s.value == candidate.to_owned(),
            None => false,
        }
    }

    /// Stores this nonce under its fixed key.
    pub fn persist(&self, store: &mut KeyValueStore)
        ensures
            final(store)@ == old(store)@.insert(nonce_key(), self.value@),
    {
        store.set(nonce_key_str(), self.value.as_str());
    }

    /// Removes the stored nonce; idempotent.
    pub fn unpersist(store: &mut KeyValueStore)
        ensures
            final(store)@ == old(store)@.remove(nonce_key()),
    {
        store.remove(nonce_key_str());
    }
}

} // verus!
