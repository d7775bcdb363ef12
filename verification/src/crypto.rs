//! Trusted boundary to the cryptographic capabilities: random bytes (rand),
//! SHA-256 (sha2) and URL-safe base64 without padding (base64).
//!
//! The engine never implements a primitive itself; it only builds protocol
//! values out of these calls.

use vstd::prelude::*;

verus! {

/// The SHA-256 digest of a byte sequence, as the sha2 crate computes it.
pub uninterp spec fn sha256_of(bytes: Seq<u8>) -> Seq<u8>;

/// URL-safe base64 without padding of a byte sequence, as the base64 crate
/// computes it.
pub uninterp spec fn b64url_of(bytes: Seq<u8>) -> Seq<char>;

/// What the URL-safe no-pad decoder reads out of a text; `None` on text that
/// is not valid unpadded URL-safe base64.
pub uninterp spec fn b64url_decode_of(s: Seq<char>) -> Option<Seq<u8>>;

/// The URL-safe base64 alphabet.
pub open spec fn is_b64url_char(c: char) -> bool {
    ('A' <= c && c <= 'Z') || ('a' <= c && c <= 'z') || ('0' <= c && c <= '9') || c == '-' || c
        == '_'
}

/// Relies on rand's thread-local generator (`rand::rng`) to fill a buffer
/// with cryptographically suitable random bytes.  Nothing can be promised of
/// the values, only of how many there are.
#[verifier::external_body]
pub(crate) fn random_bytes(n: usize) -> (r: Vec<u8>)
    ensures
        r@.len() == n,
{
    let mut buf = vec![0u8; n];
    rand::Rng::fill_bytes(&mut rand::rng(), &mut buf);
    buf
}

/// Relies on sha2's `Sha256`: the digest of the input bytes, 32 bytes long.
#[verifier::external_body]
pub(crate) fn sha256(bytes: &[u8]) -> (r: Vec<u8>)
    ensures
        r@ == sha256_of(bytes@),
        r@.len() == 32,
{
    <sha2::Sha256 as sha2::Digest>::digest(bytes).to_vec()
}

/// Relies on base64's `URL_SAFE_NO_PAD` engine: four output characters for
/// every three input bytes, rounded up, no padding, all from the URL-safe
/// alphabet.  The length bound in `requires` keeps the crate's internal
/// buffer-size computation from overflowing.
#[verifier::external_body]
pub(crate) fn b64url_encode(bytes: &[u8]) -> (r: String)
    requires
        bytes@.len() * 4 + 2 <= usize::MAX,
    ensures
        r@ == b64url_of(bytes@),
        r@.len() == (bytes@.len() * 4 + 2) / 3,
        forall|i: int| 0 <= i < r@.len() ==> is_b64url_char(#[trigger] r@[i]),
{
    base64::Engine::encode(&base64::engine::general_purpose::URL_SAFE_NO_PAD, bytes)
}

/// Relies on base64's `URL_SAFE_NO_PAD` engine to decode: the decoded bytes
/// are a function of the text alone; `None` exactly on text that is not
/// valid unpadded URL-safe base64.
#[verifier::external_body]
pub(crate) fn b64url_decode(s: &str) -> (r: Option<Vec<u8>>)
    ensures
        match r {
            Some(v) => b64url_decode_of(s@) == Some(v@),
            None => b64url_decode_of(s@) is None,
        },
{
    base64::Engine::decode(&base64::engine::general_purpose::URL_SAFE_NO_PAD, s).ok()
}

/// Relies on std's `String::from_utf8`: succeeds exactly on valid UTF-8 and
/// returns the decoded characters (vstd's `decode_utf8` is the specification
/// std documents).
#[verifier::external_body]
pub(crate) fn utf8_to_string(bytes: Vec<u8>) -> (r: Option<String>)
    ensures
        match r {
            Some(s) => vstd::utf8::valid_utf8(bytes@) && s@ == vstd::utf8::decode_utf8(bytes@),
            None => !vstd::utf8::valid_utf8(bytes@),
        },
{
    String::from_utf8(bytes).ok()
}

} // verus!
