//! Token persistence: serializing the token response, tracking its absolute
//! expiry, and the checked / unchecked retrievals.
//!
//! The token is stored under one fixed key as length-prefixed text; a second
//! fixed key holds the absolute expiry timestamp (issuance time plus
//! `expires_in`, minus a small safety margin).  Both the codec and the expiry
//! arithmetic are verified; [`lemma_codec_round_trip`] states that decoding
//! inverts encoding.

use vstd::prelude::*;

use crate::decimal::{
    all_digits, char_digit, digits_val, i64_to_string, lemma_digits_val_prefix_le,
    lemma_int_str_round_trip, lemma_nat_digits, parse_i64, spec_int_str, spec_nat_digits,
    spec_parse_i64, spec_parse_nat, u64_to_string,
};
use crate::storage::KeyValueStore;

verus! {

/// The fixed key the serialized token response is stored under.
pub open spec fn token_key() -> Seq<char> {
    "oauth_token_response"@
}

/// The fixed key the absolute expiry timestamp is stored under.
pub open spec fn expiry_key() -> Seq<char> {
    "oauth_token_response_expiration"@
}

fn token_key_str() -> (r: &'static str)
    ensures
        r@ == token_key(),
{
    "oauth_token_response"
}

fn expiry_key_str() -> (r: &'static str)
    ensures
        r@ == expiry_key(),
{
    "oauth_token_response_expiration"
}

/// Seconds subtracted from the nominal expiry to absorb clock and processing
/// skew: with `expires_in = 3600` persisted at `T`, the token is still valid
/// at `T + 3595` and no longer at `T + 3596`.
pub const EXPIRY_SAFETY_MARGIN: i64 = 4;

/// The provider's response to a token exchange or refresh.
#[derive(Clone, Debug)]
pub struct TokenResponse {
    pub access_token: String,
    pub expires_in: i64,
    pub ext_expires_in: i64,
    pub refresh_token: String,
    pub scope: String,
    pub token_type: String,
    pub id_token: Option<String>,
}

/// The claims the engine reads from a verified `id_token`.
#[derive(Clone, Debug)]
pub struct IdToken {
    pub sub: String,
    pub nonce: String,
}

/// The mathematical content of a [`TokenResponse`].
pub ghost struct TokenData {
    pub access_token: Seq<char>,
    pub expires_in: i64,
    pub ext_expires_in: i64,
    pub refresh_token: Seq<char>,
    pub scope: Seq<char>,
    pub token_type: Seq<char>,
    pub id_token: Option<Seq<char>>,
}

/// The content of a token response.
pub open spec fn repr(t: &TokenResponse) -> TokenData {
    TokenData {
        access_token: t.access_token@,
        expires_in: t.expires_in,
        ext_expires_in: t.ext_expires_in,
        refresh_token: t.refresh_token@,
        scope: t.scope@,
        token_type: t.token_type@,
        id_token: match t.id_token {
            Some(s) => Some(s@),
            None => None,
        },
    }
}

/// One length-prefixed field: the decimal character count, a colon, the text.
pub open spec fn enc_str(s: Seq<char>) -> Seq<char> {
    spec_nat_digits(s.len()) + seq![':'] + s
}

/// The serialized form of a token: six length-prefixed fields (the two
/// numbers rendered as decimal text) and a tagged optional `id_token`.
pub open spec fn encode_spec(d: TokenData) -> Seq<char> {
    enc_str(d.access_token) + enc_str(spec_int_str(d.expires_in as int)) + enc_str(
        spec_int_str(d.ext_expires_in as int),
    ) + enc_str(d.refresh_token) + enc_str(d.scope) + enc_str(d.token_type) + (match d.id_token {
        None => seq!['0'],
        Some(s) => seq!['1'] + enc_str(s),
    })
}

/// The position of the first `c` at or after `from`.
pub open spec fn spec_find(s: Seq<char>, from: int, c: char) -> Option<int>
    decreases s.len() - from,
    when 0 <= from <= s.len()
{
    if !(0 <= from < s.len()) {
        None
    } else if s[from] == c {
        Some(from)
    } else {
        spec_find(s, from + 1, c)
    }
}

/// Reading one length-prefixed field starting at `cur`: the field text and
/// the position just after it.
pub open spec fn spec_parse_field(s: Seq<char>, cur: int) -> Option<(Seq<char>, int)> {
    match spec_find(s, cur, ':') {
        None => None,
        Some(j) => match spec_parse_nat(s.subrange(cur, j)) {
            None => None,
            Some(l) => if j + 1 + l <= s.len() {
                Some((s.subrange(j + 1, j + 1 + l), j + 1 + l))
            } else {
                None
            },
        },
    }
}

/// What the token decoder accepts: exactly the canonical serialized form,
/// consumed to the end.
pub open spec fn decode_spec(s: Seq<char>) -> Option<TokenData> {
    match spec_parse_field(s, 0) {
        None => None,
        Some((access_token, c1)) => match spec_parse_field(s, c1) {
            None => None,
            Some((exp_text, c2)) => match spec_parse_i64(exp_text) {
                None => None,
                Some(expires_in) => match spec_parse_field(s, c2) {
                    None => None,
                    Some((ext_text, c3)) => match spec_parse_i64(ext_text) {
                        None => None,
                        Some(ext_expires_in) => match spec_parse_field(s, c3) {
                            None => None,
                            Some((refresh_token, c4)) => match spec_parse_field(s, c4) {
                                None => None,
                                Some((scope, c5)) => match spec_parse_field(s, c5) {
                                    None => None,
                                    Some((token_type, c6)) => if c6 + 1 == s.len() && s[c6]
                                        == '0' {
                                        Some(
                                            TokenData {
                                                access_token,
                                                expires_in,
                                                ext_expires_in,
                                                refresh_token,
                                                scope,
                                                token_type,
                                                id_token: None,
                                            },
                                        )
                                    } else if c6 < s.len() && s[c6] == '1' {
                                        match spec_parse_field(s, c6 + 1) {
                                            None => None,
                                            Some((idt, c7)) => if c7 == s.len() {
                                                Some(
                                                    TokenData {
                                                        access_token,
                                                        expires_in,
                                                        ext_expires_in,
                                                        refresh_token,
                                                        scope,
                                                        token_type,
                                                        id_token: Some(idt),
                                                    },
                                                )
                                            } else {
                                                None
                                            },
                                        }
                                    } else {
                                        None
                                    },
                                },
                            },
                        },
                    },
                },
            },
        },
    }
}

pub(crate) proof fn lemma_find_at(s: Seq<char>, from: int, j: int, c: char)
    requires
        0 <= from <= j < s.len(),
        s[j] == c,
        forall|k: int| from <= k < j ==> s[k] != c,
    ensures
        spec_find(s, from, c) == Some(j),
    decreases j - from,
{
    if from < j {
        lemma_find_at(s, from + 1, j, c);
    }
}

pub(crate) proof fn lemma_find_none(s: Seq<char>, from: int, c: char)
    requires
        0 <= from <= s.len(),
        forall|k: int| from <= k < s.len() ==> s[k] != c,
    ensures
        spec_find(s, from, c) is None,
    decreases s.len() - from,
{
    if from < s.len() {
        lemma_find_none(s, from + 1, c);
    }
}

/// Parsing one field out of `pre + enc_str(x) + rest` at the end of `pre`
/// yields `x` and stops right after it.
#[verifier::rlimit(50)]
proof fn lemma_parse_field_enc(pre: Seq<char>, x: Seq<char>, rest: Seq<char>)
    ensures
        spec_parse_field(pre + enc_str(x) + rest, pre.len() as int) == Some(
            (x, pre.len() as int + enc_str(x).len() as int),
        ),
{
    let s = pre + enc_str(x) + rest;
    let digits = spec_nat_digits(x.len());
    lemma_nat_digits(x.len());
    let from = pre.len() as int;
    let j: int = pre.len() as int + digits.len() as int;
    assert(s.len() == pre.len() + digits.len() + 1 + x.len() + rest.len());
    assert forall|k: int| 0 <= k < digits.len() implies s[from + k] == digits[k] by {
        assert(enc_str(x)[k] == digits[k]);
    }
    assert(s[j] == ':') by {
        assert(enc_str(x)[digits.len() as int] == ':');
    }
    assert forall|k: int| from <= k < j implies s[k] != ':' by {
        assert(s[k] == digits[k - from]);
        assert(char_digit(digits[k - from]) < 10);
        assert(char_digit(':') == 10);
    }
    lemma_find_at(s, from, j, ':');
    assert(s.subrange(from, j) =~= digits);
    assert(spec_parse_nat(digits) == Some(x.len())) by {
        if digits.len() > 1 {
            assert(x.len() >= 10);
        }
    }
    assert(j + 1 + x.len() <= s.len());
    assert(s.subrange(j + 1, j + 1 + x.len()) =~= x) by {
        assert forall|k: int| 0 <= k < x.len() implies s[j + 1 + k] == x[k] by {
            assert(enc_str(x)[digits.len() + 1 + k] == x[k]);
        }
    }
    assert(j + 1 + x.len() == pre.len() + enc_str(x).len());
}

/// Round trip: decoding the serialized form of any token content gives it
/// back.
#[verifier::rlimit(100)]
#[verifier::spinoff_prover]
pub proof fn lemma_codec_round_trip(d: TokenData)
    ensures
        decode_spec(encode_spec(d)) == Some(d),
{
    let e1 = enc_str(d.access_token);
    let x2 = spec_int_str(d.expires_in as int);
    let e2 = enc_str(x2);
    let x3 = spec_int_str(d.ext_expires_in as int);
    let e3 = enc_str(x3);
    let e4 = enc_str(d.refresh_token);
    let e5 = enc_str(d.scope);
    let e6 = enc_str(d.token_type);
    let tail = match d.id_token {
        None => seq!['0'],
        Some(s) => seq!['1'] + enc_str(s),
    };
    let s = encode_spec(d);
    assert(s =~= e1 + e2 + e3 + e4 + e5 + e6 + tail);

    let p0 = Seq::<char>::empty();
    assert(s =~= p0 + e1 + (e2 + e3 + e4 + e5 + e6 + tail));
    lemma_parse_field_enc(p0, d.access_token, e2 + e3 + e4 + e5 + e6 + tail);
    assert(spec_parse_field(s, 0) == Some((d.access_token, e1.len() as int)));
    let c1 = e1.len() as int;

    let p1 = e1;
    assert(s =~= p1 + e2 + (e3 + e4 + e5 + e6 + tail));
    lemma_parse_field_enc(p1, x2, e3 + e4 + e5 + e6 + tail);
    assert(spec_parse_field(s, c1) == Some((x2, c1 + e2.len())));
    let c2 = c1 + e2.len();
    lemma_int_str_round_trip(d.expires_in);

    let p2 = e1 + e2;
    assert(s =~= p2 + e3 + (e4 + e5 + e6 + tail));
    lemma_parse_field_enc(p2, x3, e4 + e5 + e6 + tail);
    assert(p2.len() == c2);
    assert(spec_parse_field(s, c2) == Some((x3, c2 + e3.len())));
    let c3 = c2 + e3.len();
    lemma_int_str_round_trip(d.ext_expires_in);

    let p3 = e1 + e2 + e3;
    assert(s =~= p3 + e4 + (e5 + e6 + tail));
    lemma_parse_field_enc(p3, d.refresh_token, e5 + e6 + tail);
    assert(p3.len() == c3);
    assert(spec_parse_field(s, c3) == Some((d.refresh_token, c3 + e4.len())));
    let c4 = c3 + e4.len();

    let p4 = e1 + e2 + e3 + e4;
    assert(s =~= p4 + e5 + (e6 + tail));
    lemma_parse_field_enc(p4, d.scope, e6 + tail);
    assert(p4.len() == c4);
    assert(spec_parse_field(s, c4) == Some((d.scope, c4 + e5.len())));
    let c5 = c4 + e5.len();

    let p5 = e1 + e2 + e3 + e4 + e5;
    assert(s =~= p5 + e6 + tail);
    lemma_parse_field_enc(p5, d.token_type, tail);
    assert(p5.len() == c5);
    assert(spec_parse_field(s, c5) == Some((d.token_type, c5 + e6.len())));
    let c6 = c5 + e6.len();

    match d.id_token {
        None => {
            assert(s[c6] == '0') by {
                assert(tail[0] == '0');
            }
            assert(c6 + 1 == s.len());
        },
        Some(x) => {
            assert(s[c6] == '1') by {
                assert(tail[0] == '1');
            }
            let p6 = e1 + e2 + e3 + e4 + e5 + e6 + seq!['1'];
            assert(s =~= p6 + enc_str(x) + Seq::<char>::empty());
            lemma_parse_field_enc(p6, x, Seq::<char>::empty());
            assert(p6.len() == c6 + 1);
            assert(spec_parse_field(s, c6 + 1) == Some((x, c6 + 1 + enc_str(x).len())));
            assert(c6 + 1 + enc_str(x).len() == s.len());
        },
    }
}

fn append_field(out: &mut String, s: &str)
    ensures
        final(out)@ == old(out)@ + enc_str(s@),
{
    let len = s.unicode_len();
    let len_text = u64_to_string(len as u64);
    out.append(len_text.as_str());
    out.append(":");
    out.append(s);
    proof {
        reveal_strlit(":");
        assert(out@ =~= old(out)@ + enc_str(s@));
    }
}

/// Serializes a token response; [`decode_token`] inverts this exactly.
pub fn encode_token(t: &TokenResponse) -> (r: String)
    ensures
        r@ == encode_spec(repr(t)),
{
    let mut out = String::new();
    append_field(&mut out, t.access_token.as_str());
    let exp_text = i64_to_string(t.expires_in);
    append_field(&mut out, exp_text.as_str());
    let ext_text = i64_to_string(t.ext_expires_in);
    append_field(&mut out, ext_text.as_str());
    append_field(&mut out, t.refresh_token.as_str());
    append_field(&mut out, t.scope.as_str());
    append_field(&mut out, t.token_type.as_str());
    match &t.id_token {
        None => {
            out.append("0");
            proof {
                reveal_strlit("0");
            }
        },
        Some(idt) => {
            out.append("1");
            proof {
                reveal_strlit("1");
            }
            append_field(&mut out, idt.as_str());
        },
    }
    proof {
        assert(out@ =~= encode_spec(repr(t)));
    }
    out
}

fn parse_len_digits(s: &str, n: usize, from: usize, to: usize) -> (r: Option<u64>)
    requires
        n == s@.len(),
        from <= to <= n,
    ensures
        match r {
            Some(v) => spec_parse_nat(s@.subrange(from as int, to as int)) == Some(v as nat),
            None => spec_parse_nat(s@.subrange(from as int, to as int)) is None || digits_val(
                s@.subrange(from as int, to as int),
            ) > u64::MAX,
        },
{
    let ghost sub = s@.subrange(from as int, to as int);
    if to == from {
        return None;
    }
    if s.get_char(from) == '0' && to - from > 1 {
        proof {
            assert(sub[0] == '0' && sub.len() > 1);
        }
        return None;
    }
    let mut i: usize = from;
    let mut acc: u64 = 0;
    while i < to
        invariant
            from <= i <= to <= n,
            n == s@.len(),
            sub == s@.subrange(from as int, to as int),
            acc as nat == digits_val(s@.subrange(from as int, i as int)),
            all_digits(s@.subrange(from as int, i as int)),
        decreases to - i,
    {
        let c = s.get_char(i);
        let ghost pre = s@.subrange(from as int, i as int);
        let ghost pre2 = s@.subrange(from as int, i as int + 1);
        proof {
            assert(pre2.drop_last() =~= pre);
            assert(pre2.last() == c);
        }
        let d = match crate::decimal::digit_of_char(c) {
            Some(d) => d,
            None => {
                proof {
                    assert(sub[i - from] == c);
                    assert(!all_digits(sub));
                }
                return None;
            },
        };
        let next = match acc.checked_mul(10) {
            Some(t) => t.checked_add(d),
            None => None,
        };
        match next {
            Some(v) => {
                acc = v;
            },
            None => {
                proof {
                    assert(digits_val(pre2) == digits_val(pre) * 10 + char_digit(c));
                    assert(digits_val(pre2) > u64::MAX);
                    assert(sub.take(i + 1 - from) =~= pre2);
                    lemma_digits_val_prefix_le(sub, i + 1 - from);
                }
                return None;
            },
        }
        i = i + 1;
    }
    proof {
        assert(s@.subrange(from as int, to as int) =~= sub);
    }
    Some(acc)
}

fn parse_field(s: &str, n: usize, cur: usize) -> (r: Option<(String, usize)>)
    requires
        n == s@.len(),
        cur <= n,
    ensures
        match r {
            Some(p) => spec_parse_field(s@, cur as int) == Some((p.0@, p.1 as int)) && cur <= p.1
                <= n,
            None => spec_parse_field(s@, cur as int) is None,
        },
{
    let mut j: usize = cur;
    while j < n && s.get_char(j) != ':'
        invariant
            cur <= j <= n,
            n == s@.len(),
            forall|k: int| cur <= k < j ==> s@[k] != ':',
        decreases n - j,
    {
        j = j + 1;
    }
    if j == n {
        proof {
            lemma_find_none(s@, cur as int, ':');
        }
        return None;
    }
    proof {
        lemma_find_at(s@, cur as int, j as int, ':');
    }
    let l = match parse_len_digits(s, n, cur, j) {
        Some(l) => l,
        None => {
            return None;
        },
    };
    if l > (n - (j + 1)) as u64 {
        return None;
    }
    let len = l as usize;
    let value = s.substring_char(j + 1, j + 1 + len).to_owned();
    Some((value, j + 1 + len))
}

/// Deserializes a token response; accepts exactly what [`encode_token`]
/// produces, `None` on everything else.
#[verifier::rlimit(50)]
pub fn decode_token(s: &str) -> (r: Option<TokenResponse>)
    ensures
        match r {
            Some(t) => decode_spec(s@) == Some(repr(&t)),
            None => decode_spec(s@) is None,
        },
{
    let n = s.unicode_len();
    let (access_token, c1) = match parse_field(s, n, 0) {
        Some(p) => p,
        None => {
            return None;
        },
    };
    let (exp_text, c2) = match parse_field(s, n, c1) {
        Some(p) => p,
        None => {
            return None;
        },
    };
    let expires_in = match parse_i64(exp_text.as_str()) {
        Some(v) => v,
        None => {
            return None;
        },
    };
    let (ext_text, c3) = match parse_field(s, n, c2) {
        Some(p) => p,
        None => {
            return None;
        },
    };
    let ext_expires_in = match parse_i64(ext_text.as_str()) {
        Some(v) => v,
        None => {
            return None;
        },
    };
    let (refresh_token, c4) = match parse_field(s, n, c3) {
        Some(p) => p,
        None => {
            return None;
        },
    };
    let (scope, c5) = match parse_field(s, n, c4) {
        Some(p) => p,
        None => {
            return None;
        },
    };
    let (token_type, c6) = match parse_field(s, n, c5) {
        Some(p) => p,
        None => {
            return None;
        },
    };
    if c6 >= n {
        return None;
    }
    let tag = s.get_char(c6);
    if tag == '0' {
        if c6 + 1 == n {
            Some(
                TokenResponse {
                    access_token,
                    expires_in,
                    ext_expires_in,
                    refresh_token,
                    scope,
                    token_type,
                    id_token: None,
                },
            )
        } else {
            None
        }
    } else if tag == '1' {
        let (idt, c7) = match parse_field(s, n, c6 + 1) {
            Some(p) => p,
            None => {
                return None;
            },
        };
        if c7 == n {
            Some(
                TokenResponse {
                    access_token,
                    expires_in,
                    ext_expires_in,
                    refresh_token,
                    scope,
                    token_type,
                    id_token: Some(idt),
                },
            )
        } else {
            None
        }
    } else {
        None
    }
}

/// The token content currently stored, when the stored text decodes.
pub open spec fn spec_stored_token(m: Map<Seq<char>, Seq<char>>) -> Option<TokenData> {
    if m.contains_key(token_key()) {
        decode_spec(m[token_key()])
    } else {
        None
    }
}

/// The stored absolute expiry, when it parses as a timestamp.
pub open spec fn spec_stored_expiry(m: Map<Seq<char>, Seq<char>>) -> Option<i64> {
    if m.contains_key(expiry_key()) {
        spec_parse_i64(m[expiry_key()])
    } else {
        None
    }
}

/// Whether a stored token counts as valid at `now`: a parseable expiry
/// strictly in the future.  A token without a usable expiry is never valid —
/// the safe default when a crash separated the two writes.
pub open spec fn spec_token_valid_at(m: Map<Seq<char>, Seq<char>>, now: i64) -> bool {
    match spec_stored_expiry(m) {
        Some(e) => now < e,
        None => false,
    }
}

impl TokenResponse {
    /// Serializes and stores the token under its fixed key, and the absolute
    /// expiry `now + expires_in - EXPIRY_SAFETY_MARGIN` under the companion
    /// key, overwriting any prior token.
    pub fn persist(&self, store: &mut KeyValueStore, now: i64)
        requires
            i64::MIN <= now + self.expires_in - EXPIRY_SAFETY_MARGIN,
            now + self.expires_in <= i64::MAX,
        ensures
            final(store)@ == old(store)@.insert(token_key(), encode_spec(repr(self))).insert(
                expiry_key(),
                spec_int_str(now + self.expires_in - EXPIRY_SAFETY_MARGIN),
            ),
    {
        let text = encode_token(self);
        store.set(token_key_str(), text.as_str());
        let expires_at: i64 = now + self.expires_in - EXPIRY_SAFETY_MARGIN;
        let expiry_text = i64_to_string(expires_at);
        store.set(expiry_key_str(), expiry_text.as_str());
    }

    /// The stored token, only when an expiry is present, parses, and is
    /// strictly in the future; `None` otherwise — an expired or malformed
    /// entry is not an error, the caller falls back to refresh or login.
    pub fn retrieve(store: &KeyValueStore, now: i64) -> (r: Option<TokenResponse>)
        ensures
            match r {
                Some(t) => spec_stored_token(store@) == Some(repr(&t)) && spec_token_valid_at(
                    store@,
                    now,
                ),
                None => spec_stored_token(store@) is None || !spec_token_valid_at(store@, now),
            },
    {
        let exp_text = match store.get(expiry_key_str()) {
            Some(v) => v,
            None => {
                return None;
            },
        };
        let expires_at = match parse_i64(exp_text.as_str()) {
            Some(e) => e,
            None => {
                return None;
            },
        };
        if now >= expires_at {
            return None;
        }
        let text = match store.get(token_key_str()) {
            Some(v) => v,
            None => {
                return None;
            },
        };
        decode_token(text.as_str())
    }

    /// The stored token regardless of expiry; `None` only when no token is
    /// stored or it fails to deserialize.
    pub fn retrieve_unchecked(store: &KeyValueStore) -> (r: Option<TokenResponse>)
        ensures
            match r {
                Some(t) => spec_stored_token(store@) == Some(repr(&t)),
                None => spec_stored_token(store@) is None,
            },
    {
        match store.get(token_key_str()) {
            Some(text) => decode_token(text.as_str()),
            None => None,
        }
    }

    /// Removes the stored token and its expiry; idempotent.
    pub fn clear(store: &mut KeyValueStore)
        ensures
            final(store)@ == old(store)@.remove(token_key()).remove(expiry_key()),
    {
        store.remove(token_key_str());
        store.remove(expiry_key_str());
    }

    /// Removes the token and its expiry; idempotent.
    pub fn unpersist(&self, store: &mut KeyValueStore)
        ensures
            final(store)@ == old(store)@.remove(token_key()).remove(expiry_key()),
    {
        Self::clear(store);
    }
}

/// Relies on chrono's `Utc::now`: the current Unix timestamp in seconds.
/// Time is an outside input; nothing is promised of the value.
#[verifier::external_body]
pub(crate) fn unix_now() -> i64 {
    chrono::Utc::now().timestamp()
}

/// Token expiry honored exactly: after persisting a token at `persist_time`,
/// the stored text decodes back to that very token, and the validity test
/// passes at `check_time` exactly when
/// `check_time < persist_time + expires_in - EXPIRY_SAFETY_MARGIN`.
pub proof fn lemma_token_expiry(
    m: Map<Seq<char>, Seq<char>>,
    t: &TokenResponse,
    persist_time: i64,
    check_time: i64,
)
    requires
        i64::MIN <= persist_time + t.expires_in - EXPIRY_SAFETY_MARGIN,
        persist_time + t.expires_in <= i64::MAX,
    ensures
        ({
            let m2 = m.insert(token_key(), encode_spec(repr(t))).insert(
                expiry_key(),
                spec_int_str(persist_time + t.expires_in - EXPIRY_SAFETY_MARGIN),
            );
            spec_stored_token(m2) == Some(repr(t)) && (spec_token_valid_at(m2, check_time)
                <==> check_time < persist_time + t.expires_in - EXPIRY_SAFETY_MARGIN)
        }),
{
    reveal_strlit("oauth_token_response");
    reveal_strlit("oauth_token_response_expiration");
    assert(token_key() != expiry_key()) by {
        assert(token_key().len() != expiry_key().len());
    }
    lemma_codec_round_trip(repr(t));
    let e = (persist_time + t.expires_in - EXPIRY_SAFETY_MARGIN) as i64;
    lemma_int_str_round_trip(e);
}

} // verus!
