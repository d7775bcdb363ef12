//! Trusted boundary to the url crate: form-urlencoding of query values,
//! parsing of callback query/fragment strings, and URL normalization.

use vstd::prelude::*;

verus! {

/// The `application/x-www-form-urlencoded` serialization of a text, as the
/// url crate's byte serializer computes it.
pub uninterp spec fn urlencoded_of(s: Seq<char>) -> Seq<char>;

/// The percent-decoded (name, value) pairs the url crate's form parser reads
/// out of a query or fragment string, in order of appearance.
pub uninterp spec fn query_pairs_of(s: Seq<char>) -> Seq<(Seq<char>, Seq<char>)>;

/// The url crate's reading of a text: the parsed URL rendered back, `None`
/// when the text is not an absolute URL.
pub uninterp spec fn url_parse_of(s: Seq<char>) -> Option<Seq<char>>;

/// Relies on `form_urlencoded::byte_serialize` (re-exported by url): the
/// form-urlencoded serialization of the input's UTF-8 bytes.
#[verifier::external_body]
pub(crate) fn urlencode(s: &str) -> (r: String)
    ensures
        r@ == urlencoded_of(s@),
{
    url::form_urlencoded::byte_serialize(s.as_bytes()).collect()
}

/// Relies on `form_urlencoded::parse` (re-exported by url): the
/// percent-decoded (name, value) pairs, in order of appearance.
#[verifier::external_body]
pub(crate) fn parse_query_pairs(s: &str) -> (r: Vec<(String, String)>)
    ensures
        r@.len() == query_pairs_of(s@).len(),
        forall|i: int|
            0 <= i < r@.len() ==> (#[trigger] r@[i].0@, r@[i].1@) == query_pairs_of(s@)[i],
{
    url::form_urlencoded::parse(s.as_bytes()).into_owned().collect()
}

/// Relies on `url::Url::parse` and `Url::as_str`: parsing is a function of
/// the text alone; the URL rendered back on success, `None` exactly when the
/// text is not an absolute URL.
#[verifier::external_body]
pub(crate) fn parse_url(s: &str) -> (r: Option<String>)
    ensures
        match r {
            Some(u) => url_parse_of(s@) == Some(u@),
            None => url_parse_of(s@) is None,
        },
{
    match url::Url::parse(s) {
        Ok(u) => Some(u.as_str().to_owned()),
        Err(_) => None,
    }
}

/// The first value paired with `key`, scanning in order.
pub open spec fn lookup_param(pairs: Seq<(Seq<char>, Seq<char>)>, key: Seq<char>) -> Option<
    Seq<char>,
>
    decreases pairs.len(),
{
    if pairs.len() == 0 {
        None
    } else if pairs[0].0 == key {
        Some(pairs[0].1)
    } else {
        lookup_param(pairs.drop_first(), key)
    }
}

proof fn lemma_lookup_skip(pairs: Seq<(Seq<char>, Seq<char>)>, key: Seq<char>, i: int)
    requires
        0 <= i <= pairs.len(),
        forall|j: int| 0 <= j < i ==> pairs[j].0 != key,
    ensures
        lookup_param(pairs, key) == lookup_param(pairs.skip(i), key),
    decreases i,
{
    if i > 0 {
        assert(pairs.len() > 0);
        assert(pairs[0].0 != key);
        assert(pairs.drop_first() =~= pairs.skip(1));
        lemma_lookup_skip(pairs.drop_first(), key, i - 1);
        assert(pairs.drop_first().skip(i - 1) =~= pairs.skip(i));
    } else {
        assert(pairs.skip(0) =~= pairs);
    }
}

/// The views of a list of owned pairs.
pub open spec fn pairs_view(s: Seq<(String, String)>) -> Seq<(Seq<char>, Seq<char>)> {
    s.map_values(|p: (String, String)| (p.0@, p.1@))
}

/// The first value stored under `key` among parsed pairs.
pub(crate) fn lookup_pair(pairs: &Vec<(String, String)>, key: &str) -> (r: Option<String>)
    ensures
        match r {
            Some(v) => lookup_param(pairs_view(pairs@), key@) == Some(v@),
            None => lookup_param(pairs_view(pairs@), key@) is None,
        },
{
    let ghost qp = pairs_view(pairs@);
    let key_owned: String = key.to_owned();
    let n = pairs.len();
    let mut i: usize = 0;
    while i < n
        invariant
            key_owned@ == key@,
            n == pairs@.len(),
            i <= n,
            qp == pairs_view(pairs@),
            qp.len() == pairs@.len(),
            forall|j: int| 0 <= j < i ==> qp[j].0 != key@,
        decreases n - i,
    {
        proof {
            assert(qp[i as int] == (pairs@[i as int].0@, pairs@[i as int].1@));
        }
        if pairs[i].0 == key_owned {
            proof {
                lemma_lookup_skip(qp, key@, i as int);
                assert(qp.skip(i as int)[0] == qp[i as int]);
                assert(qp.skip(i as int).len() > 0);
            }
            return Some(pairs[i].1.clone());
        }
        i = i + 1;
    }
    proof {
        lemma_lookup_skip(qp, key@, n as int);
        assert(qp.skip(n as int).len() == 0);
    }
    None
}

} // verus!
