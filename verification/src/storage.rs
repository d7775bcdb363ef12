//! Storage model: which browser scope values persist to, and an in-memory
//! key-value store.
//!
//! The raw browser storage (window.localStorage / window.sessionStorage) is a
//! capability of the surrounding application.  The engine itself works on a
//! [`KeyValueStore`], a string-keyed map whose behaviour is fully specified;
//! the application mirrors it into the scope named by [`StorageType`].

use vstd::prelude::*;

verus! {

/// Which browser storage scope persisted values go to.
#[derive(Debug, Clone, Copy, PartialEq, Eq, Structural)]
pub enum StorageType {
    LocalStorage,
    SessionStorage,
}

impl Default for StorageType {
    fn default() -> (r: Self)
        ensures
            r == StorageType::LocalStorage,
    {
        StorageType::LocalStorage
    }
}

/// True when some entry of `s` has key view `k`.
pub open spec fn kv_has(s: Seq<(String, String)>, k: Seq<char>) -> bool {
    exists|i: int| 0 <= i < s.len() && s[i].0@ == k
}

/// The value of the entry of `s` whose key view is `k` (meaningful when the
/// keys of `s` are unique and one of them is `k`).
pub open spec fn kv_at(s: Seq<(String, String)>, k: Seq<char>) -> Seq<char> {
    s[choose|i: int| 0 <= i < s.len() && s[i].0@ == k].1@
}

/// The map described by an entry list.
pub open spec fn kv_map(s: Seq<(String, String)>) -> Map<Seq<char>, Seq<char>> {
    Map::new(|k: Seq<char>| kv_has(s, k), |k: Seq<char>| kv_at(s, k))
}

/// No two entries share a key.
pub open spec fn kv_unique(s: Seq<(String, String)>) -> bool {
    forall|i: int, j: int| 0 <= i < j < s.len() ==> s[i].0@ != s[j].0@
}

proof fn lemma_kv_at_index(s: Seq<(String, String)>, i: int)
    requires
        kv_unique(s),
        0 <= i < s.len(),
    ensures
        kv_has(s, s[i].0@),
        kv_at(s, s[i].0@) == s[i].1@,
{
    let k = s[i].0@;
    assert(kv_has(s, k));
    let ci = choose|j: int| 0 <= j < s.len() && s[j].0@ == k;
    if ci < i {
        assert(s[ci].0@ != s[i].0@);
    } else if i < ci {
        assert(s[i].0@ != s[ci].0@);
    }
}

proof fn lemma_kv_remove(s: Seq<(String, String)>, i: int)
    requires
        kv_unique(s),
        0 <= i < s.len(),
    ensures
        kv_unique(s.remove(i)),
        forall|k: Seq<char>| #[trigger] kv_has(s.remove(i), k) <==> kv_has(s, k) && k != s[i].0@,
        forall|k: Seq<char>| #[trigger] kv_has(s.remove(i), k) ==> kv_at(s.remove(i), k) == kv_at(s, k),
{
    let s2 = s.remove(i);
    assert forall|a: int, b: int| 0 <= a < b < s2.len() implies s2[a].0@ != s2[b].0@ by {
        let a0 = if a < i { a } else { a + 1 };
        let b0 = if b < i { b } else { b + 1 };
        assert(s2[a] == s[a0]);
        assert(s2[b] == s[b0]);
    }
    assert forall|k: Seq<char>| #[trigger] kv_has(s2, k) implies kv_has(s, k) && k != s[i].0@ by {
        let j = choose|j: int| 0 <= j < s2.len() && s2[j].0@ == k;
        let j0 = if j < i { j } else { j + 1 };
        assert(s2[j] == s[j0]);
        assert(s[j0].0@ == k);
        if j0 < i {
            assert(s[j0].0@ != s[i].0@);
        } else {
            assert(s[i].0@ != s[j0].0@);
        }
    }
    assert forall|k: Seq<char>| kv_has(s, k) && k != s[i].0@ implies #[trigger] kv_has(s2, k) by {
        let j0 = choose|j: int| 0 <= j < s.len() && s[j].0@ == k;
        let j = if j0 < i { j0 } else { j0 - 1 };
        assert(s2[j] == s[j0]);
    }
    assert forall|k: Seq<char>| #[trigger] kv_has(s2, k) implies kv_at(s2, k) == kv_at(s, k) by {
        let j = choose|j: int| 0 <= j < s2.len() && s2[j].0@ == k;
        let j0 = if j < i { j } else { j + 1 };
        assert(s2[j] == s[j0]);
        lemma_kv_at_index(s2, j);
        lemma_kv_at_index(s, j0);
    }
}

proof fn lemma_kv_push(s: Seq<(String, String)>, key: String, value: String)
    requires
        kv_unique(s),
        !kv_has(s, key@),
    ensures
        kv_unique(s.push((key, value))),
        kv_map(s.push((key, value))) == kv_map(s).insert(key@, value@),
{
    let s2 = s.push((key, value));
    assert forall|a: int, b: int| 0 <= a < b < s2.len() implies s2[a].0@ != s2[b].0@ by {
        if b < s.len() {
            assert(s2[a] == s[a]);
            assert(s2[b] == s[b]);
        } else {
            assert(s2[a] == s[a]);
            assert(s2[b] == (key, value));
            assert(kv_has(s, s[a].0@));
        }
    }
    assert forall|k: Seq<char>| #[trigger] kv_has(s2, k) <==> kv_has(s, k) || k == key@ by {
        if kv_has(s2, k) {
            let j = choose|j: int| 0 <= j < s2.len() && s2[j].0@ == k;
            if j < s.len() {
                assert(s2[j] == s[j]);
                assert(kv_has(s, k));
            } else {
                assert(s2[j] == (key, value));
            }
        }
        if kv_has(s, k) {
            let j = choose|j: int| 0 <= j < s.len() && s[j].0@ == k;
            assert(s2[j] == s[j]);
            assert(kv_has(s2, k));
        }
        if k == key@ {
            assert(s2[s.len() as int] == (key, value));
            assert(kv_has(s2, k));
        }
    }
    assert forall|k: Seq<char>| #[trigger] kv_has(s2, k) implies kv_at(s2, k) == if k == key@ {
        value@
    } else {
        kv_at(s, k)
    } by {
        if k == key@ {
            assert(s2[s.len() as int] == (key, value));
            lemma_kv_at_index(s2, s.len() as int);
        } else {
            let j = choose|j: int| 0 <= j < s.len() && s[j].0@ == k;
            assert(s2[j] == s[j]);
            lemma_kv_at_index(s2, j);
            lemma_kv_at_index(s, j);
        }
    }
    assert(kv_map(s2) =~= kv_map(s).insert(key@, value@));
}

/// An in-memory string key-value store.  It stands in for the browser's
/// local/session storage: the engine reads and writes it, and the surrounding
/// application mirrors it into the real storage scope.
pub struct KeyValueStore {
    entries: Vec<(String, String)>,
}

impl View for KeyValueStore {
    type V = Map<Seq<char>, Seq<char>>;

    closed spec fn view(&self) -> Map<Seq<char>, Seq<char>> {
        kv_map(self.entries@)
    }
}

impl KeyValueStore {
    #[verifier::type_invariant]
    closed spec fn wf(&self) -> bool {
        kv_unique(self.entries@)
    }

    /// An empty store.
    pub fn new() -> (r: Self)
        ensures
            r@ == Map::<Seq<char>, Seq<char>>::empty(),
    {
        let r = KeyValueStore { entries: Vec::new() };
        proof {
            assert(r@ =~= Map::<Seq<char>, Seq<char>>::empty());
        }
        r
    }

    fn find_index(&self, key: &str) -> (r: Option<usize>)
        ensures
            match r {
                Some(i) => i < self.entries@.len() && self.entries@[i as int].0@ == key@,
                None => !kv_has(self.entries@, key@),
            },
    {
        let key_owned: String = key.to_owned();
        let n = self.entries.len();
        let mut i: usize = 0;
        while i < n
            invariant
                key_owned@ == key@,
                n == self.entries@.len(),
                i <= n,
                forall|j: int| 0 <= j < i ==> self.entries@[j].0@ != key@,
            decreases n - i,
        {
            if self.entries[i].0 == key_owned {
                return Some(i);
            }
            i = i + 1;
        }
        None
    }

    /// The value stored under `key`, if any.
    pub fn get(&self, key: &str) -> (r: Option<String>)
        ensures
            match r {
                Some(v) => self@.contains_key(key@) && v@ == self@[key@],
                None => !self@.contains_key(key@),
            },
    {
        proof {
            use_type_invariant(self);
        }
        match self.find_index(key) {
            Some(i) => {
                proof {
                    lemma_kv_at_index(self.entries@, i as int);
                }
                Some(self.entries[i].1.clone())
            },
            None => None,
        }
    }

    /// True when a value is stored under `key`.
    pub fn contains(&self, key: &str) -> (r: bool)
        ensures
            r == self@.contains_key(key@),
    {
        self.get(key).is_some()
    }

    /// Stores `value` under `key`, replacing any previous value.
    pub fn set(&mut self, key: &str, value: &str)
        ensures
            final(self)@ == old(self)@.insert(key@, value@),
    {
        proof {
            use_type_invariant(&*self);
        }
        let ghost s0 = self.entries@;
        let idx = self.find_index(key);
        let mut entries: Vec<(String, String)> = Vec::new();
        core::mem::swap(&mut entries, &mut self.entries);
        if let Some(i) = idx {
            proof {
                lemma_kv_remove(s0, i as int);
            }
            entries.remove(i);
        }
        let key_owned: String = key.to_owned();
        let value_owned: String = value.to_owned();
        let ghost s1 = entries@;
        proof {
            lemma_kv_push(s1, key_owned, value_owned);
        }
        entries.push((key_owned, value_owned));
        core::mem::swap(&mut entries, &mut self.entries);
        proof {
            assert(self@ =~= kv_map(s0).insert(key@, value@));
        }
    }

    /// Removes the value stored under `key`; does nothing when none is.
    pub fn remove(&mut self, key: &str)
        ensures
            final(self)@ == old(self)@.remove(key@),
    {
        proof {
            use_type_invariant(&*self);
        }
        let ghost s0 = self.entries@;
        let idx = self.find_index(key);
        if let Some(i) = idx {
            let mut entries: Vec<(String, String)> = Vec::new();
            core::mem::swap(&mut entries, &mut self.entries);
            proof {
                lemma_kv_remove(s0, i as int);
            }
            entries.remove(i);
            core::mem::swap(&mut entries, &mut self.entries);
            proof {
                assert(self@ =~= kv_map(s0).remove(key@));
            }
        } else {
            proof {
                assert(kv_map(s0) =~= kv_map(s0).remove(key@));
            }
        }
    }
}

} // verus!
