//! The store of skipped message keys: message keys derived ahead of time for messages
//! that have not arrived yet, kept in the order of their identifiers.
//!
//! It plays the part of a `BTreeMap<String, Vec<u8>>` from identifier to key: lookup,
//! insertion that replaces, removal, the identifiers in ascending order, and dropping
//! the entries with the smallest identifiers. vstd's specification of `BTreeMap` is
//! meaningful only for keys whose order vstd models (integers, tuples, references and
//! options of them), not for `String` or byte-string keys, so with such keys nothing of
//! the map's contents or order could be proved. The store therefore keeps its entries in
//! a vector sorted strictly by identifier (bytewise, the order of `String`), with that
//! order and the 32-byte keys as its type invariant.
use vstd::prelude::*;
use crate::encoding::bytes_to_vec;

verus! {

/// The lexicographic order of byte strings (the order of Rust strings and byte
/// slices): the first differing byte decides, and a proper prefix comes first.
pub open spec fn lex_lt(a: Seq<u8>, b: Seq<u8>) -> bool
    decreases a.len(),
{
    if a.len() == 0 {
        b.len() > 0
    } else if b.len() == 0 {
        false
    } else if a[0] != b[0] {
        a[0] < b[0]
    } else {
        lex_lt(a.drop_first(), b.drop_first())
    }
}

/// An entry of the store: an identifier and the message key stored under it.
pub type Entry = (Seq<u8>, Seq<u8>);

/// Entries whose identifiers are in strictly increasing order.
pub open spec fn strictly_sorted(e: Seq<Entry>) -> bool {
    forall|i: int, j: int| 0 <= i < j < e.len() ==> lex_lt(#[trigger] e[i].0, #[trigger] e[j].0)
}

/// The number of leading entries whose identifier comes before `key`: in a sorted
/// store, the position where `key` is or belongs.
pub open spec fn lower_bound(e: Seq<Entry>, key: Seq<u8>) -> nat
    decreases e.len(),
{
    if e.len() == 0 {
        0
    } else if lex_lt(e[0].0, key) {
        1 + lower_bound(e.drop_first(), key)
    } else {
        0
    }
}

/// The message key stored under `key`, if any.
pub open spec fn entries_get(e: Seq<Entry>, key: Seq<u8>) -> Option<Seq<u8>> {
    let p = lower_bound(e, key);
    if p < e.len() && e[p as int].0 == key {
        Some(e[p as int].1)
    } else {
        None
    }
}

/// The store after storing `value` under `key`, replacing what was stored there.
pub open spec fn entries_insert(e: Seq<Entry>, key: Seq<u8>, value: Seq<u8>) -> Seq<Entry> {
    let p = lower_bound(e, key);
    if p < e.len() && e[p as int].0 == key {
        e.update(p as int, (key, value))
    } else {
        e.insert(p as int, (key, value))
    }
}

/// The store after removing what is stored under `key`.
pub open spec fn entries_remove(e: Seq<Entry>, key: Seq<u8>) -> Seq<Entry> {
    let p = lower_bound(e, key);
    if p < e.len() && e[p as int].0 == key {
        e.remove(p as int)
    } else {
        e
    }
}

/// The identifiers of a store, in order.
pub open spec fn entries_keys(e: Seq<Entry>) -> Seq<Seq<u8>> {
    e.map_values(|x: Entry| x.0)
}

/// The store as a map from identifiers to message keys.
pub open spec fn entries_map(e: Seq<Entry>) -> Map<Seq<u8>, Seq<u8>> {
    Map::new(|k: Seq<u8>| entries_get(e, k) is Some, |k: Seq<u8>| entries_get(e, k)->Some_0)
}

pub proof fn lemma_lex_irreflexive(a: Seq<u8>)
    ensures
        !lex_lt(a, a),
    decreases a.len(),
{
    if a.len() > 0 {
        lemma_lex_irreflexive(a.drop_first());
    }
}

pub proof fn lemma_lex_asymmetric(a: Seq<u8>, b: Seq<u8>)
    ensures
        lex_lt(a, b) ==> !lex_lt(b, a),
    decreases a.len(),
{
    if a.len() > 0 && b.len() > 0 && a[0] == b[0] {
        lemma_lex_asymmetric(a.drop_first(), b.drop_first());
    }
}

pub proof fn lemma_lex_total(a: Seq<u8>, b: Seq<u8>)
    ensures
        a != b ==> lex_lt(a, b) || lex_lt(b, a),
    decreases a.len(),
{
    if a.len() == 0 && b.len() == 0 {
        assert(a =~= b);
    } else if a.len() > 0 && b.len() > 0 && a[0] == b[0] {
        lemma_lex_total(a.drop_first(), b.drop_first());
        if a.drop_first() == b.drop_first() {
            assert(a =~= seq![a[0]] + a.drop_first());
            assert(b =~= seq![b[0]] + b.drop_first());
        }
    }
}

pub proof fn lemma_lex_transitive(a: Seq<u8>, b: Seq<u8>, c: Seq<u8>)
    requires
        lex_lt(a, b),
        lex_lt(b, c),
    ensures
        lex_lt(a, c),
    decreases a.len(),
{
    if a.len() > 0 && b.len() > 0 && c.len() > 0 && a[0] == b[0] && b[0] == c[0] {
        lemma_lex_transitive(a.drop_first(), b.drop_first(), c.drop_first());
    }
}

/// In any store, the lower bound of `key` is the first position whose identifier does
/// not come before `key`.
pub proof fn lemma_lower_bound_at(e: Seq<Entry>, key: Seq<u8>, p: int)
    requires
        0 <= p <= e.len(),
        forall|i: int| 0 <= i < p ==> lex_lt(#[trigger] e[i].0, key),
        p == e.len() || !lex_lt(e[p].0, key),
    ensures
        lower_bound(e, key) == p,
    decreases p,
{
    if p > 0 {
        assert(lex_lt(e[0].0, key));
        let t = e.drop_first();
        assert forall|i: int| 0 <= i < p - 1 implies lex_lt(#[trigger] t[i].0, key) by {
            assert(t[i] == e[i + 1]);
        }
        lemma_lower_bound_at(t, key, p - 1);
    }
}

/// In a sorted store, the entries before the lower bound of `key` come before it and
/// the entries after it come after it.
pub proof fn lemma_lower_bound_sorted(e: Seq<Entry>, key: Seq<u8>)
    requires
        strictly_sorted(e),
    ensures
        lower_bound(e, key) <= e.len(),
        forall|i: int| 0 <= i < lower_bound(e, key) ==> lex_lt(#[trigger] e[i].0, key),
        forall|i: int|
            lower_bound(e, key) <= i < e.len() && e[i].0 != key ==> lex_lt(key, #[trigger] e[i].0),
        forall|i: int|
            lower_bound(e, key) < i < e.len() ==> lex_lt(key, #[trigger] e[i].0),
    decreases e.len(),
{
    if e.len() > 0 {
        let t = e.drop_first();
        assert(strictly_sorted(t)) by {
            assert forall|i: int, j: int| 0 <= i < j < t.len() implies lex_lt(#[trigger] t[i].0, #[trigger] t[j].0) by {
                assert(t[i] == e[i + 1] && t[j] == e[j + 1]);
            }
        }
        lemma_lower_bound_sorted(t, key);
        let p = lower_bound(e, key);
        if lex_lt(e[0].0, key) {
            assert forall|i: int| 0 <= i < p implies lex_lt(#[trigger] e[i].0, key) by {
                if i > 0 {
                    assert(e[i] == t[i - 1]);
                }
            }
            assert forall|i: int| p <= i < e.len() && e[i].0 != key implies lex_lt(key, #[trigger] e[i].0) by {
                assert(e[i] == t[i - 1]);
            }
            assert forall|i: int| p < i < e.len() implies lex_lt(key, #[trigger] e[i].0) by {
                assert(e[i] == t[i - 1]);
            }
        } else {
            assert forall|i: int| 0 <= i < e.len() && e[i].0 != key implies lex_lt(key, #[trigger] e[i].0) by {
                lemma_lex_total(e[0].0, key);
                if i > 0 {
                    if e[0].0 == key {
                        assert(lex_lt(e[0].0, e[i].0));
                    } else {
                        assert(lex_lt(key, e[0].0));
                        assert(lex_lt(e[0].0, e[i].0));
                        lemma_lex_transitive(key, e[0].0, e[i].0);
                    }
                }
            }
            assert forall|i: int| 0 < i < e.len() implies lex_lt(key, #[trigger] e[i].0) by {
                lemma_lex_total(e[0].0, key);
                assert(lex_lt(e[0].0, e[i].0));
                if e[0].0 == key {
                } else {
                    lemma_lex_transitive(key, e[0].0, e[i].0);
                }
            }
        }
    }
}

/// Storing keeps a store sorted.
pub proof fn lemma_insert_sorted(e: Seq<Entry>, key: Seq<u8>, value: Seq<u8>)
    requires
        strictly_sorted(e),
    ensures
        strictly_sorted(entries_insert(e, key, value)),
{
    lemma_lower_bound_sorted(e, key);
    let p = lower_bound(e, key) as int;
    let r = entries_insert(e, key, value);
    if p < e.len() && e[p].0 == key {
        assert forall|i: int, j: int| 0 <= i < j < r.len() implies lex_lt(#[trigger] r[i].0, #[trigger] r[j].0) by {
            assert(r[i].0 == e[i].0 && r[j].0 == e[j].0);
        }
    } else {
        assert forall|i: int, j: int| 0 <= i < j < r.len() implies lex_lt(#[trigger] r[i].0, #[trigger] r[j].0) by {
            if j < p {
                assert(r[i] == e[i] && r[j] == e[j]);
            } else if j == p {
                assert(r[i] == e[i]);
            } else if i == p {
                assert(r[j] == e[j - 1]);
            } else if i < p {
                assert(r[i] == e[i] && r[j] == e[j - 1]);
            } else {
                assert(r[i] == e[i - 1] && r[j] == e[j - 1]);
            }
        }
    }
}

/// Removing keeps a store sorted.
pub proof fn lemma_remove_sorted(e: Seq<Entry>, key: Seq<u8>)
    requires
        strictly_sorted(e),
    ensures
        strictly_sorted(entries_remove(e, key)),
{
    let p = lower_bound(e, key) as int;
    let r = entries_remove(e, key);
    if p < e.len() && e[p].0 == key {
        assert forall|i: int, j: int| 0 <= i < j < r.len() implies lex_lt(#[trigger] r[i].0, #[trigger] r[j].0) by {
            if j < p {
                assert(r[i] == e[i] && r[j] == e[j]);
            } else if i < p {
                assert(r[i] == e[i] && r[j] == e[j + 1]);
            } else {
                assert(r[i] == e[i + 1] && r[j] == e[j + 1]);
            }
        }
    }
}

/// In a sorted store, looking up the identifier of an entry finds that entry's key.
pub proof fn lemma_get_found(e: Seq<Entry>, i: int)
    requires
        strictly_sorted(e),
        0 <= i < e.len(),
    ensures
        entries_get(e, e[i].0) == Some(e[i].1),
{
    lemma_lex_irreflexive(e[i].0);
    lemma_lower_bound_at(e, e[i].0, i);
}

/// In a sorted store, an identifier that no entry has is not found.
pub proof fn lemma_get_absent(e: Seq<Entry>, key: Seq<u8>)
    requires
        strictly_sorted(e),
        forall|i: int| 0 <= i < e.len() ==> (#[trigger] e[i]).0 != key,
    ensures
        entries_get(e, key) is None,
{
    lemma_lower_bound_sorted(e, key);
}

/// In a sorted store, what is found under an identifier is the key of the entry with
/// that identifier, and nothing is found when no entry has it.
pub proof fn lemma_get_characterized(e: Seq<Entry>, key: Seq<u8>)
    requires
        strictly_sorted(e),
    ensures
        forall|i: int| 0 <= i < e.len() && (#[trigger] e[i]).0 == key ==> entries_get(e, key) == Some(e[i].1),
        (forall|i: int| 0 <= i < e.len() ==> (#[trigger] e[i]).0 != key) ==> entries_get(e, key) is None,
{
    assert forall|i: int| 0 <= i < e.len() && (#[trigger] e[i]).0 == key implies entries_get(e, key) == Some(e[i].1) by {
        lemma_get_found(e, i);
    }
    if forall|i: int| 0 <= i < e.len() ==> (#[trigger] e[i]).0 != key {
        lemma_get_absent(e, key);
    }
}

/// The store is a map: storing a key under an identifier makes it found there and
/// leaves every other identifier as it was.
pub proof fn law_get_after_insert(e: Seq<Entry>, key: Seq<u8>, value: Seq<u8>, other: Seq<u8>)
    requires
        strictly_sorted(e),
    ensures
        entries_get(entries_insert(e, key, value), key) == Some(value),
        other != key ==> entries_get(entries_insert(e, key, value), other) == entries_get(e, other),
{
    lemma_lower_bound_sorted(e, key);
    lemma_insert_sorted(e, key, value);
    let p = lower_bound(e, key) as int;
    let r = entries_insert(e, key, value);
    assert(r[p] == (key, value));
    lemma_get_found(r, p);
    if other != key {
        lemma_get_characterized(e, other);
        lemma_get_characterized(r, other);
        let present = p < e.len() && e[p].0 == key;
        if exists|i: int| 0 <= i < e.len() && (#[trigger] e[i]).0 == other {
            let i = choose|i: int| 0 <= i < e.len() && (#[trigger] e[i]).0 == other;
            if present {
                assert(r[i] == e[i]);
            } else if i < p {
                assert(r[i] == e[i]);
            } else {
                assert(r[i + 1] == e[i]);
            }
        } else {
            assert forall|j: int| 0 <= j < r.len() implies (#[trigger] r[j]).0 != other by {
                if j != p {
                    if present || j < p {
                        assert(r[j] == e[j]);
                    } else {
                        assert(r[j] == e[j - 1]);
                    }
                }
            }
        }
    }
}

/// The store is a map: removing an identifier makes nothing found there and leaves
/// every other identifier as it was.
pub proof fn law_get_after_remove(e: Seq<Entry>, key: Seq<u8>, other: Seq<u8>)
    requires
        strictly_sorted(e),
    ensures
        entries_get(entries_remove(e, key), key) is None,
        other != key ==> entries_get(entries_remove(e, key), other) == entries_get(e, other),
{
    lemma_lower_bound_sorted(e, key);
    lemma_remove_sorted(e, key);
    let p = lower_bound(e, key) as int;
    let r = entries_remove(e, key);
    let present = p < e.len() && e[p].0 == key;
    lemma_lex_irreflexive(key);
    lemma_get_characterized(e, key);
    lemma_get_characterized(r, key);
    if present {
        assert forall|j: int| 0 <= j < r.len() implies (#[trigger] r[j]).0 != key by {
            if j < p {
                assert(r[j] == e[j]);
            } else {
                assert(r[j] == e[j + 1]);
            }
        }
    } else {
        assert forall|j: int| 0 <= j < e.len() implies (#[trigger] e[j]).0 != key by {
            if j >= p && e[j].0 == key {
                assert(lex_lt(e[p].0, e[j].0) || j == p);
                lemma_lex_irreflexive(key);
            }
        }
    }
    if other != key {
        lemma_get_characterized(e, other);
        lemma_get_characterized(r, other);
        if present {
            if exists|i: int| 0 <= i < e.len() && (#[trigger] e[i]).0 == other {
                let i = choose|i: int| 0 <= i < e.len() && (#[trigger] e[i]).0 == other;
                if i < p {
                    assert(r[i] == e[i]);
                } else {
                    assert(r[i - 1] == e[i]);
                }
            } else {
                assert forall|j: int| 0 <= j < r.len() implies (#[trigger] r[j]).0 != other by {
                    if j < p {
                        assert(r[j] == e[j]);
                    } else {
                        assert(r[j] == e[j + 1]);
                    }
                }
            }
        }
    }
}

/// As a map, storing under an identifier is the map's insertion.
pub proof fn law_map_after_insert(e: Seq<Entry>, key: Seq<u8>, value: Seq<u8>)
    requires
        strictly_sorted(e),
    ensures
        entries_map(entries_insert(e, key, value)) == entries_map(e).insert(key, value),
{
    assert forall|x: Seq<u8>| #[trigger] entries_get(entries_insert(e, key, value), x) == (if x == key {
        Some(value)
    } else {
        entries_get(e, x)
    }) by {
        law_get_after_insert(e, key, value, x);
    }
    assert(entries_map(entries_insert(e, key, value)) =~= entries_map(e).insert(key, value));
}

/// As a map, removing an identifier is the map's removal.
pub proof fn law_map_after_remove(e: Seq<Entry>, key: Seq<u8>)
    requires
        strictly_sorted(e),
    ensures
        entries_map(entries_remove(e, key)) == entries_map(e).remove(key),
{
    assert forall|x: Seq<u8>| #[trigger] entries_get(entries_remove(e, key), x) == (if x == key {
        None
    } else {
        entries_get(e, x)
    }) by {
        law_get_after_remove(e, key, x);
    }
    assert(entries_map(entries_remove(e, key)) =~= entries_map(e).remove(key));
}

/// Dropping the first `n` entries keeps the store sorted, and every identifier kept
/// comes after every identifier dropped.
pub proof fn law_skip_keeps_greatest(e: Seq<Entry>, n: int)
    requires
        strictly_sorted(e),
        0 <= n <= e.len(),
    ensures
        strictly_sorted(e.skip(n)),
        forall|i: int, j: int| 0 <= i < n <= j < e.len() ==> lex_lt(#[trigger] e[i].0, #[trigger] e[j].0),
{
    let r = e.skip(n);
    assert forall|i: int, j: int| 0 <= i < j < r.len() implies lex_lt(#[trigger] r[i].0, #[trigger] r[j].0) by {
        assert(r[i] == e[i + n] && r[j] == e[j + n]);
    }
}

/// Whether `a` comes before `b` in the lexicographic order of byte strings.
pub fn bytes_lt(a: &[u8], b: &[u8]) -> (r: bool)
    ensures
        r == lex_lt(a@, b@),
{
    let mut i: usize = 0;
    assert(a@.skip(0) =~= a@);
    assert(b@.skip(0) =~= b@);
    while i < a.len() && i < b.len()
        invariant
            i <= a@.len(),
            i <= b@.len(),
            lex_lt(a@, b@) == lex_lt(a@.skip(i as int), b@.skip(i as int)),
        decreases a@.len() - i,
    {
        if a[i] != b[i] {
            assert(a@.skip(i as int)[0] == a@[i as int]);
            assert(b@.skip(i as int)[0] == b@[i as int]);
            return a[i] < b[i];
        }
        assert(a@.skip(i as int).drop_first() =~= a@.skip(i + 1));
        assert(b@.skip(i as int).drop_first() =~= b@.skip(i + 1));
        assert(a@.skip(i as int)[0] == a@[i as int]);
        assert(b@.skip(i as int)[0] == b@[i as int]);
        i = i + 1;
    }
    a.len() < b.len()
}

/// A store of message keys by identifier, kept sorted by identifier, each key 32 bytes.
#[derive(Debug)]
pub struct SkippedKeys {
    entries: Vec<(Vec<u8>, Vec<u8>)>,
}

impl View for SkippedKeys {
    type V = Seq<Entry>;

    closed spec fn view(&self) -> Seq<Entry> {
        self.entries@.map_values(|x: (Vec<u8>, Vec<u8>)| (x.0@, x.1@))
    }
}

impl Clone for SkippedKeys {
    fn clone(&self) -> (c: Self)
        ensures
            c@ == self@,
    {
        self.copy()
    }
}

/// The well-formed stores: sorted by identifier, each message key 32 bytes.
pub open spec fn store_wf(e: Seq<Entry>) -> bool {
    &&& strictly_sorted(e)
    &&& forall|i: int| 0 <= i < e.len() ==> (#[trigger] e[i]).1.len() == 32
}

impl SkippedKeys {
    #[verifier::type_invariant]
    closed spec fn inv(self) -> bool {
        store_wf(self@)
    }

    /// Every store is well formed: its identifiers ascend strictly and each message key
    /// has 32 bytes. The call does nothing at run time; it brings that fact into the
    /// caller's proof.
    pub fn well_formed(&self)
        ensures
            store_wf(self@),
    {
        proof {
            use_type_invariant(self);
        }
    }

    /// An empty store.
    pub fn new() -> (s: SkippedKeys)
        ensures
            s@ == Seq::<Entry>::empty(),
    {
        let s = SkippedKeys { entries: Vec::new() };
        assert(s@ =~= Seq::<Entry>::empty());
        s
    }

    /// The number of stored keys.
    pub fn len(&self) -> (n: usize)
        ensures
            n == self@.len(),
    {
        self.entries.len()
    }

    /// Whether nothing is stored.
    pub fn is_empty(&self) -> (b: bool)
        ensures
            b == (self@.len() == 0),
    {
        self.entries.len() == 0
    }

    /// The position where `key` is or belongs.
    fn position(&self, key: &[u8]) -> (p: usize)
        ensures
            p == lower_bound(self@, key@),
            p <= self@.len(),
    {
        let mut i: usize = 0;
        while i < self.entries.len()
            invariant
                i <= self@.len(),
                self@.len() == self.entries@.len(),
                forall|j: int| 0 <= j < i ==> lex_lt(#[trigger] self@[j].0, key@),
            decreases self@.len() - i,
        {
            if !bytes_lt(self.entries[i].0.as_slice(), key) {
                proof {
                    lemma_lower_bound_at(self@, key@, i as int);
                }
                return i;
            }
            i = i + 1;
        }
        proof {
            lemma_lower_bound_at(self@, key@, i as int);
        }
        i
    }

    /// The message key stored under `key`, if any.
    pub fn get(&self, key: &[u8]) -> (v: Option<Vec<u8>>)
        ensures
            match v {
                Some(k) => entries_get(self@, key@) == Some(k@) && k@.len() == 32,
                None => entries_get(self@, key@) is None,
            },
    {
        proof {
            use_type_invariant(self);
        }
        let p = self.position(key);
        if p < self.entries.len() && crate::encoding::bytes_equal(self.entries[p].0.as_slice(), key) {
            assert(self@[p as int] == (self.entries@[p as int].0@, self.entries@[p as int].1@));
            Some(bytes_to_vec(self.entries[p].1.as_slice()))
        } else {
            None
        }
    }

    /// Whether a message key is stored under `key`.
    pub fn contains_key(&self, key: &[u8]) -> (b: bool)
        ensures
            b == entries_get(self@, key@) is Some,
    {
        let p = self.position(key);
        p < self.entries.len() && crate::encoding::bytes_equal(self.entries[p].0.as_slice(), key)
    }

    /// Stores a 32-byte message key under `key`, replacing what was stored there.
    pub fn insert(&mut self, key: Vec<u8>, value: Vec<u8>)
        requires
            value@.len() == 32,
        ensures
            final(self)@ == entries_insert(old(self)@, key@, value@),
    {
        proof {
            use_type_invariant(&*self);
        }
        let p = self.position(key.as_slice());
        let ghost before = self@;
        let mut entries: Vec<(Vec<u8>, Vec<u8>)> = Vec::new();
        std::mem::swap(&mut entries, &mut self.entries);
        assert(entries@.map_values(|x: (Vec<u8>, Vec<u8>)| (x.0@, x.1@)) == before);
        let present = p < entries.len() && crate::encoding::bytes_equal(entries[p].0.as_slice(), key.as_slice());
        let ghost kv = key@;
        let ghost vv = value@;
        let ghost old_entries = entries@;
        if present {
            entries.remove(p);
        }
        entries.insert(p, (key, value));
        proof {
            let after = entries@.map_values(|x: (Vec<u8>, Vec<u8>)| (x.0@, x.1@));
            let expected = entries_insert(before, kv, vv);
            assert(after.len() == expected.len());
            assert forall|i: int| 0 <= i < after.len() implies after[i] == expected[i] by {
                if i == p {
                } else if present {
                    assert(entries@[i] == old_entries[i]);
                } else if i < p {
                    assert(entries@[i] == old_entries[i]);
                } else {
                    assert(entries@[i] == old_entries[i - 1]);
                }
            }
            assert(after =~= expected);
            lemma_insert_sorted(before, kv, vv);
            assert forall|i: int| 0 <= i < after.len() implies (#[trigger] after[i]).1.len() == 32 by {
                if present {
                    if i != p {
                        assert(after[i] == before[i]);
                    }
                } else {
                    if i < p {
                        assert(after[i] == before[i]);
                    } else if i > p {
                        assert(after[i] == before[i - 1]);
                    }
                }
            }
        }
        self.entries = entries;
    }

    /// Removes what is stored under `key` and gives it back.
    pub fn remove(&mut self, key: &[u8]) -> (v: Option<Vec<u8>>)
        ensures
            final(self)@ == entries_remove(old(self)@, key@),
            match v {
                Some(k) => entries_get(old(self)@, key@) == Some(k@) && k@.len() == 32,
                None => entries_get(old(self)@, key@) is None,
            },
    {
        proof {
            use_type_invariant(&*self);
        }
        let p = self.position(key);
        let ghost before = self@;
        if p < self.entries.len() && crate::encoding::bytes_equal(self.entries[p].0.as_slice(), key) {
            let mut entries: Vec<(Vec<u8>, Vec<u8>)> = Vec::new();
            std::mem::swap(&mut entries, &mut self.entries);
            assert(entries@.map_values(|x: (Vec<u8>, Vec<u8>)| (x.0@, x.1@)) == before);
            let removed = entries.remove(p);
            proof {
                let after = entries@.map_values(|x: (Vec<u8>, Vec<u8>)| (x.0@, x.1@));
                assert(after =~= entries_remove(before, key@));
                lemma_remove_sorted(before, key@);
                assert forall|i: int| 0 <= i < after.len() implies (#[trigger] after[i]).1.len() == 32 by {
                    if i < p {
                        assert(after[i] == before[i]);
                    } else {
                        assert(after[i] == before[i + 1]);
                    }
                }
            }
            self.entries = entries;
            Some(removed.1)
        } else {
            None
        }
    }

    /// Removes the first `n` entries in identifier order.
    pub fn remove_first(&mut self, n: usize)
        requires
            n <= old(self)@.len(),
        ensures
            final(self)@ == old(self)@.skip(n as int),
    {
        proof {
            use_type_invariant(&*self);
        }
        let ghost before = self@;
        let mut result: Vec<(Vec<u8>, Vec<u8>)> = Vec::new();
        let mut i: usize = n;
        while i < self.entries.len()
            invariant
                n <= i <= before.len(),
                before == self@,
                before.len() == self.entries@.len(),
                result@.map_values(|x: (Vec<u8>, Vec<u8>)| (x.0@, x.1@)) == before.subrange(n as int, i as int),
            decreases before.len() - i,
        {
            assert(before[i as int] == (self.entries@[i as int].0@, self.entries@[i as int].1@));
            let id = bytes_to_vec(self.entries[i].0.as_slice());
            let key = bytes_to_vec(self.entries[i].1.as_slice());
            let ghost prev = result@;
            let ghost item = (id@, key@);
            result.push((id, key));
            i = i + 1;
            assert(result@.map_values(|x: (Vec<u8>, Vec<u8>)| (x.0@, x.1@)) =~= prev.map_values(|x: (Vec<u8>, Vec<u8>)| (x.0@, x.1@)).push(item));
            assert(before.subrange(n as int, i as int) =~= before.subrange(n as int, i - 1).push(before[i - 1]));
        }
        proof {
            let after = result@.map_values(|x: (Vec<u8>, Vec<u8>)| (x.0@, x.1@));
            assert(after =~= before.skip(n as int));
            assert forall|a: int, b: int| 0 <= a < b < after.len() implies lex_lt(#[trigger] after[a].0, #[trigger] after[b].0) by {
                assert(after[a] == before[a + n] && after[b] == before[b + n]);
            }
            assert forall|a: int| 0 <= a < after.len() implies (#[trigger] after[a]).1.len() == 32 by {
                assert(after[a] == before[a + n]);
            }
        }
        self.entries = result;
    }

    /// A copy of this store.
    pub fn copy(&self) -> (c: SkippedKeys)
        ensures
            c@ == self@,
    {
        proof {
            use_type_invariant(self);
        }
        let ghost before = self@;
        let mut result: Vec<(Vec<u8>, Vec<u8>)> = Vec::new();
        let mut i: usize = 0;
        while i < self.entries.len()
            invariant
                i <= before.len(),
                before == self@,
                store_wf(before),
                before.len() == self.entries@.len(),
                result@.map_values(|x: (Vec<u8>, Vec<u8>)| (x.0@, x.1@)) == before.take(i as int),
            decreases before.len() - i,
        {
            assert(before[i as int] == (self.entries@[i as int].0@, self.entries@[i as int].1@));
            let id = bytes_to_vec(self.entries[i].0.as_slice());
            let key = bytes_to_vec(self.entries[i].1.as_slice());
            let ghost prev = result@;
            let ghost item = (id@, key@);
            result.push((id, key));
            i = i + 1;
            assert(result@.map_values(|x: (Vec<u8>, Vec<u8>)| (x.0@, x.1@)) =~= prev.map_values(|x: (Vec<u8>, Vec<u8>)| (x.0@, x.1@)).push(item));
            assert(before.take(i as int) =~= before.take(i - 1).push(before[i - 1]));
        }
        assert(before.take(i as int) =~= before);
        SkippedKeys { entries: result }
    }

    /// The identifiers, in order.
    pub fn keys(&self) -> (ks: Vec<Vec<u8>>)
        ensures
            ks@.map_values(|k: Vec<u8>| k@) == entries_keys(self@),
    {
        let mut ks: Vec<Vec<u8>> = Vec::new();
        let mut i: usize = 0;
        while i < self.entries.len()
            invariant
                i <= self@.len(),
                self@.len() == self.entries@.len(),
                ks@.map_values(|k: Vec<u8>| k@) == entries_keys(self@).take(i as int),
            decreases self@.len() - i,
        {
            assert(self@[i as int] == (self.entries@[i as int].0@, self.entries@[i as int].1@));
            assert(entries_keys(self@)[i as int] == self@[i as int].0);
            let ghost prev = ks@;
            let id = bytes_to_vec(self.entries[i].0.as_slice());
            let ghost item = id@;
            ks.push(id);
            i = i + 1;
            assert(ks@.map_values(|k: Vec<u8>| k@) =~= prev.map_values(|k: Vec<u8>| k@).push(item));
            assert(entries_keys(self@).take(i as int) =~= entries_keys(self@).take(i - 1).push(entries_keys(self@)[i - 1]));
        }
        assert(entries_keys(self@).take(i as int) =~= entries_keys(self@));
        ks
    }
}

} // verus!
