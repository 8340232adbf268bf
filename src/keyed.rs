//! Sequences of entries with unique keys, the model of the registry's tables.
use vstd::prelude::*;

verus! {

/// An entry with a string key.
pub trait Keyed {
    spec fn key(&self) -> Seq<char>;
}

/// No two entries share a key.
pub open spec fn keys_unique<V: Keyed>(s: Seq<V>) -> bool {
    forall|i: int, j: int|
        0 <= i < s.len() && 0 <= j < s.len() && i != j ==> #[trigger] s[i].key() != #[trigger] s[j].key()
}

/// Some entry has key `k`.
pub open spec fn has_key<V: Keyed>(s: Seq<V>, k: Seq<char>) -> bool {
    exists|i: int| 0 <= i < s.len() && #[trigger] s[i].key() == k
}

/// The position of an entry with key `k`, when there is one.
pub open spec fn index_of<V: Keyed>(s: Seq<V>, k: Seq<char>) -> int {
    choose|i: int| 0 <= i < s.len() && #[trigger] s[i].key() == k
}

/// The entry with key `k`, if any.
pub open spec fn lookup<V: Keyed>(s: Seq<V>, k: Seq<char>) -> Option<V> {
    if has_key(s, k) {
        Some(s[index_of(s, k)])
    } else {
        None
    }
}

/// `v` takes the place of the entry with its key, or is appended when there
/// is none.
pub open spec fn upsert<V: Keyed>(s: Seq<V>, v: V) -> Seq<V> {
    if has_key(s, v.key()) {
        s.update(index_of(s, v.key()), v)
    } else {
        s.push(v)
    }
}

/// With unique keys, the entry found at `i` is the one that `index_of` picks.
pub proof fn lemma_index_of_unique<V: Keyed>(s: Seq<V>, i: int)
    requires
        keys_unique(s),
        0 <= i < s.len(),
    ensures
        has_key(s, s[i].key()),
        index_of(s, s[i].key()) == i,
{
    let k = s[i].key();
    assert(has_key(s, k));
    let j = index_of(s, k);
    assert(s[j].key() == k);
}

/// Replacing an entry by one with the same key keeps keys unique.
pub proof fn lemma_update_same_key_unique<V: Keyed>(s: Seq<V>, i: int, v: V)
    requires
        keys_unique(s),
        0 <= i < s.len(),
        v.key() == s[i].key(),
    ensures
        keys_unique(s.update(i, v)),
{
    let t = s.update(i, v);
    assert forall|a: int, b: int|
        0 <= a < t.len() && 0 <= b < t.len() && a != b implies #[trigger] t[a].key()
        != #[trigger] t[b].key() by {
        assert(t[a].key() == s[a].key());
        assert(t[b].key() == s[b].key());
    }
}

/// Upserting keeps keys unique.
pub proof fn lemma_upsert_unique<V: Keyed>(s: Seq<V>, v: V)
    requires
        keys_unique(s),
    ensures
        keys_unique(upsert(s, v)),
        has_key(upsert(s, v), v.key()),
        lookup(upsert(s, v), v.key()) == Some(v),
{
    let t = upsert(s, v);
    if has_key(s, v.key()) {
        let i = index_of(s, v.key());
        lemma_update_same_key_unique(s, i, v);
        lemma_index_of_unique(t, i);
    } else {
        assert forall|a: int, b: int|
            0 <= a < t.len() && 0 <= b < t.len() && a != b implies #[trigger] t[a].key()
            != #[trigger] t[b].key() by {
            if a < s.len() && b < s.len() {
                assert(t[a] == s[a] && t[b] == s[b]);
            } else if a < s.len() {
                assert(t[a] == s[a]);
            } else {
                assert(t[b] == s[b]);
            }
        }
        lemma_index_of_unique(t, s.len() as int);
    }
}

} // verus!
