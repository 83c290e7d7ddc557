//! The store: every experiment with what belongs to it, the workers and
//! the tokens, held in memory with their invariants.

pub mod experiments;
pub mod migrations;

pub use crate::db::experiments::Database;
use vstd::prelude::*;

verus! {

/// The index at which `k` stands among `keys`, where it stands there.
pub open spec fn key_index<K>(keys: Seq<K>, k: K) -> Option<int> {
    if keys.contains(k) {
        Some(keys.index_of(k))
    } else {
        None
    }
}

/// Among keys without duplicates, a key stands where it is found.
pub proof fn lemma_key_found<K>(keys: Seq<K>, k: K, i: int)
    requires
        keys.no_duplicates(),
        0 <= i < keys.len(),
        keys[i] == k,
    ensures
        key_index(keys, k) == Some(i),
{
    assert(keys.contains(k));
}

/// A key that no index holds stands nowhere.
pub proof fn lemma_key_absent<K>(keys: Seq<K>, k: K)
    requires
        forall|i: int| 0 <= i < keys.len() ==> keys[i] != k,
    ensures
        key_index(keys, k) is None,
{
}

/// Where a key stands, it is found, and nowhere else.
pub proof fn lemma_key_index<K>(keys: Seq<K>, k: K)
    requires
        keys.no_duplicates(),
    ensures
        match key_index(keys, k) {
            Some(i) => 0 <= i < keys.len() && keys[i] == k && forall|j: int|
                0 <= j < keys.len() && j != i ==> keys[j] != k,
            None => forall|j: int| 0 <= j < keys.len() ==> keys[j] != k,
        },
{
}

/// What a filter keeps, it keeps from what it was given.
pub proof fn lemma_filter_member<A>(s: Seq<A>, pred: spec_fn(A) -> bool, i: int)
    requires
        0 <= i < s.filter(pred).len(),
    ensures
        s.contains(s.filter(pred)[i]),
        pred(s.filter(pred)[i]),
    decreases s.len(),
{
    reveal(Seq::filter);
    if s.len() > 0 {
        let sub = s.drop_last().filter(pred);
        if i < sub.len() {
            lemma_filter_member(s.drop_last(), pred, i);
            let x = sub[i];
            let k = choose|k: int| 0 <= k < s.drop_last().len() && s.drop_last()[k] == x;
            assert(s[k] == x);
        } else {
            assert(s.filter(pred)[i] == s.last());
            assert(s[s.len() - 1] == s.last());
        }
    }
}

} // verus!
