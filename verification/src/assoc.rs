//! Association lists keyed by [`AccountId`]: the ledger's two tables (fund
//! records and token accounts) are stored as vectors of key/value pairs with
//! pairwise-distinct keys.

use vstd::prelude::*;

use crate::ids::{id_eq, AccountId};

verus! {

/// The value stored under key `k`, taking the latest binding first.
pub open spec fn assoc_at<T>(s: Seq<(AccountId, T)>, k: Seq<u8>) -> Option<T>
    decreases s.len(),
{
    if s.len() == 0 {
        None
    } else if s.last().0@ == k {
        Some(s.last().1)
    } else {
        assoc_at(s.drop_last(), k)
    }
}

/// No two entries share a key.
pub open spec fn unique_keys<T>(s: Seq<(AccountId, T)>) -> bool {
    forall|i: int, j: int| 0 <= i < j < s.len() ==> s[i].0@ != s[j].0@
}

/// Appending a binding with a fresh-or-not key: the new key is now bound to
/// the new value, every other key keeps its binding.
pub proof fn lemma_assoc_push<T>(s: Seq<(AccountId, T)>, p: (AccountId, T), k: Seq<u8>)
    ensures
        assoc_at(s.push(p), k) == (if k == p.0@ {
            Some(p.1)
        } else {
            assoc_at(s, k)
        }),
{
    assert(s.push(p).drop_last() =~= s);
    assert(s.push(p).last() == p);
}

/// Overwriting the entry at index `i` in place: its key is now bound to the
/// new value, every other key keeps its binding.
pub proof fn lemma_assoc_update<T>(s: Seq<(AccountId, T)>, i: int, p: (AccountId, T), k: Seq<u8>)
    requires
        0 <= i < s.len(),
        s[i].0@ == p.0@,
        unique_keys(s),
    ensures
        assoc_at(s.update(i, p), k) == (if k == p.0@ {
            Some(p.1)
        } else {
            assoc_at(s, k)
        }),
    decreases s.len(),
{
    let t = s.update(i, p);
    if i == s.len() - 1 {
        assert(t.last() == p);
        assert(t.drop_last() =~= s.drop_last());
        if k != p.0@ {
            assert(s.last().0@ == p.0@);
            assert(assoc_at(s, k) == assoc_at(s.drop_last(), k));
        }
    } else {
        assert(t.last() == s.last());
        assert(t.drop_last() =~= s.drop_last().update(i, p));
        assert(s.drop_last()[i] == s[i]);
        assert(unique_keys(s.drop_last()));
        lemma_assoc_update(s.drop_last(), i, p, k);
        if s.last().0@ == k {
            assert(s[i].0@ != s.last().0@);
        }
    }
}

/// A key that no entry carries is bound to nothing, and conversely.
pub proof fn lemma_assoc_none<T>(s: Seq<(AccountId, T)>, k: Seq<u8>)
    ensures
        (assoc_at(s, k) is None) <==> (forall|i: int| 0 <= i < s.len() ==> s[i].0@ != k),
    decreases s.len(),
{
    if s.len() > 0 {
        lemma_assoc_none(s.drop_last(), k);
        assert(forall|i: int|
            0 <= i < s.len() - 1 ==> s.drop_last()[i] == s[i]);
        assert(s.last() == s[s.len() - 1]);
    }
}

/// Index of the entry bound to `key`, if any.
pub fn assoc_index<T>(v: &Vec<(AccountId, T)>, key: &AccountId) -> (r: Option<usize>)
    ensures
        match r {
            None => assoc_at(v@, key@) is None,
            Some(i) => i < v.len() && v@[i as int].0@ == key@ && assoc_at(v@, key@) == Some(
                v@[i as int].1,
            ),
        },
{
    let mut i: usize = v.len();
    assert(v@.subrange(0, v.len() as int) =~= v@);
    while i > 0
        invariant
            i <= v.len(),
            assoc_at(v@, key@) == assoc_at(v@.subrange(0, i as int), key@),
        decreases i,
    {
        i = i - 1;
        let sub = Ghost(v@.subrange(0, i as int + 1));
        assert(sub@.last() == v@[i as int]);
        assert(sub@.drop_last() =~= v@.subrange(0, i as int));
        if id_eq(&v[i].0, key) {
            return Some(i);
        }
    }
    assert(v@.subrange(0, 0) =~= Seq::<(AccountId, T)>::empty());
    None
}

} // verus!
