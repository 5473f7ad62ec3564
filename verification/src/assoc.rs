//! Specification helpers for association lists: key lookup with
//! first-match semantics, as a model for the build-time registries.
use vstd::prelude::*;

verus! {

/// Some entry of the list carries the key `k`.
pub open spec fn assoc_has<K, V>(s: Seq<(K, V)>, k: K) -> bool {
    exists|i: int| 0 <= i < s.len() && s[i].0 == k
}

/// The value of the first entry carrying the key `k`.
pub open spec fn assoc_get<K, V>(s: Seq<(K, V)>, k: K) -> V
    recommends
        assoc_has(s, k),
    decreases s.len(),
{
    if s.len() == 0 {
        arbitrary()
    } else if s[0].0 == k {
        s[0].1
    } else {
        assoc_get(s.drop_first(), k)
    }
}

/// An entry at position `i` whose key has no earlier occurrence is the
/// one that `assoc_get` returns.
pub proof fn lemma_assoc_get_at<K, V>(s: Seq<(K, V)>, k: K, i: int)
    requires
        0 <= i < s.len(),
        s[i].0 == k,
        forall|j: int| 0 <= j < i ==> s[j].0 != k,
    ensures
        assoc_has(s, k),
        assoc_get(s, k) == s[i].1,
    decreases i,
{
    if i == 0 {
    } else {
        lemma_assoc_get_at(s.drop_first(), k, i - 1);
    }
}

/// Appending an entry leaves every present key's lookup unchanged, and
/// gives an absent key the appended value.
pub proof fn lemma_assoc_push<K, V>(s: Seq<(K, V)>, e: (K, V), k: K)
    ensures
        assoc_has(s.push(e), k) == (assoc_has(s, k) || e.0 == k),
        assoc_has(s, k) ==> assoc_get(s.push(e), k) == assoc_get(s, k),
        !assoc_has(s, k) && e.0 == k ==> assoc_get(s.push(e), k) == e.1,
    decreases s.len(),
{
    let t = s.push(e);
    if assoc_has(s, k) {
        let i = choose|i: int| 0 <= i < s.len() && s[i].0 == k;
        assert(t[i].0 == k);
    }
    if e.0 == k {
        assert(t[s.len() as int].0 == k);
    }
    if assoc_has(t, k) && !assoc_has(s, k) && e.0 != k {
        let i = choose|i: int| 0 <= i < t.len() && t[i].0 == k;
        if i < s.len() {
            assert(s[i].0 == k);
        }
        assert(false);
    }
    if s.len() == 0 {
        if e.0 == k {
            assert(t[0].0 == k);
            assert(assoc_get(t, k) == t[0].1);
        }
    } else {
        assert(t.drop_first() =~= s.drop_first().push(e));
        lemma_assoc_push(s.drop_first(), e, k);
        if s[0].0 == k {
            assert(t[0].0 == k);
        } else {
            if assoc_has(s, k) {
                let i = choose|i: int| 0 <= i < s.len() && s[i].0 == k;
                assert(s.drop_first()[i - 1].0 == k);
                assert(assoc_has(s.drop_first(), k));
            }
            if assoc_has(s.drop_first(), k) {
                let i = choose|i: int| 0 <= i < s.drop_first().len() && s.drop_first()[i].0 == k;
                assert(s[i + 1].0 == k);
                assert(assoc_has(s, k));
            }
        }
    }
}

} // verus!
