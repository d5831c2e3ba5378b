//! Association lists: sequences of key/value pairs read as maps in which the
//! first pair with a key decides its value.

use vstd::prelude::*;

verus! {

/// The map an association list denotes: the first pair with a key wins.
pub open spec fn assoc_view<K, V>(s: Seq<(K, V)>) -> Map<K, V>
    decreases s.len(),
{
    if s.len() == 0 {
        Map::empty()
    } else {
        assoc_view(s.drop_first()).insert(s[0].0, s[0].1)
    }
}

/// `i` is the first position of `s` whose key is `k`.
pub open spec fn is_first_key<K, V>(s: Seq<(K, V)>, k: K, i: int) -> bool {
    &&& 0 <= i < s.len()
    &&& s[i].0 == k
    &&& forall|j: int| 0 <= j < i ==> (#[trigger] s[j]).0 != k
}

/// A key is in the map exactly when some pair carries it.
pub proof fn lemma_assoc_domain<K, V>(s: Seq<(K, V)>, k: K)
    ensures
        assoc_view(s).contains_key(k) <==> exists|j: int| 0 <= j < s.len() && (#[trigger] s[j]).0 == k,
    decreases s.len(),
{
    if s.len() > 0 {
        lemma_assoc_domain(s.drop_first(), k);
        if assoc_view(s.drop_first()).contains_key(k) {
            let j = choose|j: int| 0 <= j < s.drop_first().len() && (#[trigger] s.drop_first()[j]).0 == k;
            assert(s[j + 1].0 == k);
        }
        if exists|j: int| 0 <= j < s.len() && (#[trigger] s[j]).0 == k {
            let j = choose|j: int| 0 <= j < s.len() && (#[trigger] s[j]).0 == k;
            if j > 0 {
                assert(s.drop_first()[j - 1].0 == k);
            }
        }
    }
}

/// The value of a key is the value of its first pair.
pub proof fn lemma_assoc_first<K, V>(s: Seq<(K, V)>, k: K, i: int)
    requires
        is_first_key(s, k, i),
    ensures
        assoc_view(s).contains_key(k),
        assoc_view(s)[k] == s[i].1,
    decreases s.len(),
{
    if i > 0 {
        let t = s.drop_first();
        assert forall|j: int| 0 <= j < i - 1 implies (#[trigger] t[j]).0 != k by {
            assert(s[j + 1].0 != k);
        }
        lemma_assoc_first(t, k, i - 1);
        assert(s[0].0 != k);
    }
}

/// Rewriting the first pair of a key sets that key and leaves the rest.
pub proof fn lemma_assoc_update_first<K, V>(s: Seq<(K, V)>, k: K, i: int, v: V)
    requires
        is_first_key(s, k, i),
    ensures
        assoc_view(s.update(i, (k, v))) == assoc_view(s).insert(k, v),
    decreases s.len(),
{
    let u = s.update(i, (k, v));
    if i == 0 {
        assert(u.drop_first() =~= s.drop_first());
        assert(assoc_view(u) =~= assoc_view(s).insert(k, v));
    } else {
        let t = s.drop_first();
        assert forall|j: int| 0 <= j < i - 1 implies (#[trigger] t[j]).0 != k by {
            assert(s[j + 1].0 != k);
        }
        lemma_assoc_update_first(t, k, i - 1, v);
        assert(u.drop_first() =~= t.update(i - 1, (k, v)));
        assert(s[0].0 != k);
        assert(u[0] == s[0]);
        assert(assoc_view(u) == assoc_view(u.drop_first()).insert(u[0].0, u[0].1));
        assert(assoc_view(u.drop_first()) == assoc_view(t).insert(k, v));
        assert(assoc_view(s) == assoc_view(t).insert(s[0].0, s[0].1));
        assert(assoc_view(u) =~= assoc_view(s).insert(k, v));
    }
}

/// Appending a pair for a key that no pair carries adds that key.
pub proof fn lemma_assoc_push_new<K, V>(s: Seq<(K, V)>, k: K, v: V)
    requires
        forall|j: int| 0 <= j < s.len() ==> (#[trigger] s[j]).0 != k,
    ensures
        assoc_view(s.push((k, v))) == assoc_view(s).insert(k, v),
    decreases s.len(),
{
    let u = s.push((k, v));
    if s.len() == 0 {
        assert(u.drop_first() =~= Seq::<(K, V)>::empty());
        assert(assoc_view(u.drop_first()) == Map::<K, V>::empty());
        assert(assoc_view(s) == Map::<K, V>::empty());
        assert(assoc_view(u) =~= assoc_view(s).insert(k, v));
    } else {
        let t = s.drop_first();
        assert forall|j: int| 0 <= j < t.len() implies (#[trigger] t[j]).0 != k by {
            assert(s[j + 1].0 != k);
        }
        lemma_assoc_push_new(t, k, v);
        assert(u.drop_first() =~= t.push((k, v)));
        assert(u[0] == s[0]);
        assert(assoc_view(u) == assoc_view(u.drop_first()).insert(u[0].0, u[0].1));
        assert(assoc_view(s) == assoc_view(t).insert(s[0].0, s[0].1));
        assert(assoc_view(u) =~= assoc_view(s).insert(k, v));
    }
}

/// Appending a pair for a key that some pair already carries changes
/// nothing: the earlier pair wins.
pub proof fn lemma_assoc_push_existing<K, V>(s: Seq<(K, V)>, k: K, v: V)
    requires
        exists|j: int| 0 <= j < s.len() && (#[trigger] s[j]).0 == k,
    ensures
        assoc_view(s.push((k, v))) == assoc_view(s),
    decreases s.len(),
{
    let u = s.push((k, v));
    let t = s.drop_first();
    assert(u.drop_first() =~= t.push((k, v)));
    assert(u[0] == s[0]);
    assert(assoc_view(u) == assoc_view(u.drop_first()).insert(u[0].0, u[0].1));
    assert(assoc_view(s) == assoc_view(t).insert(s[0].0, s[0].1));
    if s[0].0 == k {
        lemma_assoc_domain(t, k);
        if exists|j: int| 0 <= j < t.len() && (#[trigger] t[j]).0 == k {
            lemma_assoc_push_existing(t, k, v);
        } else {
            lemma_assoc_push_new(t, k, v);
        }
        assert(assoc_view(u) =~= assoc_view(s));
    } else {
        let j = choose|j: int| 0 <= j < s.len() && (#[trigger] s[j]).0 == k;
        assert(t[j - 1].0 == k);
        lemma_assoc_push_existing(t, k, v);
        assert(assoc_view(u) =~= assoc_view(s));
    }
}

/// The keys of `s` are pairwise distinct.
pub open spec fn keys_distinct<K, V>(s: Seq<(K, V)>) -> bool {
    forall|i: int, j: int| 0 <= i < j < s.len() ==> (#[trigger] s[i]).0 != (#[trigger] s[j]).0
}

} // verus!
