//! Association lists viewed as mathematical maps.
//!
//! The table layers keep their key-addressed collections as vectors of pairs
//! whose keys are pairwise distinct; these functions give such a list its map
//! view and the facts the layers need about it.

use vstd::prelude::*;

verus! {

/// The map held by an association list: later entries shadow earlier ones,
/// though the layers keep keys distinct so no shadowing ever happens.
pub open spec fn kv_map<K: View, V: View>(s: Seq<(K, V)>) -> Map<K::V, V::V>
    decreases s.len(),
{
    if s.len() == 0 {
        Map::empty()
    } else {
        kv_map(s.drop_last()).insert(s.last().0@, s.last().1@)
    }
}

/// Whether the keys of an association list are pairwise distinct.
pub open spec fn kv_distinct<K: View, V>(s: Seq<(K, V)>) -> bool {
    forall|i: int, j: int| 0 <= i < j < s.len() ==> s[i].0@ != s[j].0@
}

/// A key is in the map exactly when some entry carries it.
pub proof fn lemma_kv_map_domain<K: View, V: View>(s: Seq<(K, V)>, k: K::V)
    ensures
        kv_map(s).contains_key(k) <==> exists|i: int| 0 <= i < s.len() && s[i].0@ == k,
    decreases s.len(),
{
    if s.len() > 0 {
        lemma_kv_map_domain(s.drop_last(), k);
        if s.last().0@ == k {
            assert(s[s.len() - 1].0@ == k);
        } else if kv_map(s).contains_key(k) {
            let i = choose|i: int| 0 <= i < s.drop_last().len() && s.drop_last()[i].0@ == k;
            assert(s[i].0@ == k);
        } else if exists|i: int| 0 <= i < s.len() && s[i].0@ == k {
            let i = choose|i: int| 0 <= i < s.len() && s[i].0@ == k;
            assert(s.drop_last()[i].0@ == k);
        }
    }
}

/// With distinct keys, the map sends each entry's key to that entry's value.
pub proof fn lemma_kv_map_index<K: View, V: View>(s: Seq<(K, V)>, i: int)
    requires
        kv_distinct(s),
        0 <= i < s.len(),
    ensures
        kv_map(s).contains_key(s[i].0@),
        kv_map(s)[s[i].0@] == s[i].1@,
    decreases s.len(),
{
    if i < s.len() - 1 {
        assert(kv_distinct(s.drop_last())) by {
            assert(forall|x: int, y: int|
                0 <= x < y < s.drop_last().len() ==> s.drop_last()[x].0@ != s.drop_last()[y].0@);
        }
        lemma_kv_map_index(s.drop_last(), i);
        assert(s.drop_last()[i] == s[i]);
        assert(s[i].0@ != s.last().0@);
    }
}

/// Appending an entry inserts its pair into the map.
pub proof fn lemma_kv_map_push<K: View, V: View>(s: Seq<(K, V)>, k: K, v: V)
    ensures
        kv_map(s.push((k, v))) == kv_map(s).insert(k@, v@),
{
    assert(s.push((k, v)).drop_last() =~= s);
}

/// Replacing the entry at `i` with one that keeps its key updates the map at
/// that key.
pub proof fn lemma_kv_map_update<K: View, V: View>(s: Seq<(K, V)>, i: int, p: (K, V))
    requires
        kv_distinct(s),
        0 <= i < s.len(),
        p.0@ == s[i].0@,
    ensures
        kv_map(s.update(i, p)) == kv_map(s).insert(s[i].0@, p.1@),
        kv_distinct(s.update(i, p)),
    decreases s.len(),
{
    let t = s.update(i, p);
    assert(kv_distinct(t));
    if i == s.len() - 1 {
        assert(t.drop_last() =~= s.drop_last());
        assert(t.last() == p);
        assert(kv_map(t) =~= kv_map(s).insert(s[i].0@, p.1@));
    } else {
        assert(kv_distinct(s.drop_last()));
        assert(s.drop_last()[i] == s[i]);
        lemma_kv_map_update(s.drop_last(), i, p);
        assert(t.drop_last() =~= s.drop_last().update(i, p));
        assert(t.last() == s.last());
        assert(s[i].0@ != s.last().0@);
        assert(kv_map(t) =~= kv_map(s).insert(s[i].0@, p.1@));
    }
}

/// Distinctness survives appending a key not yet present.
pub proof fn lemma_kv_distinct_push<K: View, V: View>(s: Seq<(K, V)>, k: K, v: V)
    requires
        kv_distinct(s),
        !kv_map(s).contains_key(k@),
    ensures
        kv_distinct(s.push((k, v))),
{
    lemma_kv_map_domain(s, k@);
    let t = s.push((k, v));
    assert forall|x: int, y: int| 0 <= x < y < t.len() implies t[x].0@ != t[y].0@ by {
        if y == t.len() - 1 {
            assert(t[x] == s[x]);
        } else {
            assert(t[x] == s[x] && t[y] == s[y]);
        }
    }
}

} // verus!
