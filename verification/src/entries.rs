//! Entry lists with distinct keys: the in-memory form of the documents'
//! mappings, and the `Map` view their contracts speak of.

use vstd::prelude::*;

verus! {

/// The mapping an entry list denotes (later entries win; the documents
/// keep keys distinct, so there is never a later entry to win).
pub open spec fn entry_map<K: View, V: View>(s: Seq<(K, V)>) -> Map<K::V, V::V>
    decreases s.len(),
{
    if s.len() == 0 {
        Map::empty()
    } else {
        entry_map(s.drop_last()).insert(s.last().0@, s.last().1@)
    }
}

/// No two entries share a key.
pub open spec fn distinct_keys<K: View, V: View>(s: Seq<(K, V)>) -> bool {
    forall|i: int, j: int| 0 <= i < j < s.len() ==> s[i].0@ != s[j].0@
}

/// A key is in the denoted mapping exactly when some entry carries it.
pub proof fn lemma_entry_map_domain<K: View, V: View>(s: Seq<(K, V)>, k: K::V)
    ensures
        entry_map(s).dom().contains(k) <==> exists|i: int| 0 <= i < s.len() && s[i].0@ == k,
    decreases s.len(),
{
    if s.len() > 0 {
        lemma_entry_map_domain(s.drop_last(), k);
        if entry_map(s).dom().contains(k) && s.last().0@ != k {
            let i = choose|i: int| 0 <= i < s.len() - 1 && s.drop_last()[i].0@ == k;
            assert(s[i].0@ == k);
        }
        if exists|i: int| 0 <= i < s.len() && s[i].0@ == k {
            let i = choose|i: int| 0 <= i < s.len() && s[i].0@ == k;
            if i < s.len() - 1 {
                assert(s.drop_last()[i].0@ == k);
            }
        }
    }
}

/// With distinct keys, the entry at index `i` gives the mapping's value at
/// its key.
pub proof fn lemma_entry_map_at<K: View, V: View>(s: Seq<(K, V)>, i: int)
    requires
        distinct_keys(s),
        0 <= i < s.len(),
    ensures
        entry_map(s).dom().contains(s[i].0@),
        entry_map(s)[s[i].0@] == s[i].1@,
    decreases s.len(),
{
    if i < s.len() - 1 {
        assert(distinct_keys(s.drop_last()));
        lemma_entry_map_at(s.drop_last(), i);
        assert(s.drop_last()[i] == s[i]);
    }
}

/// Appending a fresh key denotes inserting it.
pub proof fn lemma_entry_map_push<K: View, V: View>(s: Seq<(K, V)>, k: K, v: V)
    requires
        forall|i: int| 0 <= i < s.len() ==> s[i].0@ != k@,
    ensures
        entry_map(s.push((k, v))) == entry_map(s).insert(k@, v@),
        distinct_keys(s) ==> distinct_keys(s.push((k, v))),
{
    assert(s.push((k, v)).drop_last() =~= s);
    assert(s.push((k, v)).last() == (k, v));
    if distinct_keys(s) {
        assert forall|i: int, j: int|
            0 <= i < j < s.push((k, v)).len() implies s.push((k, v))[i].0@ != s.push(
            (k, v),
        )[j].0@ by {
            if j < s.len() {
                assert(s[i].0@ != s[j].0@);
            } else {
                assert(s[i].0@ != k@);
            }
        }
    }
}

/// Overwriting the entry that carries a key denotes inserting at that key.
pub proof fn lemma_entry_map_update<K: View, V: View>(s: Seq<(K, V)>, i: int, k: K, v: V)
    requires
        distinct_keys(s),
        0 <= i < s.len(),
        k@ == s[i].0@,
    ensures
        entry_map(s.update(i, (k, v))) == entry_map(s).insert(k@, v@),
        distinct_keys(s.update(i, (k, v))),
    decreases s.len(),
{
    let t = s.update(i, (k, v));
    assert forall|a: int, b: int| 0 <= a < b < t.len() implies t[a].0@ != t[b].0@ by {
        assert(s[a].0@ != s[b].0@);
    }
    if i == s.len() - 1 {
        assert(t.drop_last() =~= s.drop_last());
        assert(t.last() == (k, v));
        assert(entry_map(t) =~= entry_map(s).insert(k@, v@));
    } else {
        assert(distinct_keys(s.drop_last()));
        assert(s.drop_last()[i] == s[i]);
        lemma_entry_map_update(s.drop_last(), i, k, v);
        assert(t.drop_last() =~= s.drop_last().update(i, (k, v)));
        assert(t.last() == s.last());
        // the two inserted keys differ, so the inserts commute
        assert(s.last().0@ != k@);
        assert(entry_map(t) =~= entry_map(s).insert(k@, v@));
    }
}

} // verus!
