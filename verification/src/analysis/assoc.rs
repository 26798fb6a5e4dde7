//! Association lists: a sequence of distinct keys beside a sequence of
//! values, read as a finite map.

use vstd::prelude::*;

verus! {

/// The map that pairs each key with the value at its position.
pub open spec fn assoc<K, V>(keys: Seq<K>, vals: Seq<V>) -> Map<K, V> {
    Map::new(|k: K| keys.contains(k), |k: K| vals[keys.index_of(k)])
}

/// The position of a key among distinct keys is the one it stands at.
pub proof fn lemma_index_of_distinct<K>(keys: Seq<K>, i: int)
    requires
        keys.no_duplicates(),
        0 <= i < keys.len(),
    ensures
        keys.index_of(keys[i]) == i,
{
    assert(keys.contains(keys[i]));
    let j = keys.index_of(keys[i]);
    assert(0 <= j < keys.len() && keys[j] == keys[i]);
}

/// The value paired with the key at position `i` is the one at `i`.
pub proof fn lemma_assoc_at<K, V>(keys: Seq<K>, vals: Seq<V>, i: int)
    requires
        keys.no_duplicates(),
        0 <= i < keys.len(),
    ensures
        assoc(keys, vals).contains_key(keys[i]),
        assoc(keys, vals)[keys[i]] == vals[i],
{
    lemma_index_of_distinct(keys, i);
    assert(keys.contains(keys[i]));
}

/// Replacing the value at position `i` stores it at the key there.
pub proof fn lemma_assoc_update<K, V>(keys: Seq<K>, vals: Seq<V>, i: int, v: V)
    requires
        keys.no_duplicates(),
        keys.len() == vals.len(),
        0 <= i < keys.len(),
    ensures
        assoc(keys, vals.update(i, v)) == assoc(keys, vals).insert(keys[i], v),
{
    let a = assoc(keys, vals.update(i, v));
    let b = assoc(keys, vals).insert(keys[i], v);
    assert forall|k: K| #[trigger] a.contains_key(k) implies b.contains_key(k) && a[k] == b[k] by {
        let j = keys.index_of(k);
        lemma_index_of_distinct(keys, j);
        if j == i {
        } else {
            assert(keys[j] != keys[i]);
        }
    }
    assert forall|k: K| #[trigger] b.contains_key(k) implies a.contains_key(k) by {
        if k == keys[i] {
            assert(keys.contains(keys[i]));
        }
    }
    assert(a =~= b);
}

/// Appending a new key with a value stores the value at that key.
pub proof fn lemma_assoc_push<K, V>(keys: Seq<K>, vals: Seq<V>, k: K, v: V)
    requires
        keys.no_duplicates(),
        keys.len() == vals.len(),
        !keys.contains(k),
    ensures
        keys.push(k).no_duplicates(),
        assoc(keys.push(k), vals.push(v)) == assoc(keys, vals).insert(k, v),
{
    let nk = keys.push(k);
    assert forall|x: int, y: int| 0 <= x < nk.len() && 0 <= y < nk.len() && x != y implies nk[x] != nk[y] by {
        if x < keys.len() && y < keys.len() {
        } else if x == keys.len() {
            assert(keys.contains(nk[y]) || y == keys.len());
        } else {
            assert(keys.contains(nk[x]) || x == keys.len());
        }
    }
    let a = assoc(nk, vals.push(v));
    let b = assoc(keys, vals).insert(k, v);
    assert forall|q: K| #[trigger] a.contains_key(q) implies b.contains_key(q) && a[q] == b[q] by {
        let j = nk.index_of(q);
        lemma_index_of_distinct(nk, j);
        if j == keys.len() {
        } else {
            assert(keys[j] == q);
            assert(keys.contains(q));
            lemma_index_of_distinct(keys, j);
        }
    }
    assert forall|q: K| #[trigger] b.contains_key(q) implies a.contains_key(q) by {
        if q == k {
            assert(nk[keys.len() as int] == k);
        } else {
            let j = keys.index_of(q);
            assert(nk[j] == q);
        }
    }
    assert(a =~= b);
}

/// Distinct keys make a map with as many keys as positions.
pub proof fn lemma_assoc_len<K, V>(keys: Seq<K>, vals: Seq<V>)
    requires
        keys.no_duplicates(),
    ensures
        assoc(keys, vals).dom() == keys.to_set(),
        assoc(keys, vals).dom().finite(),
        assoc(keys, vals).dom().len() == keys.len(),
{
    assert(assoc(keys, vals).dom() =~= keys.to_set());
    keys.unique_seq_to_set();
}

/// No keys make the empty map.
pub proof fn lemma_assoc_empty<K, V>()
    ensures
        assoc(Seq::<K>::empty(), Seq::<V>::empty()) == Map::<K, V>::empty(),
{
    assert(assoc(Seq::<K>::empty(), Seq::<V>::empty()) =~= Map::<K, V>::empty());
}

} // verus!
