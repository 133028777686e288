//! Ordered documents with string keys, as BSON documents are: inserting a key
//! that is present replaces its value in place, inserting a new key appends it.
use vstd::prelude::*;

use crate::text::str_eq;

verus! {

/// The entries of a document with each key taken by its characters.
pub open spec fn keyed<V>(d: Seq<(String, V)>) -> Seq<(Seq<char>, V)> {
    d.map_values(|e: (String, V)| (e.0@, e.1))
}

/// The values of a document's entries passed through `f`, keys unchanged.
pub open spec fn map_values_of<V, W>(d: Seq<(Seq<char>, V)>, f: spec_fn(V) -> W) -> Seq<(Seq<char>, W)> {
    d.map_values(|e: (Seq<char>, V)| (e.0, f(e.1)))
}

/// Position `i` holds the first occurrence of key `k`.
pub open spec fn first_key_at<V>(d: Seq<(Seq<char>, V)>, k: Seq<char>, i: int) -> bool {
    &&& 0 <= i < d.len()
    &&& d[i].0 == k
    &&& forall|j: int| 0 <= j < i ==> d[j].0 != k
}

pub open spec fn has_key<V>(d: Seq<(Seq<char>, V)>, k: Seq<char>) -> bool {
    exists|i: int| first_key_at(d, k, i)
}

/// The position of the first occurrence of `k`, where there is one.
pub open spec fn key_position<V>(d: Seq<(Seq<char>, V)>, k: Seq<char>) -> int {
    choose|i: int| first_key_at(d, k, i)
}

/// The value of the first occurrence of `k`.
pub open spec fn doc_get<V>(d: Seq<(Seq<char>, V)>, k: Seq<char>) -> Option<V> {
    if has_key(d, k) {
        Some(d[key_position(d, k)].1)
    } else {
        None
    }
}

/// Inserting `(k, v)`: replaces the value of the first occurrence of `k`,
/// or appends the entry when `k` is absent.
pub open spec fn doc_insert<V>(d: Seq<(Seq<char>, V)>, k: Seq<char>, v: V) -> Seq<(Seq<char>, V)> {
    if has_key(d, k) {
        d.update(key_position(d, k), (k, v))
    } else {
        d.push((k, v))
    }
}

/// Inserting the entries of `items` one after the other.
pub open spec fn doc_extend<V>(d: Seq<(Seq<char>, V)>, items: Seq<(Seq<char>, V)>) -> Seq<(Seq<char>, V)>
    decreases items.len(),
{
    if items.len() == 0 {
        d
    } else {
        doc_extend(doc_insert(d, items[0].0, items[0].1), items.drop_first())
    }
}

/// There is only one first occurrence.
pub proof fn lemma_first_key_unique<V>(d: Seq<(Seq<char>, V)>, k: Seq<char>, i: int, j: int)
    requires
        first_key_at(d, k, i),
        first_key_at(d, k, j),
    ensures
        i == j,
{
}

/// Mapping values keeps the positions of keys.
pub proof fn lemma_map_keeps_keys<V, W>(d: Seq<(Seq<char>, V)>, f: spec_fn(V) -> W, k: Seq<char>)
    ensures
        has_key(map_values_of(d, f), k) == has_key(d, k),
        has_key(d, k) ==> key_position(map_values_of(d, f), k) == key_position(d, k),
        has_key(d, k) ==> first_key_at(d, k, key_position(d, k)),
{
    let m = map_values_of(d, f);
    assert forall|i: int| first_key_at(m, k, i) <==> first_key_at(d, k, i) by {
        if 0 <= i < d.len() {
            assert forall|j: int| 0 <= j < i implies (m[j].0 != k <==> d[j].0 != k) by {
                assert(m[j].0 == d[j].0);
            }
        }
    }
    if has_key(d, k) {
        let p = key_position(d, k);
        let q = key_position(m, k);
        lemma_first_key_unique(d, k, p, q);
    }
}

/// Inserting commutes with mapping values.
pub proof fn lemma_insert_map<V, W>(d: Seq<(Seq<char>, V)>, f: spec_fn(V) -> W, k: Seq<char>, v: V)
    ensures
        doc_insert(map_values_of(d, f), k, f(v)) == map_values_of(doc_insert(d, k, v), f),
{
    lemma_map_keeps_keys(d, f, k);
    assert(doc_insert(map_values_of(d, f), k, f(v)) =~= map_values_of(doc_insert(d, k, v), f));
}

/// Getting commutes with mapping values.
pub proof fn lemma_get_map<V, W>(d: Seq<(Seq<char>, V)>, f: spec_fn(V) -> W, k: Seq<char>)
    ensures
        doc_get(map_values_of(d, f), k) == (match doc_get(d, k) {
            Some(v) => Some(f(v)),
            None => None,
        }),
{
    lemma_map_keeps_keys(d, f, k);
}

/// Extending commutes with mapping values.
pub proof fn lemma_extend_map<V, W>(
    d: Seq<(Seq<char>, V)>,
    f: spec_fn(V) -> W,
    items: Seq<(Seq<char>, V)>,
)
    ensures
        doc_extend(map_values_of(d, f), map_values_of(items, f)) == map_values_of(
            doc_extend(d, items),
            f,
        ),
    decreases items.len(),
{
    if items.len() > 0 {
        lemma_insert_map(d, f, items[0].0, items[0].1);
        assert(map_values_of(items, f).drop_first() =~= map_values_of(items.drop_first(), f));
        lemma_extend_map(doc_insert(d, items[0].0, items[0].1), f, items.drop_first());
    }
}

/// After inserting `(k, v)`, getting `k` gives `v`.
pub proof fn law_get_after_insert<V>(d: Seq<(Seq<char>, V)>, k: Seq<char>, v: V)
    ensures
        doc_get(doc_insert(d, k, v), k) == Some(v),
{
    let r = doc_insert(d, k, v);
    if has_key(d, k) {
        let p = key_position(d, k);
        assert(first_key_at(r, k, p));
        let q = key_position(r, k);
        lemma_first_key_unique(r, k, p, q);
    } else {
        let n = d.len() as int;
        assert forall|j: int| 0 <= j < n implies r[j].0 != k by {
            if r[j].0 == k {
                assert(d[j].0 == k);
                lemma_some_first(d, k, j);
            }
        }
        assert(first_key_at(r, k, n));
        let q = key_position(r, k);
        lemma_first_key_unique(r, k, n, q);
    }
}

/// Where a key occurs, it has a first occurrence.
pub proof fn lemma_some_first<V>(d: Seq<(Seq<char>, V)>, k: Seq<char>, j: int)
    requires
        0 <= j < d.len(),
        d[j].0 == k,
    ensures
        has_key(d, k),
    decreases j,
{
    if forall|i: int| 0 <= i < j ==> d[i].0 != k {
        assert(first_key_at(d, k, j));
    } else {
        let i = choose|i: int| 0 <= i < j && d[i].0 == k;
        lemma_some_first(d, k, i);
    }
}

/// Inserting `(k, v)` leaves the value of every other key as it was.
pub proof fn law_insert_keeps_other_keys<V>(d: Seq<(Seq<char>, V)>, k: Seq<char>, v: V, k2: Seq<char>)
    requires
        k2 != k,
    ensures
        doc_get(doc_insert(d, k, v), k2) == doc_get(d, k2),
{
    let r = doc_insert(d, k, v);
    assert forall|i: int| first_key_at(r, k2, i) <==> first_key_at(d, k2, i) by {
        if 0 <= i < r.len() && i < d.len() {
            assert forall|j: int| 0 <= j < i implies (r[j].0 != k2 <==> d[j].0 != k2) by {
                if has_key(d, k) && j == key_position(d, k) {
                    assert(first_key_at(d, k, j));
                }
            }
            if has_key(d, k) && i == key_position(d, k) {
                assert(first_key_at(d, k, i));
            }
        }
        if i == d.len() && !has_key(d, k) {
            assert(r[i].0 == k);
        }
    }
    if has_key(d, k2) {
        let p = key_position(d, k2);
        let q = key_position(r, k2);
        lemma_first_key_unique(d, k2, p, q);
        if has_key(d, k) {
            assert(first_key_at(d, k, key_position(d, k)));
        }
    }
}

/// Inserting a value that a key already has changes nothing.
pub proof fn lemma_insert_present<V>(d: Seq<(Seq<char>, V)>, k: Seq<char>, v: V)
    requires
        doc_get(d, k) == Some(v),
    ensures
        doc_insert(d, k, v) == d,
{
    let p = key_position(d, k);
    assert(first_key_at(d, k, p));
    assert(d.update(p, (k, v)) =~= d);
}

/// Inserting the same entry twice is inserting it once.
pub proof fn law_insert_twice<V>(d: Seq<(Seq<char>, V)>, k: Seq<char>, v: V)
    ensures
        doc_insert(doc_insert(d, k, v), k, v) == doc_insert(d, k, v),
{
    law_get_after_insert(d, k, v);
    lemma_insert_present(doc_insert(d, k, v), k, v);
}

/// Inserting an entry keeps every key that was there.
pub proof fn lemma_insert_keeps_has_key<V>(d: Seq<(Seq<char>, V)>, k: Seq<char>, v: V, k2: Seq<char>)
    ensures
        has_key(d, k2) ==> has_key(doc_insert(d, k, v), k2),
        has_key(doc_insert(d, k, v), k),
{
    law_get_after_insert(d, k, v);
    if k2 != k {
        law_insert_keeps_other_keys(d, k, v, k2);
    }
}

/// The position of the first entry whose key is `k`.
pub fn find_key<V>(d: &Vec<(String, V)>, k: &str) -> (r: Option<usize>)
    ensures
        match r {
            Some(i) => first_key_at(keyed(d@), k@, i as int),
            None => !has_key(keyed(d@), k@),
        },
{
    let mut i: usize = 0;
    while i < d.len()
        invariant
            i <= d@.len(),
            forall|j: int| 0 <= j < i ==> keyed(d@)[j].0 != k@,
        decreases d@.len() - i,
    {
        if str_eq(d[i].0.as_str(), k) {
            return Some(i);
        }
        i = i + 1;
    }
    proof {
        if has_key(keyed(d@), k@) {
            let p = key_position(keyed(d@), k@);
            assert(first_key_at(keyed(d@), k@, p));
        }
    }
    None
}

/// Inserts `(k, v)`: replaces the value of the first entry with key `k`, or
/// appends the entry when `k` is absent.
pub fn insert_entry<V>(d: &mut Vec<(String, V)>, k: String, v: V)
    ensures
        keyed(final(d)@) == doc_insert(keyed(old(d)@), k@, v),
{
    let ghost old_d = keyed(d@);
    match find_key(d, k.as_str()) {
        Some(i) => {
            proof {
                lemma_first_key_unique(old_d, k@, i as int, key_position(old_d, k@));
            }
            d.set(i, (k, v));
            assert(keyed(d@) =~= doc_insert(old_d, k@, v));
        },
        None => {
            d.push((k, v));
            assert(keyed(d@) =~= doc_insert(old_d, k@, v));
        },
    }
}

} // verus!
