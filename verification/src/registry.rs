//! A registry of values by name, such as the local consumers of a stream
//! service: each name stands at most once, and registering a name again
//! replaces what was registered under it.
use vstd::prelude::*;

use crate::documents::{
    doc_get, find_key, first_key_at, has_key, key_position, keyed, lemma_first_key_unique,
};

verus! {

/// Values registered by name.
pub struct NameRegistry<V> {
    entries: Vec<(String, V)>,
}

/// No name stands twice.
pub open spec fn unique_keys<V>(d: Seq<(Seq<char>, V)>) -> bool {
    forall|i: int, j: int| 0 <= i < j < d.len() ==> d[i].0 != d[j].0
}

/// With unique names, a name is present exactly when it stands at some position.
proof fn lemma_unique_position<V>(d: Seq<(Seq<char>, V)>, k: Seq<char>, i: int)
    requires
        unique_keys(d),
        0 <= i < d.len(),
        d[i].0 == k,
    ensures
        has_key(d, k),
        key_position(d, k) == i,
        doc_get(d, k) == Some(d[i].1),
{
    assert(first_key_at(d, k, i));
    lemma_first_key_unique(d, k, i, key_position(d, k));
}

impl<V> NameRegistry<V> {
    #[verifier::type_invariant]
    spec fn wf(&self) -> bool {
        unique_keys(keyed(self.entries@))
    }

    /// The registered values by name.
    pub closed spec fn view(&self) -> Map<Seq<char>, V> {
        Map::new(
            |k: Seq<char>| has_key(keyed(self.entries@), k),
            |k: Seq<char>| doc_get(keyed(self.entries@), k)->0,
        )
    }

    /// An empty registry.
    pub fn new() -> (r: Self)
        ensures
            r@ == Map::<Seq<char>, V>::empty(),
    {
        let r = NameRegistry { entries: Vec::new() };
        assert(r@ =~= Map::<Seq<char>, V>::empty());
        r
    }

    /// The number of registered names.
    pub fn len(&self) -> (n: usize)
        ensures
            n == self@.len(),
    {
        proof {
            use_type_invariant(self);
            self.lemma_view_dom_len();
        }
        self.entries.len()
    }

    proof fn lemma_view_dom_len(&self)
        requires
            self.wf(),
        ensures
            self@.dom().finite(),
            self@.len() == self.entries@.len(),
        decreases self.entries@.len(),
    {
        let d = keyed(self.entries@);
        let keys = Seq::new(d.len(), |i: int| d[i].0);
        assert forall|k: Seq<char>| self@.dom().contains(k) <==> keys.contains(k) by {
            if self@.dom().contains(k) {
                let p = key_position(d, k);
                assert(first_key_at(d, k, p));
                assert(keys[p] == k);
            }
            if keys.contains(k) {
                let i = choose|i: int| 0 <= i < keys.len() && keys[i] == k;
                lemma_unique_position(d, k, i);
            }
        }
        assert(self@.dom() =~= keys.to_set());
        assert(keys.no_duplicates());
        keys.unique_seq_to_set();
    }

    /// The value registered under `name`.
    pub fn get(&self, name: &str) -> (r: Option<&V>)
        ensures
            r == (if self@.dom().contains(name@) {
                Some(&self@[name@])
            } else {
                None
            }),
    {
        match find_key(&self.entries, name) {
            Some(i) => {
                proof {
                    lemma_first_key_unique(keyed(self.entries@), name@, i as int,
                        key_position(keyed(self.entries@), name@));
                }
                Some(&self.entries[i].1)
            },
            None => None,
        }
    }

    /// True when a value is registered under `name`.
    pub fn contains(&self, name: &str) -> (b: bool)
        ensures
            b == self@.dom().contains(name@),
    {
        find_key(&self.entries, name).is_some()
    }

    /// Registers `value` under `name`, and gives back what was registered
    /// under it before.
    pub fn insert(&mut self, name: String, value: V) -> (previous: Option<V>)
        ensures
            final(self)@ == old(self)@.insert(name@, value),
            previous == (if old(self)@.dom().contains(name@) {
                Some(old(self)@[name@])
            } else {
                None
            }),
    {
        proof {
            use_type_invariant(&*self);
        }
        let ghost old_d = keyed(self.entries@);
        let ghost old_view = self@;
        let ghost k = name@;
        let mut entries = Vec::new();
        std::mem::swap(&mut entries, &mut self.entries);
        let ghost mut pos: int = old_d.len() as int;
        let r = match find_key(&entries, name.as_str()) {
            Some(i) => {
                proof {
                    pos = i as int;
                }
                proof {
                    lemma_first_key_unique(old_d, k, i as int, key_position(old_d, k));
                }
                let (n0, v0) = entries.remove(i);
                entries.insert(i, (name, value));
                assert(keyed(entries@) =~= old_d.update(i as int, (k, value)));
                Some(v0)
            },
            None => {
                entries.push((name, value));
                assert(keyed(entries@) =~= old_d.push((k, value)));
                proof {
                    assert forall|j: int| 0 <= j < old_d.len() implies old_d[j].0 != k by {
                        if old_d[j].0 == k {
                            lemma_unique_position(old_d, k, j);
                        }
                    }
                }
                None
            },
        };
        let ghost nd = keyed(entries@);
        self.entries = entries;
        proof {
            assert forall|k2: Seq<char>| #[trigger] self@.dom().contains(k2)
                == old_view.insert(k, value).dom().contains(k2) && (self@.dom().contains(k2)
                ==> self@[k2] == old_view.insert(k, value)[k2]) by {
                if k2 == k {
                    assert(nd[pos].0 == k);
                    lemma_unique_position(nd, k, pos);
                } else {
                    if has_key(old_d, k2) {
                        let p = key_position(old_d, k2);
                        assert(first_key_at(old_d, k2, p));
                        lemma_unique_position(old_d, k2, p);
                        assert(nd[p].0 == k2);
                        lemma_unique_position(nd, k2, p);
                    }
                    if has_key(nd, k2) {
                        let p = key_position(nd, k2);
                        assert(first_key_at(nd, k2, p));
                        assert(old_d[p].0 == k2);
                        lemma_unique_position(old_d, k2, p);
                    }
                }
            }
            assert(self@ =~= old_view.insert(k, value));
        }
        r
    }

    /// Removes what is registered under `name`, and gives it back.
    pub fn remove(&mut self, name: &str) -> (removed: Option<V>)
        ensures
            final(self)@ == old(self)@.remove(name@),
            removed == (if old(self)@.dom().contains(name@) {
                Some(old(self)@[name@])
            } else {
                None
            }),
    {
        proof {
            use_type_invariant(&*self);
        }
        let ghost old_d = keyed(self.entries@);
        let ghost old_view = self@;
        let ghost k = name@;
        let mut entries = Vec::new();
        std::mem::swap(&mut entries, &mut self.entries);
        let r = match find_key(&entries, name) {
            Some(i) => {
                proof {
                    lemma_first_key_unique(old_d, k, i as int, key_position(old_d, k));
                }
                let (_n0, v0) = entries.remove(i);
                assert(keyed(entries@) =~= old_d.remove(i as int));
                Some(v0)
            },
            None => {
                proof {
                    assert forall|j: int| 0 <= j < old_d.len() implies old_d[j].0 != k by {
                        if old_d[j].0 == k {
                            lemma_unique_position(old_d, k, j);
                        }
                    }
                }
                None
            },
        };
        let ghost nd = keyed(entries@);
        self.entries = entries;
        proof {
            assert forall|j: int| 0 <= j < nd.len() implies nd[j].0 != k by {
                if r is Some {
                    let i = key_position(old_d, k);
                    assert(first_key_at(old_d, k, i));
                    if j < i {
                        assert(nd[j] == old_d[j]);
                    } else {
                        assert(nd[j] == old_d[j + 1]);
                    }
                }
            }
            assert forall|k2: Seq<char>| #[trigger] self@.dom().contains(k2)
                == old_view.remove(k).dom().contains(k2) && (self@.dom().contains(k2)
                ==> self@[k2] == old_view.remove(k)[k2]) by {
                if k2 != k {
                    if has_key(old_d, k2) {
                        let p = key_position(old_d, k2);
                        assert(first_key_at(old_d, k2, p));
                        lemma_unique_position(old_d, k2, p);
                        let q = if r is Some && p > key_position(old_d, k) {
                            p - 1
                        } else {
                            p
                        };
                        if r is Some {
                            assert(first_key_at(old_d, k, key_position(old_d, k)));
                        }
                        assert(nd[q].0 == k2);
                        lemma_unique_position(nd, k2, q);
                    }
                    if has_key(nd, k2) {
                        let p = key_position(nd, k2);
                        assert(first_key_at(nd, k2, p));
                        let q = if r is Some && p >= key_position(old_d, k) {
                            p + 1
                        } else {
                            p
                        };
                        if r is Some {
                            assert(first_key_at(old_d, k, key_position(old_d, k)));
                        }
                        assert(old_d[q].0 == k2);
                        lemma_unique_position(old_d, k2, q);
                    }
                } else {
                    if has_key(nd, k) {
                        let p = key_position(nd, k);
                        assert(first_key_at(nd, k, p));
                    }
                }
            }
            assert(self@ =~= old_view.remove(k));
        }
        r
    }
}

/// Looking up a name that was just registered gives the value registered.
pub proof fn law_lookup_after_register<V>(m: Map<Seq<char>, V>, k: Seq<char>, v: V)
    ensures
        m.insert(k, v).dom().contains(k),
        m.insert(k, v)[k] == v,
{
}

/// Registering a name and then removing it leaves the other names as they were.
pub proof fn law_deregister_after_register<V>(m: Map<Seq<char>, V>, k: Seq<char>, v: V)
    ensures
        m.insert(k, v).remove(k) == m.remove(k),
{
    assert(m.insert(k, v).remove(k) =~= m.remove(k));
}

} // verus!
