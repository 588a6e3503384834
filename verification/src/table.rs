//! A keyed row store: the logical content of one database table.
//!
//! Rows are kept in insertion order; each row pairs a byte-string key with a
//! value.  The table's mathematical model is the finite map from key to value
//! view, and every operation's contract is stated against that map.

use crate::bytes::bytes_eq;
use vstd::prelude::*;

verus! {

/// The map denoted by a sequence of rows: later rows shadow earlier ones
/// (irrelevant under `unique_keys`).
pub open spec fn map_of<V: View>(s: Seq<(Vec<u8>, V)>) -> Map<Seq<u8>, V::V>
    decreases s.len(),
{
    if s.len() == 0 {
        Map::empty()
    } else {
        map_of(s.drop_last()).insert(s.last().0@, s.last().1@)
    }
}

/// The key/value views of a row sequence, in order.
pub open spec fn entries_of<V: View>(s: Seq<(Vec<u8>, V)>) -> Seq<(Seq<u8>, V::V)> {
    s.map(|i: int, r: (Vec<u8>, V)| (r.0@, r.1@))
}

/// No two rows share a key.
pub open spec fn unique_keys<V: View>(s: Seq<(Vec<u8>, V)>) -> bool {
    forall|i: int, j: int| 0 <= i < j < s.len() ==> s[i].0@ != s[j].0@
}

/// A key is in the map exactly when some row holds it.
pub proof fn lemma_map_of_contains<V: View>(s: Seq<(Vec<u8>, V)>, k: Seq<u8>)
    ensures
        map_of(s).contains_key(k) <==> exists|i: int| 0 <= i < s.len() && s[i].0@ == k,
    decreases s.len(),
{
    if s.len() > 0 {
        lemma_map_of_contains(s.drop_last(), k);
        if map_of(s).contains_key(k) {
            if s.last().0@ == k {
                assert(s[s.len() - 1].0@ == k);
            } else {
                let i = choose|i: int| 0 <= i < s.drop_last().len() && s.drop_last()[i].0@ == k;
                assert(s[i].0@ == k);
            }
        }
        if exists|i: int| 0 <= i < s.len() && s[i].0@ == k {
            let i = choose|i: int| 0 <= i < s.len() && s[i].0@ == k;
            if i < s.len() - 1 {
                assert(s.drop_last()[i].0@ == k);
            }
        }
    }
}

/// Under unique keys, the map sends each row's key to that row's value.
pub proof fn lemma_map_of_index<V: View>(s: Seq<(Vec<u8>, V)>, i: int)
    requires
        unique_keys(s),
        0 <= i < s.len(),
    ensures
        map_of(s).contains_key(s[i].0@),
        map_of(s)[s[i].0@] == s[i].1@,
    decreases s.len(),
{
    if i == s.len() - 1 {
    } else {
        assert(unique_keys(s.drop_last()));
        lemma_map_of_index(s.drop_last(), i);
        assert(s.drop_last()[i] == s[i]);
        assert(s[i].0@ != s.last().0@);
    }
}

/// Under unique keys, the map holds exactly as many entries as there are rows.
pub proof fn lemma_map_of_len<V: View>(s: Seq<(Vec<u8>, V)>)
    requires
        unique_keys(s),
    ensures
        map_of(s).dom().finite(),
        map_of(s).len() == s.len(),
    decreases s.len(),
{
    if s.len() > 0 {
        assert(unique_keys(s.drop_last()));
        lemma_map_of_len(s.drop_last());
        lemma_map_of_contains(s.drop_last(), s.last().0@);
        assert(forall|i: int| 0 <= i < s.len() - 1 ==> s[i].0@ != s.last().0@);
        assert(!map_of(s.drop_last()).contains_key(s.last().0@));
    }
}

/// Replacing row `i` by a row with the same key updates the map in place.
pub proof fn lemma_map_of_update<V: View>(s: Seq<(Vec<u8>, V)>, i: int, p: (Vec<u8>, V))
    requires
        unique_keys(s),
        0 <= i < s.len(),
        p.0@ == s[i].0@,
    ensures
        unique_keys(s.update(i, p)),
        map_of(s.update(i, p)) =~= map_of(s).insert(p.0@, p.1@),
    decreases s.len(),
{
    let t = s.update(i, p);
    if i == s.len() - 1 {
        assert(t.drop_last() =~= s.drop_last());
        assert(t.last() == p);
    } else {
        assert(unique_keys(s.drop_last()));
        assert(s.drop_last()[i] == s[i]);
        lemma_map_of_update(s.drop_last(), i, p);
        assert(t.drop_last() =~= s.drop_last().update(i, p));
        assert(t.last() == s.last());
        assert(p.0@ != s.last().0@);
    }
}

/// Appending a row with a fresh key inserts it into the map.
pub proof fn lemma_map_of_push<V: View>(s: Seq<(Vec<u8>, V)>, p: (Vec<u8>, V))
    requires
        unique_keys(s),
        forall|i: int| 0 <= i < s.len() ==> s[i].0@ != p.0@,
    ensures
        unique_keys(s.push(p)),
        map_of(s.push(p)) == map_of(s).insert(p.0@, p.1@),
{
    assert(s.push(p).drop_last() =~= s);
    assert(s.push(p).last() == p);
}

/// Removing row `i` removes exactly its key from the map.
pub proof fn lemma_map_of_remove<V: View>(s: Seq<(Vec<u8>, V)>, i: int)
    requires
        unique_keys(s),
        0 <= i < s.len(),
    ensures
        unique_keys(s.remove(i)),
        map_of(s.remove(i)) =~= map_of(s).remove(s[i].0@),
    decreases s.len(),
{
    let t = s.remove(i);
    assert(forall|j: int| 0 <= j < i ==> t[j] == s[j]);
    assert(forall|j: int| i <= j < t.len() ==> t[j] == s[j + 1]);
    if i == s.len() - 1 {
        assert(t =~= s.drop_last());
        assert(unique_keys(s.drop_last()));
        lemma_map_of_contains(s.drop_last(), s[i].0@);
        assert(!map_of(s.drop_last()).contains_key(s[i].0@));
        assert(map_of(s.drop_last()).remove(s[i].0@) =~= map_of(s.drop_last()));
        assert(map_of(s).remove(s[i].0@) =~= map_of(s.drop_last()));
    } else {
        assert(unique_keys(s.drop_last()));
        lemma_map_of_remove(s.drop_last(), i);
        assert(t.drop_last() =~= s.drop_last().remove(i));
        assert(t.last() == s.last());
        assert(s[i].0@ != s.last().0@);
    }
}

/// One logical table: rows in insertion order, keys unique.
pub struct Table<V> {
    rows: Vec<(Vec<u8>, V)>,
}

impl<V: View> Table<V> {
    /// The finite map this table denotes.
    pub closed spec fn view(self) -> Map<Seq<u8>, V::V> {
        map_of(self.rows@)
    }

    /// The rows in insertion order, as key/value views.
    pub closed spec fn entries(self) -> Seq<(Seq<u8>, V::V)> {
        entries_of(self.rows@)
    }

    /// Well-formed: no two rows share a key.
    pub closed spec fn wf(self) -> bool {
        unique_keys(self.rows@)
    }

    /// Every entry of the listing is the map's entry for its key.
    pub proof fn lemma_entries_agree(self)
        requires
            self.wf(),
        ensures
            self.entries().len() == self.view().len(),
            self.view().dom().finite(),
            forall|i: int| #![trigger self.entries()[i]]
                0 <= i < self.entries().len() ==> {
                    &&& self.view().contains_key(self.entries()[i].0)
                    &&& self.view()[self.entries()[i].0] == self.entries()[i].1
                },
            forall|k: Seq<u8>| #[trigger] self.view().contains_key(k)
                ==> exists|i: int| 0 <= i < self.entries().len() && self.entries()[i].0 == k,
            forall|i: int, j: int| #![trigger self.entries()[i], self.entries()[j]]
                0 <= i < j < self.entries().len() ==> self.entries()[i].0 != self.entries()[j].0,
    {
        lemma_map_of_len(self.rows@);
        assert forall|i: int, j: int| 0 <= i < j < self.entries().len()
            implies #[trigger] self.entries()[i].0 != #[trigger] self.entries()[j].0 by {
            assert(self.rows@[i].0@ != self.rows@[j].0@);
        }
        assert forall|i: int| 0 <= i < self.entries().len() implies {
            &&& self.view().contains_key(#[trigger] self.entries()[i].0)
            &&& self.view()[self.entries()[i].0] == self.entries()[i].1
        } by {
            lemma_map_of_index(self.rows@, i);
        }
        assert forall|k: Seq<u8>| #[trigger] self.view().contains_key(k)
            implies exists|i: int| 0 <= i < self.entries().len() && self.entries()[i].0 == k by {
            lemma_map_of_contains(self.rows@, k);
            let i = choose|i: int| 0 <= i < self.rows@.len() && self.rows@[i].0@ == k;
            assert(self.entries()[i].0 == k);
        }
    }

    /// An empty table.
    pub fn new() -> (r: Self)
        ensures
            r.wf(),
            r@ == Map::<Seq<u8>, V::V>::empty(),
            r.entries() == Seq::<(Seq<u8>, V::V)>::empty(),
    {
        let r = Table { rows: Vec::new() };
        proof {
            assert(r.entries() =~= Seq::<(Seq<u8>, V::V)>::empty());
        }
        r
    }

    /// The number of rows.
    pub fn len(&self) -> (n: usize)
        requires
            self.wf(),
        ensures
            n == self@.len(),
            n == self.entries().len(),
    {
        proof {
            lemma_map_of_len(self.rows@);
        }
        self.rows.len()
    }

    /// The index of the row holding `key`, if any.
    fn find(&self, key: &Vec<u8>) -> (r: Option<usize>)
        ensures
            match r {
                Some(i) => i < self.rows@.len() && self.rows@[i as int].0@ == key@,
                None => forall|i: int| 0 <= i < self.rows@.len() ==> self.rows@[i].0@ != key@,
            },
    {
        let mut i: usize = 0;
        while i < self.rows.len()
            invariant
                i <= self.rows@.len(),
                forall|j: int| 0 <= j < i ==> self.rows@[j].0@ != key@,
            decreases self.rows@.len() - i,
        {
            if bytes_eq(&self.rows[i].0, key) {
                return Some(i);
            }
            i = i + 1;
        }
        None
    }

    /// Whether a row with this key exists.
    pub fn contains(&self, key: &Vec<u8>) -> (r: bool)
        ensures
            r == self@.contains_key(key@),
    {
        proof {
            lemma_map_of_contains(self.rows@, key@);
        }
        self.find(key).is_some()
    }

    /// The value stored under `key`, if any.
    pub fn get(&self, key: &Vec<u8>) -> (r: Option<&V>)
        requires
            self.wf(),
        ensures
            match r {
                Some(v) => self@.contains_key(key@) && v@ == self@[key@],
                None => !self@.contains_key(key@),
            },
    {
        proof {
            lemma_map_of_contains(self.rows@, key@);
        }
        match self.find(key) {
            Some(i) => {
                proof {
                    lemma_map_of_index(self.rows@, i as int);
                }
                Some(&self.rows[i].1)
            }
            None => None,
        }
    }

    /// The row at position `i`, in insertion order.
    pub fn row(&self, i: usize) -> (r: (&Vec<u8>, &V))
        requires
            self.wf(),
            i < self.entries().len(),
        ensures
            (r.0@, r.1@) == self.entries()[i as int],
    {
        proof {
            lemma_map_of_len(self.rows@);
        }
        let r = &self.rows[i];
        (&r.0, &r.1)
    }

    /// Insert or replace the value under `key`; a replaced row keeps its place.
    pub fn upsert(&mut self, key: Vec<u8>, value: V)
        requires
            old(self).wf(),
        ensures
            final(self).wf(),
            final(self)@ == old(self)@.insert(key@, value@),
            old(self)@.contains_key(key@) ==> {
                &&& final(self).entries().len() == old(self).entries().len()
                &&& exists|i: int| 0 <= i < old(self).entries().len()
                    && old(self).entries()[i].0 == key@
                    && final(self).entries() == old(self).entries().update(i, (key@, value@))
            },
            !old(self)@.contains_key(key@) ==> final(self).entries() == old(self).entries().push(
                (key@, value@),
            ),
    {
        proof {
            lemma_map_of_contains(self.rows@, key@);
        }
        let ghost old_rows = self.rows@;
        match self.find(&key) {
            Some(i) => {
                let ghost kv = key@;
                let ghost vv = value@;
                self.rows[i] = (key, value);
                proof {
                    lemma_map_of_update(old_rows, i as int, self.rows@[i as int]);
                    assert(final(self)@ =~= map_of(old_rows).insert(kv, vv));
                    assert(self.entries() =~= entries_of(old_rows).update(i as int, (kv, vv)));
                    assert(old(self).entries() == entries_of(old_rows));
                    assert((i as int) < old(self).entries().len()
                        && old(self).entries()[i as int].0 == kv
                        && self.entries() == old(self).entries().update(i as int, (kv, vv)));
                    assert(exists|j: int| 0 <= j < old(self).entries().len()
                        && old(self).entries()[j].0 == kv
                        && self.entries() == old(self).entries().update(j, (kv, vv)));
                }
            }
            None => {
                let ghost kv = key@;
                let ghost vv = value@;
                self.rows.push((key, value));
                proof {
                    lemma_map_of_push(old_rows, self.rows@.last());
                    assert(self.entries() =~= entries_of(old_rows).push((kv, vv)));
                }
            }
        }
    }

    /// Insert a fresh row; refused when the key is already present.
    pub fn insert_new(&mut self, key: Vec<u8>, value: V) -> (r: bool)
        requires
            old(self).wf(),
        ensures
            final(self).wf(),
            r == !old(self)@.contains_key(key@),
            r ==> final(self)@ == old(self)@.insert(key@, value@)
                && final(self).entries() == old(self).entries().push((key@, value@)),
            !r ==> *final(self) == *old(self),
    {
        proof {
            lemma_map_of_contains(self.rows@, key@);
        }
        let ghost old_rows = self.rows@;
        match self.find(&key) {
            Some(_) => false,
            None => {
                let ghost kv = key@;
                let ghost vv = value@;
                self.rows.push((key, value));
                proof {
                    lemma_map_of_push(old_rows, self.rows@.last());
                    assert(self.entries() =~= entries_of(old_rows).push((kv, vv)));
                }
                true
            }
        }
    }

    /// Remove the row holding `key`, if any; later rows keep their order.
    pub fn remove(&mut self, key: &Vec<u8>) -> (r: bool)
        requires
            old(self).wf(),
        ensures
            final(self).wf(),
            r == old(self)@.contains_key(key@),
            final(self)@ == old(self)@.remove(key@),
            r ==> exists|i: int| 0 <= i < old(self).entries().len()
                && old(self).entries()[i].0 == key@
                && final(self).entries() == old(self).entries().remove(i),
            !r ==> *final(self) == *old(self),
    {
        proof {
            lemma_map_of_contains(self.rows@, key@);
        }
        let ghost old_rows = self.rows@;
        match self.find(key) {
            Some(i) => {
                self.rows.remove(i);
                proof {
                    lemma_map_of_remove(old_rows, i as int);
                    assert(final(self)@ =~= map_of(old_rows).remove(key@));
                    assert(self.entries() =~= entries_of(old_rows).remove(i as int));
                    assert(old(self).entries() == entries_of(old_rows));
                    assert((i as int) < old(self).entries().len()
                        && old(self).entries()[i as int].0 == key@
                        && self.entries() == old(self).entries().remove(i as int));
                    assert(exists|j: int| 0 <= j < old(self).entries().len()
                        && old(self).entries()[j].0 == key@
                        && self.entries() == old(self).entries().remove(j));
                }
                true
            }
            None => {
                proof {
                    assert(old(self)@.remove(key@) =~= old(self)@);
                }
                false
            }
        }
    }
}

} // verus!
