//! An identifier-keyed table with deterministic iteration order.
//!
//! [`StrMap`] keeps its entries sorted by key in the order of
//! [`crate::strkey::key_lt`], so iteration over the entries is always in
//! sorted key order and each key occurs at most once. Its view is the
//! mathematical map from key characters to value views.

use vstd::prelude::*;

verus! {

use crate::strkey::{key_lt, lemma_key_lt_trans, lemma_key_lt_trichotomy, str_compare};

/// The map described by an association sequence; on a duplicate key the
/// later entry wins.
pub open spec fn assoc_map<T>(s: Seq<(Seq<char>, T)>) -> Map<Seq<char>, T>
    decreases s.len(),
{
    if s.len() == 0 {
        Map::empty()
    } else {
        assoc_map(s.drop_last()).insert(s.last().0, s.last().1)
    }
}

pub proof fn lemma_assoc_contains<T>(s: Seq<(Seq<char>, T)>, k: Seq<char>)
    ensures
        assoc_map(s).contains_key(k) <==> exists|i: int| 0 <= i < s.len() && s[i].0 == k,
    decreases s.len(),
{
    if s.len() > 0 {
        lemma_assoc_contains(s.drop_last(), k);
        if assoc_map(s).contains_key(k) {
            if s.last().0 != k {
                let i = choose|i: int| 0 <= i < s.drop_last().len() && s.drop_last()[i].0 == k;
                assert(s[i].0 == k);
            } else {
                assert(s[s.len() - 1].0 == k);
            }
        }
        if exists|i: int| 0 <= i < s.len() && s[i].0 == k {
            let i = choose|i: int| 0 <= i < s.len() && s[i].0 == k;
            if i < s.len() - 1 {
                assert(s.drop_last()[i].0 == k);
            }
        }
    }
}

/// In a sequence whose keys are distinct, each entry is the one its key
/// maps to.
pub proof fn lemma_assoc_at<T>(s: Seq<(Seq<char>, T)>, i: int)
    requires
        0 <= i < s.len(),
        forall|p: int, q: int| 0 <= p < q < s.len() ==> s[p].0 != s[q].0,
    ensures
        assoc_map(s).contains_key(s[i].0),
        assoc_map(s)[s[i].0] == s[i].1,
    decreases s.len(),
{
    if i == s.len() - 1 {
    } else {
        lemma_assoc_at(s.drop_last(), i);
        assert(s.drop_last()[i] == s[i]);
        assert(s[i].0 != s.last().0);
    }
}

/// Inserting an entry whose key does not occur from position `i` on
/// inserts its key into the described map.
proof fn lemma_assoc_insert_mid<T>(s: Seq<(Seq<char>, T)>, k: Seq<char>, v: T, i: int)
    requires
        0 <= i <= s.len(),
        forall|j: int| i <= j < s.len() ==> s[j].0 != k,
    ensures
        assoc_map(s.insert(i, (k, v))) == assoc_map(s).insert(k, v),
    decreases s.len(),
{
    let t = s.insert(i, (k, v));
    if i == s.len() {
        assert(t.drop_last() =~= s);
    } else {
        assert(t.last() == s.last());
        assert(t.drop_last() =~= s.drop_last().insert(i, (k, v)));
        lemma_assoc_insert_mid(s.drop_last(), k, v, i);
        assert(s.last().0 != k);
        assert(assoc_map(s.drop_last()).insert(k, v).insert(s.last().0, s.last().1)
            =~= assoc_map(s.drop_last()).insert(s.last().0, s.last().1).insert(k, v));
    }
}

/// Replacing the entry at `i`, when its key occurs nowhere later,
/// updates that key in the described map.
proof fn lemma_assoc_update<T>(s: Seq<(Seq<char>, T)>, k: Seq<char>, v: T, i: int)
    requires
        0 <= i < s.len(),
        s[i].0 == k,
        forall|j: int| i < j < s.len() ==> s[j].0 != k,
    ensures
        assoc_map(s.update(i, (k, v))) == assoc_map(s).insert(k, v),
    decreases s.len(),
{
    let t = s.update(i, (k, v));
    if i == s.len() - 1 {
        assert(t.drop_last() =~= s.drop_last());
        assert(assoc_map(s.drop_last()).insert(s.last().0, s.last().1).insert(k, v)
            =~= assoc_map(s.drop_last()).insert(k, v));
    } else {
        assert(t.last() == s.last());
        assert(t.drop_last() =~= s.drop_last().update(i, (k, v)));
        lemma_assoc_update(s.drop_last(), k, v, i);
        assert(s.last().0 != k);
        assert(assoc_map(s.drop_last()).insert(k, v).insert(s.last().0, s.last().1)
            =~= assoc_map(s.drop_last()).insert(s.last().0, s.last().1).insert(k, v));
    }
}

/// A table from string keys to values, kept in sorted key order.
pub struct StrMap<V> {
    entries: Vec<(String, V)>,
}

impl<V: View> StrMap<V> {
    /// The ordered entries, each as key characters and value view.
    pub closed spec fn model(&self) -> Seq<(Seq<char>, V::V)> {
        self.entries@.map(|i: int, e: (String, V)| (e.0@, e.1@))
    }

    /// Entries are strictly sorted by key, so keys are distinct.
    pub open spec fn wf(&self) -> bool {
        forall|p: int, q: int|
            0 <= p < q < self.model().len() ==> key_lt(
                #[trigger] self.model()[p].0,
                #[trigger] self.model()[q].0,
            )
    }

    pub proof fn lemma_keys_distinct(&self)
        requires
            self.wf(),
        ensures
            forall|p: int, q: int|
                0 <= p < q < self.model().len() ==> (#[trigger] self.model()[p].0)
                    != (#[trigger] self.model()[q].0),
    {
        assert forall|p: int, q: int|
            0 <= p < q < self.model().len() implies (#[trigger] self.model()[p].0)
            != (#[trigger] self.model()[q].0) by {
            lemma_key_lt_trichotomy(self.model()[p].0, self.model()[q].0);
        }
    }

    /// Every entry is the one the map view holds for its key.
    pub proof fn lemma_model_view(&self, i: int)
        requires
            self.wf(),
            0 <= i < self.model().len(),
        ensures
            self@.contains_key(self.model()[i].0),
            self@[self.model()[i].0] == self.model()[i].1,
    {
        self.lemma_keys_distinct();
        lemma_assoc_at(self.model(), i);
    }

    /// A key in the map view stands at some entry.
    pub proof fn lemma_view_model(&self, k: Seq<char>)
        requires
            self@.contains_key(k),
        ensures
            exists|i: int| 0 <= i < self.model().len() && self.model()[i].0 == k,
    {
        lemma_assoc_contains(self.model(), k);
    }

    pub fn new() -> (r: Self)
        ensures
            r.wf(),
            r@ == Map::<Seq<char>, V::V>::empty(),
            r.model() == Seq::<(Seq<char>, V::V)>::empty(),
    {
        let r = StrMap { entries: Vec::new() };
        proof {
            assert(r.model() =~= Seq::<(Seq<char>, V::V)>::empty());
        }
        r
    }

    pub fn len(&self) -> (n: usize)
        ensures
            n == self.model().len(),
    {
        self.entries.len()
    }

    /// The entry at a position of the sorted order.
    pub fn entry_at(&self, i: usize) -> (r: &(String, V))
        requires
            i < self.model().len(),
        ensures
            r.0@ == self.model()[i as int].0,
            r.1@ == self.model()[i as int].1,
    {
        &self.entries[i]
    }

    /// Where `key` stands, or where it would be inserted.
    fn find_pos(&self, key: &str) -> (r: (usize, bool))
        requires
            self.wf(),
        ensures
            r.0 <= self.model().len(),
            forall|j: int| 0 <= j < r.0 ==> key_lt(#[trigger] self.model()[j].0, key@),
            r.1 ==> r.0 < self.model().len() && self.model()[r.0 as int].0 == key@,
            !r.1 ==> r.0 == self.model().len() || key_lt(key@, self.model()[r.0 as int].0),
    {
        let n = self.entries.len();
        let mut i: usize = 0;
        while i < n
            invariant
                self.wf(),
                n == self.model().len(),
                0 <= i <= n,
                forall|j: int| 0 <= j < i ==> key_lt(#[trigger] self.model()[j].0, key@),
            decreases n - i,
        {
            let e = &self.entries[i];
            let c = str_compare(e.0.as_str(), key);
            match c {
                core::cmp::Ordering::Equal => {
                    return (i, true);
                },
                core::cmp::Ordering::Greater => {
                    return (i, false);
                },
                core::cmp::Ordering::Less => {
                    i += 1;
                },
            }
        }
        (n, false)
    }

    /// Look a key up.
    pub fn get(&self, key: &str) -> (r: Option<&V>)
        requires
            self.wf(),
        ensures
            match r {
                Some(v) => self@.contains_key(key@) && v@ == self@[key@],
                None => !self@.contains_key(key@),
            },
    {
        let (i, found) = self.find_pos(key);
        if found {
            proof {
                self.lemma_model_view(i as int);
            }
            Some(&self.entries[i].1)
        } else {
            proof {
                lemma_assoc_contains(self.model(), key@);
                if self@.contains_key(key@) {
                    let j = choose|j: int|
                        0 <= j < self.model().len() && self.model()[j].0 == key@;
                    if j < i {
                        lemma_key_lt_trichotomy(self.model()[j].0, key@);
                    } else if j > i {
                        assert(key_lt(key@, self.model()[i as int].0));
                        assert(key_lt(self.model()[i as int].0, self.model()[j].0));
                        lemma_key_lt_trans(key@, self.model()[i as int].0, self.model()[j].0);
                        lemma_key_lt_trichotomy(key@, self.model()[j].0);
                    } else {
                        lemma_key_lt_trichotomy(key@, self.model()[j].0);
                    }
                }
            }
            None
        }
    }

    pub fn contains_key(&self, key: &str) -> (r: bool)
        requires
            self.wf(),
        ensures
            r == self@.contains_key(key@),
    {
        self.get(key).is_some()
    }

    /// Register `value` under `key`; an entry already under `key` is
    /// replaced.
    pub fn insert(&mut self, key: String, value: V)
        requires
            old(self).wf(),
        ensures
            final(self).wf(),
            final(self)@ == old(self)@.insert(key@, value@),
    {
        let ghost s = self.model();
        let ghost kv = (key@, value@);
        let (i, found) = self.find_pos(key.as_str());
        if found {
            proof {
                self.lemma_keys_distinct();
                assert forall|j: int| (i as int) < j < s.len() implies s[j].0 != key@ by {
                    assert(s[i as int].0 == key@);
                }
            }
            self.entries.remove(i);
            self.entries.insert(i, (key, value));
            proof {
                assert(self.model() =~= s.update(i as int, kv));
                lemma_assoc_update(s, kv.0, kv.1, i as int);
                assert forall|p: int, q: int|
                    0 <= p < q < self.model().len() implies key_lt(
                    #[trigger] self.model()[p].0,
                    #[trigger] self.model()[q].0,
                ) by {
                    assert(self.model()[p].0 == s[p].0);
                    assert(self.model()[q].0 == s[q].0);
                }
            }
        } else {
            proof {
                assert forall|j: int| (i as int) <= j < s.len() implies s[j].0 != key@ by {
                    if j == i {
                        lemma_key_lt_trichotomy(key@, s[j].0);
                    } else {
                        assert(key_lt(key@, s[i as int].0));
                        assert(key_lt(s[i as int].0, s[j].0));
                        lemma_key_lt_trans(key@, s[i as int].0, s[j].0);
                        lemma_key_lt_trichotomy(key@, s[j].0);
                    }
                }
            }
            self.entries.insert(i, (key, value));
            proof {
                assert(self.model() =~= s.insert(i as int, kv));
                lemma_assoc_insert_mid(s, kv.0, kv.1, i as int);
                let m = self.model();
                assert forall|p: int, q: int| 0 <= p < q < m.len() implies key_lt(
                    #[trigger] m[p].0,
                    #[trigger] m[q].0,
                ) by {
                    let n = s.len();
                    if q < i {
                        assert(m[p].0 == s[p].0 && m[q].0 == s[q].0);
                    } else if p < i && q == i {
                        assert(m[p].0 == s[p].0);
                    } else if p < i && q > i {
                        assert(m[p].0 == s[p].0 && m[q].0 == s[q - 1].0);
                        if q - 1 == i {
                            assert(key_lt(s[p].0, key@));
                            assert(key_lt(key@, s[i as int].0));
                            lemma_key_lt_trans(s[p].0, key@, s[i as int].0);
                        }
                    } else if p == i {
                        assert(m[q].0 == s[q - 1].0);
                        if q - 1 == i {
                            assert(key_lt(key@, s[i as int].0));
                        } else {
                            assert(key_lt(key@, s[i as int].0));
                            assert(key_lt(s[i as int].0, s[q - 1].0));
                            lemma_key_lt_trans(key@, s[i as int].0, s[q - 1].0);
                        }
                    } else {
                        assert(m[p].0 == s[p - 1].0 && m[q].0 == s[q - 1].0);
                    }
                }
            }
        }
    }

    /// Merge another table in; on a key collision the incoming entry
    /// wins.
    pub fn extend(&mut self, other: Self)
        requires
            old(self).wf(),
        ensures
            final(self).wf(),
            final(self)@ == old(self)@.union_prefer_right(other@),
    {
        let ghost base = self@;
        let ghost orig = other.model();
        let mut rest = other;
        let ghost total = orig.len() as int;
        proof {
            assert(orig.take(0) =~= Seq::<(Seq<char>, V::V)>::empty());
            assert(base.union_prefer_right(assoc_map(orig.take(0))) =~= base);
        }
        let mut remaining = rest.entries.len();
        while remaining > 0
            invariant
                self.wf(),
                total == orig.len(),
                remaining == rest.model().len(),
                rest.model().len() <= total,
                rest.model() =~= orig.skip(total - rest.model().len()),
                self@ == base.union_prefer_right(
                    assoc_map(orig.take(total - rest.model().len())),
                ),
            decreases remaining,
        {
            let ghost done = total - rest.model().len();
            let (k, v) = rest.entries.remove(0);
            proof {
                assert(orig.skip(done)[0] == orig[done]);
                assert(rest.model() =~= orig.skip(done).drop_first());
                assert(rest.model() =~= orig.skip(done + 1));
                assert((k@, v@) == orig[done]);
            }
            self.insert(k, v);
            proof {
                assert(orig.take(done + 1).drop_last() =~= orig.take(done));
                assert(orig.take(done + 1).last() == orig[done]);
                assert(base.union_prefer_right(assoc_map(orig.take(done))).insert(
                    orig[done].0,
                    orig[done].1,
                ) =~= base.union_prefer_right(
                    assoc_map(orig.take(done)).insert(orig[done].0, orig[done].1),
                ));
            }
            remaining -= 1;
        }
        proof {
            assert(orig.take(total) =~= orig);
        }
    }
}

impl<V: View> View for StrMap<V> {
    type V = Map<Seq<char>, V::V>;

    closed spec fn view(&self) -> Map<Seq<char>, V::V> {
        assoc_map(self.model())
    }
}

} // verus!
