//! A keyed table of records, held as a list of entries with distinct keys and
//! viewed as a finite map from key to record.

use vstd::prelude::*;

verus! {

/// Whether no key occurs twice in a list of key/value pairs.
pub open spec fn keys_unique<K, W>(s: Seq<(K, W)>) -> bool {
    forall|i: int, j: int| 0 <= i < j < s.len() ==> #[trigger] s[i].0 != #[trigger] s[j].0
}

/// The map that a list of key/value pairs denotes (a later pair wins over an earlier one).
pub open spec fn assoc<K, W>(s: Seq<(K, W)>) -> Map<K, W>
    decreases s.len(),
{
    if s.len() == 0 {
        Map::empty()
    } else {
        assoc(s.drop_last()).insert(s.last().0, s.last().1)
    }
}

/// The keys of the pairs are exactly the keys of the map.
pub proof fn lemma_assoc_dom<K, W>(s: Seq<(K, W)>, k: K)
    ensures
        assoc(s).contains_key(k) <==> exists|i: int| 0 <= i < s.len() && #[trigger] s[i].0 == k,
    decreases s.len(),
{
    if s.len() > 0 {
        lemma_assoc_dom(s.drop_last(), k);
        if assoc(s).contains_key(k) && k != s.last().0 {
            let i = choose|i: int| 0 <= i < s.drop_last().len() && #[trigger] s.drop_last()[i].0 == k;
            assert(s[i].0 == k);
        }
        if exists|i: int| 0 <= i < s.len() && #[trigger] s[i].0 == k {
            let i = choose|i: int| 0 <= i < s.len() && #[trigger] s[i].0 == k;
            if i < s.len() - 1 {
                assert(s.drop_last()[i].0 == k);
            }
        }
    }
}

/// With distinct keys, each pair is what the map holds at its key.
pub proof fn lemma_assoc_at<K, W>(s: Seq<(K, W)>, i: int)
    requires
        keys_unique(s),
        0 <= i < s.len(),
    ensures
        assoc(s).contains_key(s[i].0),
        assoc(s)[s[i].0] == s[i].1,
    decreases s.len(),
{
    if i < s.len() - 1 {
        let t = s.drop_last();
        assert(t[i] == s[i]);
        assert(keys_unique(t)) by {
            assert forall|a: int, b: int| 0 <= a < b < t.len() implies #[trigger] t[a].0 != #[trigger] t[b].0 by {
                assert(t[a] == s[a] && t[b] == s[b]);
            }
        }
        lemma_assoc_at(t, i);
        assert(s[i].0 != s[s.len() - 1].0);
    }
}

proof fn lemma_unique_drop_last<K, W>(s: Seq<(K, W)>)
    requires
        keys_unique(s),
        s.len() > 0,
    ensures
        keys_unique(s.drop_last()),
{
    let t = s.drop_last();
    assert forall|a: int, b: int| 0 <= a < b < t.len() implies #[trigger] t[a].0 != #[trigger] t[b].0 by {
        assert(t[a] == s[a] && t[b] == s[b]);
    }
}

/// Removing a pair removes its key from the map.
pub proof fn lemma_assoc_remove<K, W>(s: Seq<(K, W)>, i: int)
    requires
        keys_unique(s),
        0 <= i < s.len(),
    ensures
        keys_unique(s.remove(i)),
        assoc(s.remove(i)) == assoc(s).remove(s[i].0),
    decreases s.len(),
{
    let r = s.remove(i);
    assert forall|a: int, b: int| 0 <= a < b < r.len() implies #[trigger] r[a].0 != #[trigger] r[b].0 by {
        let a2 = if a < i { a } else { a + 1 };
        let b2 = if b < i { b } else { b + 1 };
        assert(r[a] == s[a2] && r[b] == s[b2]);
    }
    if i == s.len() - 1 {
        assert(r =~= s.drop_last());
        lemma_assoc_dom(r, s[i].0);
        assert(!assoc(r).contains_key(s[i].0));
        assert(assoc(r) =~= assoc(s).remove(s[i].0));
    } else {
        let t = s.drop_last();
        lemma_unique_drop_last(s);
        assert(t[i] == s[i]);
        lemma_assoc_remove(t, i);
        assert(r.drop_last() =~= t.remove(i));
        assert(r.last() == s.last());
        assert(s.last().0 != s[i].0);
        assert(assoc(r) =~= assoc(s).remove(s[i].0));
    }
}

/// Appending a pair with a new key inserts it into the map and keeps the keys distinct.
pub proof fn lemma_assoc_push<K, W>(s: Seq<(K, W)>, k: K, v: W)
    requires
        keys_unique(s),
        !assoc(s).contains_key(k),
    ensures
        keys_unique(s.push((k, v))),
        assoc(s.push((k, v))) == assoc(s).insert(k, v),
{
    let p = s.push((k, v));
    lemma_assoc_dom(s, k);
    assert forall|a: int, b: int| 0 <= a < b < p.len() implies #[trigger] p[a].0 != #[trigger] p[b].0 by {
        if b == s.len() {
            assert(p[a] == s[a]);
            assert(s[a].0 != k);
        } else {
            assert(p[a] == s[a] && p[b] == s[b]);
        }
    }
    assert(p.drop_last() =~= s);
}

/// One record of a table: its key and its value.
#[derive(Debug)]
pub struct Entry<V> {
    pub key: String,
    pub value: V,
}

/// The key/value pairs of a list of entries, by their views.
pub open spec fn pairs_of<V: View>(s: Seq<Entry<V>>) -> Seq<(Seq<char>, V::V)> {
    s.map_values(|e: Entry<V>| (e.key@, e.value@))
}

/// A keyed table; no key occurs twice.
#[derive(Debug)]
pub struct Table<V> {
    entries: Vec<Entry<V>>,
}

impl<V: View> View for Table<V> {
    type V = Map<Seq<char>, V::V>;

    closed spec fn view(&self) -> Map<Seq<char>, V::V> {
        assoc(pairs_of(self.entries@))
    }
}

impl<V: View> Table<V> {
    /// The table's internal invariant: its keys are distinct.
    pub closed spec fn wf(&self) -> bool {
        keys_unique(pairs_of(self.entries@))
    }

    /// An empty table.
    pub fn new() -> (r: Self)
        ensures
            r.wf(),
            r@ == Map::<Seq<char>, V::V>::empty(),
    {
        let r = Table { entries: Vec::new() };
        assert(pairs_of(r.entries@) =~= Seq::<(Seq<char>, V::V)>::empty());
        r
    }

    /// The number of records.
    pub fn len(&self) -> (n: usize)
        requires
            self.wf(),
        ensures
            n == self@.dom().len(),
    {
        proof {
            self.lemma_dom_len();
        }
        self.entries.len()
    }

    proof fn lemma_dom_len(&self)
        requires
            self.wf(),
        ensures
            self@.dom().len() == self.entries@.len(),
            self@.dom().finite(),
        decreases self.entries@.len(),
    {
        lemma_pairs_dom_len(pairs_of(self.entries@));
    }

    /// The entries, in their stored order.
    pub fn entries(&self) -> (r: &Vec<Entry<V>>)
        requires
            self.wf(),
        ensures
            keys_unique(pairs_of(r@)),
            assoc(pairs_of(r@)) == self@,
    {
        &self.entries
    }

    /// The position of the entry with key `key`, if there is one.
    fn position(&self, key: &String) -> (r: Option<usize>)
        requires
            self.wf(),
        ensures
            r matches Some(i) ==> i < self.entries@.len() && self.entries@[i as int].key@ == key@,
            r is Some <==> self@.contains_key(key@),
    {
        let mut i: usize = 0;
        while i < self.entries.len()
            invariant
                i <= self.entries@.len(),
                forall|j: int| 0 <= j < i ==> #[trigger] self.entries@[j].key@ != key@,
            decreases self.entries@.len() - i,
        {
            if self.entries[i].key.eq(key) {
                proof {
                    let p = pairs_of(self.entries@);
                    assert(p[i as int].0 == key@);
                    lemma_assoc_dom(p, key@);
                }
                return Some(i);
            }
            i = i + 1;
        }
        proof {
            let p = pairs_of(self.entries@);
            lemma_assoc_dom(p, key@);
            assert forall|j: int| 0 <= j < p.len() implies #[trigger] p[j].0 != key@ by {
                assert(p[j].0 == self.entries@[j].key@);
            }
        }
        None
    }

    /// Whether some record has key `key`.
    pub fn contains_key(&self, key: &String) -> (r: bool)
        requires
            self.wf(),
        ensures
            r == self@.contains_key(key@),
    {
        self.position(key).is_some()
    }

    /// The record with key `key`, if there is one.
    pub fn get(&self, key: &String) -> (r: Option<&V>)
        requires
            self.wf(),
        ensures
            r matches Some(v) ==> self@.contains_key(key@) && self@[key@] == v@,
            r is None ==> !self@.contains_key(key@),
    {
        match self.position(key) {
            Some(i) => {
                proof {
                    lemma_assoc_at(pairs_of(self.entries@), i as int);
                }
                Some(&self.entries[i].value)
            },
            None => None,
        }
    }

    /// Removes the record with key `key` and hands it back, if there is one.
    pub fn remove(&mut self, key: &String) -> (r: Option<V>)
        requires
            old(self).wf(),
        ensures
            final(self).wf(),
            final(self)@ == old(self)@.remove(key@),
            r matches Some(v) ==> old(self)@.contains_key(key@) && old(self)@[key@] == v@,
            r is None ==> !old(self)@.contains_key(key@),
    {
        match self.position(key) {
            Some(i) => {
                let ghost p = pairs_of(self.entries@);
                proof {
                    lemma_assoc_at(p, i as int);
                    lemma_assoc_remove(p, i as int);
                }
                let e = self.entries.remove(i);
                assert(pairs_of(self.entries@) =~= p.remove(i as int));
                Some(e.value)
            },
            None => {
                assert(self@ =~= old(self)@.remove(key@));
                None
            },
        }
    }

    /// Sets the record at key `key` to `value`, replacing any record that was there.
    pub fn insert(&mut self, key: String, value: V)
        requires
            old(self).wf(),
        ensures
            final(self).wf(),
            final(self)@ == old(self)@.insert(key@, value@),
    {
        let _ = self.remove(&key);
        let ghost p = pairs_of(self.entries@);
        let ghost k = key@;
        let ghost v = value@;
        proof {
            lemma_assoc_push(p, k, v);
        }
        self.entries.push(Entry { key, value });
        assert(pairs_of(self.entries@) =~= p.push((k, v)));
        assert(self@ =~= old(self)@.insert(k, v));
    }

    /// Removes every record whose key is in `keys`.
    pub fn remove_all(&mut self, keys: &Vec<String>)
        requires
            old(self).wf(),
        ensures
            final(self).wf(),
            final(self)@ == old(self)@.remove_keys(crate::models::strings_view(keys@).to_set()),
    {
        let ghost ks = crate::models::strings_view(keys@);
        let mut i: usize = 0;
        while i < keys.len()
            invariant
                i <= keys@.len(),
                ks == crate::models::strings_view(keys@),
                self.wf(),
                self@ == old(self)@.remove_keys(ks.take(i as int).to_set()),
            decreases keys@.len() - i,
        {
            let _ = self.remove(&keys[i]);
            assert(ks.take(i + 1).to_set() =~= ks.take(i as int).to_set().insert(ks[i as int])) by {
                let a_ = ks.take(i + 1);
                let b_ = ks.take(i as int);
                assert forall|x: Seq<char>| a_.contains(x) <==> (b_.contains(x) || x == ks[i as int]) by {
                    if a_.contains(x) {
                        let j = choose|j: int| 0 <= j < a_.len() && a_[j] == x;
                        if j < i {
                            assert(b_[j] == x);
                        }
                    }
                    if b_.contains(x) {
                        let j = choose|j: int| 0 <= j < b_.len() && b_[j] == x;
                        assert(a_[j] == x);
                    }
                    if x == ks[i as int] {
                        assert(a_[i as int] == x);
                    }
                }
            }
            assert(self@ =~= old(self)@.remove_keys(ks.take(i + 1).to_set()));
            i = i + 1;
        }
        assert(ks.take(keys@.len() as int) =~= ks);
    }
}

pub proof fn lemma_pairs_dom_len<K, W>(s: Seq<(K, W)>)
    requires
        keys_unique(s),
    ensures
        assoc(s).dom().finite(),
        assoc(s).dom().len() == s.len(),
    decreases s.len(),
{
    if s.len() > 0 {
        lemma_unique_drop_last(s);
        lemma_pairs_dom_len(s.drop_last());
        lemma_assoc_dom(s.drop_last(), s.last().0);
        assert forall|i: int| 0 <= i < s.drop_last().len() implies #[trigger] s.drop_last()[i].0 != s.last().0 by {
            assert(s.drop_last()[i] == s[i]);
        }
    }
}

} // verus!
