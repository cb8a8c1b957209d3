//! A finite map kept as a list of entries with distinct keys.
use vstd::prelude::*;
use crate::keyed::{Dup, Keyed};

verus! {

broadcast use vstd::seq_lib::group_seq_properties;

/// The map that a list of entries denotes; a later entry wins over an earlier one.
pub open spec fn map_of<A, B>(s: Seq<(A, B)>) -> Map<A, B>
    decreases s.len(),
{
    if s.len() == 0 {
        Map::empty()
    } else {
        map_of(s.drop_last()).insert(s.last().0, s.last().1)
    }
}

/// The keys of a list of entries, in order.
pub open spec fn keys_of<A, B>(s: Seq<(A, B)>) -> Seq<A> {
    s.map_values(|e: (A, B)| e.0)
}

/// The views of a list of entries.
pub open spec fn entry_views<K: View, V: View>(s: Seq<(K, V)>) -> Seq<(K::V, V::V)> {
    s.map_values(|e: (K, V)| (e.0@, e.1@))
}

pub proof fn lemma_map_of_dom<A, B>(s: Seq<(A, B)>)
    ensures
        forall|k: A| #[trigger] map_of(s).contains_key(k) <==> keys_of(s).contains(k),
        map_of(s).dom().finite(),
    decreases s.len(),
{
    if s.len() > 0 {
        lemma_map_of_dom(s.drop_last());
        assert(keys_of(s.drop_last()) =~= keys_of(s).drop_last());
        assert forall|k: A| #[trigger] map_of(s).contains_key(k) <==> keys_of(s).contains(k) by {
            if keys_of(s).contains(k) {
                let i = choose|i: int| 0 <= i < keys_of(s).len() && keys_of(s)[i] == k;
                if i < s.len() - 1 {
                    assert(keys_of(s.drop_last())[i] == k);
                }
            }
            if map_of(s).contains_key(k) && k != s.last().0 {
                let i = choose|i: int|
                    0 <= i < keys_of(s.drop_last()).len() && keys_of(s.drop_last())[i] == k;
                assert(keys_of(s)[i] == k);
            }
            if k == s.last().0 {
                assert(keys_of(s)[s.len() - 1] == k);
            }
        }
    }
}

pub proof fn lemma_map_of_index<A, B>(s: Seq<(A, B)>, i: int)
    requires
        keys_of(s).no_duplicates(),
        0 <= i < s.len(),
    ensures
        map_of(s).contains_key(s[i].0),
        map_of(s)[s[i].0] == s[i].1,
    decreases s.len(),
{
    lemma_map_of_dom(s);
    assert(keys_of(s)[i] == s[i].0);
    if i < s.len() - 1 {
        assert(keys_of(s.drop_last()) =~= keys_of(s).drop_last());
        lemma_map_of_index(s.drop_last(), i);
        assert(keys_of(s)[s.len() - 1] == s.last().0);
    }
}

pub proof fn lemma_map_of_update<A, B>(s: Seq<(A, B)>, i: int, v: B)
    requires
        keys_of(s).no_duplicates(),
        0 <= i < s.len(),
    ensures
        map_of(s.update(i, (s[i].0, v))) == map_of(s).insert(s[i].0, v),
        keys_of(s.update(i, (s[i].0, v))) == keys_of(s),
    decreases s.len(),
{
    let t = s.update(i, (s[i].0, v));
    assert(keys_of(t) =~= keys_of(s));
    if i == s.len() - 1 {
        assert(t.drop_last() =~= s.drop_last());
        assert(map_of(t) =~= map_of(s).insert(s[i].0, v));
    } else {
        assert(keys_of(s.drop_last()) =~= keys_of(s).drop_last());
        lemma_map_of_update(s.drop_last(), i, v);
        assert(t.drop_last() =~= s.drop_last().update(i, (s[i].0, v)));
        assert(keys_of(s)[i] != keys_of(s)[s.len() - 1]);
        assert(map_of(t) =~= map_of(s).insert(s[i].0, v));
    }
}

pub proof fn lemma_map_of_remove<A, B>(s: Seq<(A, B)>, i: int)
    requires
        keys_of(s).no_duplicates(),
        0 <= i < s.len(),
    ensures
        map_of(s.remove(i)) == map_of(s).remove(s[i].0),
        keys_of(s.remove(i)) == keys_of(s).remove(i),
    decreases s.len(),
{
    let t = s.remove(i);
    assert(keys_of(t) =~= keys_of(s).remove(i));
    lemma_map_of_dom(s);
    lemma_map_of_dom(s.drop_last());
    assert(keys_of(s.drop_last()) =~= keys_of(s).drop_last());
    if i == s.len() - 1 {
        assert(t =~= s.drop_last());
        assert(!keys_of(s.drop_last()).contains(s[i].0)) by {
            if keys_of(s.drop_last()).contains(s[i].0) {
                let j = choose|j: int|
                    0 <= j < keys_of(s.drop_last()).len() && keys_of(s.drop_last())[j] == s[i].0;
                assert(keys_of(s)[j] == keys_of(s)[i]);
            }
        }
        assert(map_of(t) =~= map_of(s).remove(s[i].0));
    } else {
        lemma_map_of_remove(s.drop_last(), i);
        assert(t.drop_last() =~= s.drop_last().remove(i));
        assert(t.last() == s.last());
        assert(keys_of(s)[i] != keys_of(s)[s.len() - 1]);
        assert(map_of(t) =~= map_of(s).remove(s[i].0));
    }
}

/// A map from keys to values, each key present once, compared by view.
#[derive(Debug)]
pub struct KeyMap<K: View, V: View> {
    entries: Vec<(K, V)>,
}

impl<K: View, V: View> View for KeyMap<K, V> {
    type V = Map<K::V, V::V>;

    closed spec fn view(&self) -> Map<K::V, V::V> {
        map_of(entry_views(self.entries@))
    }
}

impl<K: View, V: View> KeyMap<K, V> {
    /// The entries' views in the order they are kept.
    pub closed spec fn pairs(&self) -> Seq<(K::V, V::V)> {
        entry_views(self.entries@)
    }

    #[verifier::type_invariant]
    closed spec fn wf(&self) -> bool {
        keys_of(entry_views(self.entries@)).no_duplicates()
    }

    /// The map is the one that its entries denote.
    pub proof fn lemma_pairs(&self)
        ensures
            self@ == map_of(self.pairs()),
    {
    }

    /// The key at position `i` is not among the keys before it.
    pub proof fn lemma_keys_distinct_prefix(&self, i: int)
        requires
            0 <= i < self.pairs().len(),
            keys_of(self.pairs()).no_duplicates(),
        ensures
            !map_of(self.pairs().take(i)).contains_key(self.pairs()[i].0),
    {
        let t = self.pairs().take(i);
        lemma_map_of_dom(t);
        if keys_of(t).contains(self.pairs()[i].0) {
            let j = choose|j: int| 0 <= j < keys_of(t).len() && keys_of(t)[j] == self.pairs()[i].0;
            assert(keys_of(self.pairs())[j] == keys_of(self.pairs())[i]);
        }
    }
}

impl<K: Keyed, V: View> KeyMap<K, V> {
    pub fn new() -> (m: Self)
        ensures
            m@ == Map::<K::V, V::V>::empty(),
            m.pairs() == Seq::<(K::V, V::V)>::empty(),
    {
        let m = KeyMap { entries: Vec::new() };
        assert(m.pairs() =~= Seq::<(K::V, V::V)>::empty());
        m
    }

    pub fn len(&self) -> (r: usize)
        ensures
            r == self.pairs().len(),
            keys_of(self.pairs()).no_duplicates(),
    {
        proof {
            use_type_invariant(self);
        }
        self.entries.len()
    }

    pub fn key_at(&self, i: usize) -> (r: &K)
        requires
            i < self.pairs().len(),
        ensures
            r@ == self.pairs()[i as int].0,
    {
        &self.entries[i].0
    }

    pub fn value_at(&self, i: usize) -> (r: &V)
        requires
            i < self.pairs().len(),
        ensures
            r@ == self.pairs()[i as int].1,
            self@.contains_key(self.pairs()[i as int].0),
            self@[self.pairs()[i as int].0] == r@,
    {
        proof {
            use_type_invariant(self);
            lemma_map_of_index(self.pairs(), i as int);
        }
        &self.entries[i].1
    }

    fn position(&self, k: &K) -> (r: Option<usize>)
        ensures
            match r {
                Some(i) => i < self.pairs().len() && self.pairs()[i as int].0 == k@,
                None => !self@.contains_key(k@),
            },
    {
        proof {
            lemma_map_of_dom(self.pairs());
        }
        let mut i: usize = 0;
        while i < self.entries.len()
            invariant
                i <= self.entries.len(),
                forall|j: int| 0 <= j < i ==> self.entries@[j].0@ != k@,
            decreases self.entries.len() - i,
        {
            if self.entries[i].0.same(k) {
                return Some(i);
            }
            i = i + 1;
        }
        proof {
            if keys_of(self.pairs()).contains(k@) {
                let j = choose|j: int|
                    0 <= j < keys_of(self.pairs()).len() && keys_of(self.pairs())[j] == k@;
                assert(self.entries@[j].0@ == k@);
            }
        }
        None
    }

    pub fn contains_key(&self, k: &K) -> (r: bool)
        ensures
            r == self@.contains_key(k@),
    {
        proof {
            use_type_invariant(self);
        }
        match self.position(k) {
            Some(i) => {
                proof {
                    lemma_map_of_index(self.pairs(), i as int);
                }
                true
            },
            None => false,
        }
    }

    pub fn get(&self, k: &K) -> (r: Option<&V>)
        ensures
            match r {
                Some(v) => self@.contains_key(k@) && self@[k@] == v@,
                None => !self@.contains_key(k@),
            },
    {
        proof {
            use_type_invariant(self);
        }
        match self.position(k) {
            Some(i) => {
                proof {
                    lemma_map_of_index(self.pairs(), i as int);
                }
                Some(&self.entries[i].1)
            },
            None => None,
        }
    }

    /// Inserts an entry, replacing the value of an equal key; gives back the value replaced.
    pub fn insert(&mut self, k: K, v: V) -> (r: Option<V>)
        ensures
            final(self)@ == old(self)@.insert(k@, v@),
            match r {
                Some(o) => old(self)@.contains_key(k@) && old(self)@[k@] == o@,
                None => !old(self)@.contains_key(k@),
            },
    {
        proof {
            use_type_invariant(&*self);
        }
        let mut entries = Vec::new();
        std::mem::swap(&mut entries, &mut self.entries);
        let ghost s = entry_views(entries@);
        let pos = self.position_in(&entries, &k);
        match pos {
            Some(i) => {
                proof {
                    lemma_map_of_index(s, i as int);
                    lemma_map_of_update(s, i as int, v@);
                }
                let (_, old_v) = entries.remove(i);
                entries.insert(i, (k, v));
                assert(entry_views(entries@) =~= s.update(i as int, (s[i as int].0, v@)));
                self.entries = entries;
                Some(old_v)
            },
            None => {
                proof {
                    lemma_map_of_dom(s);
                }
                entries.push((k, v));
                assert(entry_views(entries@) =~= s.push((k@, v@)));
                assert(keys_of(entry_views(entries@)) =~= keys_of(s).push(k@));
                assert(entry_views(entries@).drop_last() =~= s);
                self.entries = entries;
                None
            },
        }
    }

    fn position_in(&self, entries: &Vec<(K, V)>, k: &K) -> (r: Option<usize>)
        ensures
            match r {
                Some(i) => i < entries@.len() && entries@[i as int].0@ == k@,
                None => !keys_of(entry_views(entries@)).contains(k@),
            },
    {
        let mut i: usize = 0;
        while i < entries.len()
            invariant
                i <= entries.len(),
                forall|j: int| 0 <= j < i ==> entries@[j].0@ != k@,
            decreases entries.len() - i,
        {
            if entries[i].0.same(k) {
                return Some(i);
            }
            i = i + 1;
        }
        proof {
            let s = entry_views(entries@);
            if keys_of(s).contains(k@) {
                let j = choose|j: int| 0 <= j < keys_of(s).len() && keys_of(s)[j] == k@;
                assert(entries@[j].0@ == k@);
            }
        }
        None
    }

    /// Removes the entry of a key and gives back its value.
    pub fn remove(&mut self, k: &K) -> (r: Option<V>)
        ensures
            final(self)@ == old(self)@.remove(k@),
            match r {
                Some(o) => old(self)@.contains_key(k@) && old(self)@[k@] == o@,
                None => !old(self)@.contains_key(k@),
            },
    {
        proof {
            use_type_invariant(&*self);
        }
        let mut entries = Vec::new();
        std::mem::swap(&mut entries, &mut self.entries);
        let ghost s = entry_views(entries@);
        let pos = self.position_in(&entries, k);
        match pos {
            Some(i) => {
                proof {
                    lemma_map_of_index(s, i as int);
                    lemma_map_of_remove(s, i as int);
                }
                let (_, old_v) = entries.remove(i);
                assert(entry_views(entries@) =~= s.remove(i as int));
                self.entries = entries;
                Some(old_v)
            },
            None => {
                proof {
                    lemma_map_of_dom(s);
                }
                assert(map_of(s) =~= map_of(s).remove(k@));
                self.entries = entries;
                None
            },
        }
    }
}

impl<K: Keyed, V: Dup> KeyMap<K, V> {
    /// Inserts every entry of `other`; where both have a key, `other`'s value wins.
    pub fn extend(&mut self, other: &KeyMap<K, V>)
        ensures
            final(self)@ == old(self)@.union_prefer_right(other@),
    {
        let mut i: usize = 0;
        while i < other.len()
            invariant
                i <= other.pairs().len(),
                self@ == old(self)@.union_prefer_right(map_of(other.pairs().take(i as int))),
            decreases other.pairs().len() - i,
        {
            let k = other.key_at(i).dup();
            let v = other.value_at(i).dup();
            self.insert(k, v);
            proof {
                let t = other.pairs().take(i + 1);
                assert(t.drop_last() =~= other.pairs().take(i as int));
                assert(self@ =~= old(self)@.union_prefer_right(map_of(t)));
            }
            i = i + 1;
        }
        assert(other.pairs().take(i as int) =~= other.pairs());
    }
}

impl<K: Keyed, V: Dup> Dup for KeyMap<K, V> {
    fn dup(&self) -> (r: Self) {
        let mut r = KeyMap::new();
        r.extend(self);
        assert(r@ =~= self@);
        r
    }
}

impl<K: Keyed, V: Dup> KeyMap<K, V> {
    pub fn is_empty(&self) -> (r: bool)
        ensures
            r == (self@ == Map::<K::V, V::V>::empty()),
    {
        proof {
            lemma_map_of_dom(self.pairs());
            if self.entries.len() > 0 {
                assert(keys_of(self.pairs())[0] == self.pairs()[0].0);
                assert(self@.contains_key(self.pairs()[0].0));
            } else {
                assert(self.pairs() =~= Seq::<(K::V, V::V)>::empty());
                assert(self@ =~= Map::<K::V, V::V>::empty());
            }
        }
        self.entries.len() == 0
    }

    /// The entries of `self` whose key is not a key of `other`.
    pub fn without_keys<W: View>(&self, other: &KeyMap<K, W>) -> (r: KeyMap<K, V>)
        ensures
            r@ == self@.remove_keys(other@.dom()),
    {
        let mut r = KeyMap::new();
        let mut i: usize = 0;
        while i < self.len()
            invariant
                i <= self.pairs().len(),
                r@ == map_of(self.pairs().take(i as int)).remove_keys(other@.dom()),
            decreases self.pairs().len() - i,
        {
            let k = self.key_at(i);
            if !other.contains_key(k) {
                let v = self.value_at(i).dup();
                r.insert(k.dup(), v);
            }
            proof {
                let t1 = self.pairs().take(i + 1);
                assert(t1.drop_last() =~= self.pairs().take(i as int));
                assert(r@ =~= map_of(t1).remove_keys(other@.dom()));
            }
            i = i + 1;
        }
        assert(self.pairs().take(i as int) =~= self.pairs());
        r
    }
}
} // verus!
