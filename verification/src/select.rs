//! Attributes whose value may depend on the build configuration.
//!
//! A value has a common part, which holds on every configuration, and a part
//! per configuration name.
use vstd::prelude::*;
use crate::keyed::{Dup, Keyed};
use crate::keymap::{KeyMap, map_of};
use crate::ordset::OrdSet;

verus! {

broadcast use vstd::seq_lib::group_seq_properties;

/// The set that `m` maps `k` to, or the empty set.
pub open spec fn set_at<K, V>(m: Map<K, Set<V>>, k: K) -> Set<V> {
    if m.contains_key(k) {
        m[k]
    } else {
        Set::empty()
    }
}

/// The values that a configuration keeps after merging `l` and `r` next to the common set `c`.
pub open spec fn merged_at<K, V>(l: Map<K, Set<V>>, r: Map<K, Set<V>>, c: Set<V>, k: K) -> Set<V> {
    set_at(l, k).union(set_at(r, k)).difference(c)
}

/// The per-configuration sets after merging `l` and `r` next to the common set `c`:
/// values already common are dropped, and a configuration without values is left out.
pub open spec fn merged_set_selects<K, V>(l: Map<K, Set<V>>, r: Map<K, Set<V>>, c: Set<V>) -> Map<K, Set<V>> {
    Map::new(
        |k: K| merged_at(l, r, c, k) != Set::<V>::empty(),
        |k: K| merged_at(l, r, c, k),
    )
}

proof fn lemma_merged_empty<K, V>(c: Set<V>)
    ensures
        merged_set_selects(Map::<K, Set<V>>::empty(), Map::<K, Set<V>>::empty(), c)
            == Map::<K, Set<V>>::empty(),
{
    let e = Map::<K, Set<V>>::empty();
    assert forall|k: K| merged_at(e, e, c, k) == Set::<V>::empty() by {
        assert(merged_at(e, e, c, k) =~= Set::<V>::empty());
    }
    assert(merged_set_selects(e, e, c) =~= e);
}

proof fn lemma_merged_swap<K, V>(m: Map<K, Set<V>>, c: Set<V>)
    ensures
        merged_set_selects(Map::<K, Set<V>>::empty(), m, c)
            == merged_set_selects(m, Map::<K, Set<V>>::empty(), c),
{
    let e = Map::<K, Set<V>>::empty();
    assert forall|k: K| merged_at(e, m, c, k) == merged_at(m, e, c, k) by {
        assert(merged_at(e, m, c, k) =~= merged_at(m, e, c, k));
    }
    assert(merged_set_selects(e, m, c) =~= merged_set_selects(m, e, c));
}

proof fn lemma_merged_insert<K, V>(l: Map<K, Set<V>>, r: Map<K, Set<V>>, c: Set<V>, k: K, v: Set<V>)
    requires
        !r.contains_key(k),
    ensures
        ({
            let s = merged_at(l, r, c, k).union(v.difference(c));
            merged_set_selects(l, r.insert(k, v), c) == if s != Set::<V>::empty() {
                merged_set_selects(l, r, c).insert(k, s)
            } else {
                merged_set_selects(l, r, c).remove(k)
            }
        }),
{
    let s = merged_at(l, r, c, k).union(v.difference(c));
    let r2 = r.insert(k, v);
    assert(merged_at(l, r2, c, k) =~= s);
    assert forall|j: K| j != k implies merged_at(l, r2, c, j) == merged_at(l, r, c, j) by {
        assert(set_at(r2, j) == set_at(r, j));
    }
    if s != Set::<V>::empty() {
        assert(merged_set_selects(l, r2, c) =~= merged_set_selects(l, r, c).insert(k, s));
    } else {
        assert(merged_set_selects(l, r2, c) =~= merged_set_selects(l, r, c).remove(k));
    }
}

/// The view of a set-valued attribute after merging `r` into `l`.
pub open spec fn merged_set_view<A>(
    l: (Set<A>, Map<Seq<char>, Set<A>>),
    r: (Set<A>, Map<Seq<char>, Set<A>>),
) -> (Set<A>, Map<Seq<char>, Set<A>>) {
    (l.0.union(r.0), merged_set_selects(l.1, r.1, l.0.union(r.0)))
}

/// A set-valued attribute.
#[derive(Debug)]
pub struct SelectSet<T: View> {
    pub common: OrdSet<T>,
    pub selects: KeyMap<String, OrdSet<T>>,
}

impl<T: View> View for SelectSet<T> {
    type V = (Set<T::V>, Map<Seq<char>, Set<T::V>>);

    open spec fn view(&self) -> (Set<T::V>, Map<Seq<char>, Set<T::V>>) {
        (self.common@, self.selects@)
    }
}

/// Removes the values of `c` from every configuration's set, dropping a configuration left empty.
fn prune_sets<T: Keyed>(sel: &KeyMap<String, OrdSet<T>>, c: &OrdSet<T>) -> (r: KeyMap<String, OrdSet<T>>)
    ensures
        r@ == merged_set_selects(Map::<Seq<char>, Set<T::V>>::empty(), sel@, c@),
{
    let mut selects: KeyMap<String, OrdSet<T>> = KeyMap::new();
    let mut i: usize = 0;
    let ghost e = Map::<Seq<char>, Set<T::V>>::empty();
    proof {
        sel.lemma_pairs();
        assert(sel.pairs().take(0) =~= Seq::<(Seq<char>, Set<T::V>)>::empty());
        lemma_merged_empty::<Seq<char>, T::V>(c@);
    }
    while i < sel.len()
        invariant
            i <= sel.pairs().len(),
            sel@ == map_of(sel.pairs()),
            e == Map::<Seq<char>, Set<T::V>>::empty(),
            selects@ == merged_set_selects(e, map_of(sel.pairs().take(i as int)), c@),
        decreases sel.pairs().len() - i,
    {
        let cfg = sel.key_at(i);
        let vals = sel.value_at(i).difference(c);
        let ghost t = sel.pairs().take(i as int);
        let ghost k = sel.pairs()[i as int].0;
        let ghost v = sel.pairs()[i as int].1;
        proof {
            sel.lemma_keys_distinct_prefix(i as int);
            lemma_merged_insert(e, map_of(t), c@, k, v);
            assert(merged_at(e, map_of(t), c@, k) =~= Set::<T::V>::empty());
            assert(merged_at(e, map_of(t), c@, k).union(v.difference(c@)) =~= vals@);
            assert(!merged_set_selects(e, map_of(t), c@).contains_key(k));
            assert(merged_set_selects(e, map_of(t), c@).remove(k) =~= merged_set_selects(e, map_of(t), c@));
        }
        if !vals.is_empty() {
            selects.insert(cfg.dup(), vals);
        }
        proof {
            let t1 = sel.pairs().take(i + 1);
            assert(t1.drop_last() =~= t);
        }
        i = i + 1;
    }
    assert(sel.pairs().take(i as int) =~= sel.pairs());
    selects
}

impl<T: Keyed> SelectSet<T> {
    pub fn new() -> (s: Self)
        ensures
            s@.0 == Set::<T::V>::empty(),
            s@.1 == Map::<Seq<char>, Set<T::V>>::empty(),
    {
        SelectSet { common: OrdSet::new(), selects: KeyMap::new() }
    }

    /// Adds a value, to every configuration or to the one named. A common value
    /// leaves the configurations' sets; a value already common is not added to one.
    pub fn insert(&mut self, value: T, configuration: Option<String>)
        ensures
            match configuration {
                None => {
                    &&& final(self)@.0 == old(self)@.0.insert(value@)
                    &&& final(self)@.1 == merged_set_selects(
                        Map::<Seq<char>, Set<T::V>>::empty(),
                        old(self)@.1,
                        set![value@],
                    )
                    &&& forall|c: Seq<char>, v: T::V| #[trigger] set_at(final(self)@.1, c).contains(v) <==> v != value@
                        && set_at(old(self)@.1, c).contains(v)
                },
                Some(cfg) => {
                    &&& final(self)@.0 == old(self)@.0
                    &&& final(self)@.1 == if old(self)@.0.contains(value@) {
                        old(self)@.1
                    } else {
                        old(self)@.1.insert(
                            cfg@,
                            set_at(old(self)@.1, cfg@).insert(value@),
                        )
                    }
                },
            },
    {
        match configuration {
            None => {
                let mut only = OrdSet::new();
                only.insert(value.dup());
                assert(only@ =~= set![value@]);
                self.selects = prune_sets(&self.selects, &only);
                self.common.insert(value);
                proof {
                    assert forall|c: Seq<char>, v: T::V| #[trigger] set_at(self@.1, c).contains(v) <==> v != value@
                        && set_at(old(self)@.1, c).contains(v) by {
                        if v != value@ && set_at(old(self)@.1, c).contains(v) {
                            assert(merged_at(Map::<Seq<char>, Set<T::V>>::empty(), old(self)@.1, set![value@], c).contains(v));
                        }
                    }
                }
            },
            Some(cfg) => {
                if !self.common.contains(&value) {
                    let prev = self.selects.remove(&cfg);
                    let mut vals = match prev {
                        Some(p) => p,
                        None => OrdSet::new(),
                    };
                    vals.insert(value);
                    self.selects.insert(cfg, vals);
                    assert(self@.1 =~= old(self)@.1.insert(
                        cfg@,
                        set_at(old(self)@.1, cfg@).insert(value@),
                    ));
                }
            },
        }
    }

    /// Merges two attributes: common values are the union, and each configuration
    /// keeps the values of both sides that are not common.
    pub fn merge(lhs: Self, rhs: Self) -> (m: Self)
        ensures
            m@.0 == lhs@.0.union(rhs@.0),
            m@.1 == merged_set_selects(
                lhs@.1,
                rhs@.1,
                lhs@.0.union(rhs@.0),
            ),
            m@ == merged_set_view(lhs@, rhs@),
    {
        let mut common = lhs.common;
        common.extend(&rhs.common);
        let ghost c = common@;
        let ghost ls = lhs.selects@;
        let ghost rs = rhs.selects@;
        let mut selects = prune_sets(&lhs.selects, &common);
        proof {
            rhs.selects.lemma_pairs();
            lemma_merged_swap(ls, c);
            assert(rhs.selects.pairs().take(0) =~= Seq::<(Seq<char>, Set<T::V>)>::empty());
        }
        let mut j: usize = 0;
        while j < rhs.selects.len()
            invariant
                j <= rhs.selects.pairs().len(),
                rs == map_of(rhs.selects.pairs()),
                common@ == c,
                selects@ == merged_set_selects(ls, map_of(rhs.selects.pairs().take(j as int)), c),
            decreases rhs.selects.pairs().len() - j,
        {
            let cfg = rhs.selects.key_at(j);
            let vals = rhs.selects.value_at(j).difference(&common);
            let ghost t = rhs.selects.pairs().take(j as int);
            let ghost k = rhs.selects.pairs()[j as int].0;
            let ghost v = rhs.selects.pairs()[j as int].1;
            let ghost before = selects@;
            proof {
                rhs.selects.lemma_keys_distinct_prefix(j as int);
                lemma_merged_insert(ls, map_of(t), c, k, v);
            }
            if !vals.is_empty() {
                let prev = selects.remove(cfg);
                let mut merged = match prev {
                    Some(p) => p,
                    None => OrdSet::new(),
                };
                merged.extend(&vals);
                selects.insert(cfg.dup(), merged);
            }
            proof {
                let t1 = rhs.selects.pairs().take(j + 1);
                assert(t1.drop_last() =~= t);
                let s = merged_at(ls, map_of(t), c, k).union(v.difference(c));
                if vals@ == Set::<T::V>::empty() {
                    assert(s =~= merged_at(ls, map_of(t), c, k));
                    if s != Set::<T::V>::empty() {
                        assert(before.insert(k, s) =~= before);
                    } else {
                        assert(before.remove(k) =~= before);
                    }
                } else {
                    assert(s != Set::<T::V>::empty()) by {
                        if s == Set::<T::V>::empty() {
                            assert(vals@ =~= Set::<T::V>::empty());
                        }
                    }
                    assert(selects@ =~= before.insert(k, s));
                }
            }
            j = j + 1;
        }
        assert(rhs.selects.pairs().take(j as int) =~= rhs.selects.pairs());
        SelectSet { common, selects }
    }
}

impl<T: Keyed> Dup for SelectSet<T> {
    fn dup(&self) -> (r: Self) {
        SelectSet { common: self.common.dup(), selects: self.selects.dup() }
    }
}

/// The map that `m` maps `k` to, or the empty map.
pub open spec fn map_at<K, A, B>(m: Map<K, Map<A, B>>, k: K) -> Map<A, B> {
    if m.contains_key(k) {
        m[k]
    } else {
        Map::empty()
    }
}

/// The entries that a configuration keeps after merging `l` and `r` next to the common keys `c`.
pub open spec fn merged_map_at<K, A, B>(l: Map<K, Map<A, B>>, r: Map<K, Map<A, B>>, c: Set<A>, k: K) -> Map<A, B> {
    map_at(l, k).union_prefer_right(map_at(r, k)).remove_keys(c)
}

/// The per-configuration maps after merging `l` and `r` next to the common keys `c`: `r` wins
/// on a key that both have, keys already common are dropped, and a configuration without
/// entries is left out.
pub open spec fn merged_map_selects<K, A, B>(l: Map<K, Map<A, B>>, r: Map<K, Map<A, B>>, c: Set<A>) -> Map<K, Map<A, B>> {
    Map::new(
        |k: K| merged_map_at(l, r, c, k) != Map::<A, B>::empty(),
        |k: K| merged_map_at(l, r, c, k),
    )
}

proof fn lemma_merged_map_empty<K, A, B>(c: Set<A>)
    ensures
        merged_map_selects(Map::<K, Map<A, B>>::empty(), Map::<K, Map<A, B>>::empty(), c)
            == Map::<K, Map<A, B>>::empty(),
{
    let e = Map::<K, Map<A, B>>::empty();
    assert forall|k: K| merged_map_at(e, e, c, k) == Map::<A, B>::empty() by {
        assert(merged_map_at(e, e, c, k) =~= Map::<A, B>::empty());
    }
    assert(merged_map_selects(e, e, c) =~= e);
}

proof fn lemma_merged_map_swap<K, A, B>(m: Map<K, Map<A, B>>, c: Set<A>)
    ensures
        merged_map_selects(Map::<K, Map<A, B>>::empty(), m, c)
            == merged_map_selects(m, Map::<K, Map<A, B>>::empty(), c),
{
    let e = Map::<K, Map<A, B>>::empty();
    assert forall|k: K| merged_map_at(e, m, c, k) == merged_map_at(m, e, c, k) by {
        assert(merged_map_at(e, m, c, k) =~= merged_map_at(m, e, c, k));
    }
    assert(merged_map_selects(e, m, c) =~= merged_map_selects(m, e, c));
}

proof fn lemma_merged_map_insert<K, A, B>(
    l: Map<K, Map<A, B>>,
    r: Map<K, Map<A, B>>,
    c: Set<A>,
    k: K,
    v: Map<A, B>,
)
    requires
        !r.contains_key(k),
    ensures
        ({
            let s = merged_map_at(l, r, c, k).union_prefer_right(v.remove_keys(c));
            merged_map_selects(l, r.insert(k, v), c) == if s != Map::<A, B>::empty() {
                merged_map_selects(l, r, c).insert(k, s)
            } else {
                merged_map_selects(l, r, c).remove(k)
            }
        }),
{
    let s = merged_map_at(l, r, c, k).union_prefer_right(v.remove_keys(c));
    let r2 = r.insert(k, v);
    assert(merged_map_at(l, r2, c, k) =~= s);
    assert forall|j: K| j != k implies merged_map_at(l, r2, c, j) == merged_map_at(l, r, c, j) by {
        assert(map_at(r2, j) == map_at(r, j));
    }
    if s != Map::<A, B>::empty() {
        assert(merged_map_selects(l, r2, c) =~= merged_map_selects(l, r, c).insert(k, s));
    } else {
        assert(merged_map_selects(l, r2, c) =~= merged_map_selects(l, r, c).remove(k));
    }
}

/// Removes the keys of `c` from every configuration's map, dropping a configuration left empty.
fn prune_maps(sel: &KeyMap<String, KeyMap<String, String>>, c: &KeyMap<String, String>) -> (r: KeyMap<String, KeyMap<String, String>>)
    ensures
        r@ == merged_map_selects(Map::<Seq<char>, Map<Seq<char>, Seq<char>>>::empty(), sel@, c@.dom()),
{
    let mut selects: KeyMap<String, KeyMap<String, String>> = KeyMap::new();
    let mut i: usize = 0;
    let ghost e = Map::<Seq<char>, Map<Seq<char>, Seq<char>>>::empty();
    let ghost cd = c@.dom();
    proof {
        sel.lemma_pairs();
        assert(sel.pairs().take(0) =~= Seq::<(Seq<char>, Map<Seq<char>, Seq<char>>)>::empty());
        lemma_merged_map_empty::<Seq<char>, Seq<char>, Seq<char>>(cd);
    }
    while i < sel.len()
        invariant
            i <= sel.pairs().len(),
            sel@ == map_of(sel.pairs()),
            e == Map::<Seq<char>, Map<Seq<char>, Seq<char>>>::empty(),
            cd == c@.dom(),
            selects@ == merged_map_selects(e, map_of(sel.pairs().take(i as int)), cd),
        decreases sel.pairs().len() - i,
    {
        let cfg = sel.key_at(i);
        let vals = sel.value_at(i).without_keys(c);
        let ghost t = sel.pairs().take(i as int);
        let ghost k = sel.pairs()[i as int].0;
        let ghost v = sel.pairs()[i as int].1;
        proof {
            sel.lemma_keys_distinct_prefix(i as int);
            lemma_merged_map_insert(e, map_of(t), cd, k, v);
            assert(merged_map_at(e, map_of(t), cd, k) =~= Map::<Seq<char>, Seq<char>>::empty());
            assert(merged_map_at(e, map_of(t), cd, k).union_prefer_right(v.remove_keys(cd)) =~= vals@);
            assert(!merged_map_selects(e, map_of(t), cd).contains_key(k));
            assert(merged_map_selects(e, map_of(t), cd).remove(k) =~= merged_map_selects(e, map_of(t), cd));
        }
        if !vals.is_empty() {
            selects.insert(cfg.dup(), vals);
        }
        proof {
            let t1 = sel.pairs().take(i + 1);
            assert(t1.drop_last() =~= t);
        }
        i = i + 1;
    }
    assert(sel.pairs().take(i as int) =~= sel.pairs());
    selects
}

/// The view of a map-valued attribute after merging `r` into `l`.
pub open spec fn merged_map_view<A, B>(
    l: (Map<A, B>, Map<Seq<char>, Map<A, B>>),
    r: (Map<A, B>, Map<Seq<char>, Map<A, B>>),
) -> (Map<A, B>, Map<Seq<char>, Map<A, B>>) {
    (l.0.union_prefer_right(r.0), merged_map_selects(l.1, r.1, l.0.union_prefer_right(r.0).dom()))
}

/// An attribute whose value is a map from names to strings.
#[derive(Debug)]
pub struct SelectMap {
    pub common: KeyMap<String, String>,
    pub selects: KeyMap<String, KeyMap<String, String>>,
}

impl View for SelectMap {
    type V = (Map<Seq<char>, Seq<char>>, Map<Seq<char>, Map<Seq<char>, Seq<char>>>);

    open spec fn view(&self) -> Self::V {
        (self.common@, self.selects@)
    }
}

impl SelectMap {
    pub fn new() -> (s: Self)
        ensures
            s@.0 == Map::<Seq<char>, Seq<char>>::empty(),
            s@.1 == Map::<Seq<char>, Map<Seq<char>, Seq<char>>>::empty(),
    {
        SelectMap { common: KeyMap::new(), selects: KeyMap::new() }
    }

    /// Merges two attributes: `rhs` wins where both have an entry, and each configuration
    /// keeps the entries of both sides whose key is not common.
    pub fn merge(lhs: Self, rhs: Self) -> (m: Self)
        ensures
            m@.0 == lhs@.0.union_prefer_right(rhs@.0),
            m@.1 == merged_map_selects(lhs@.1, rhs@.1, lhs@.0.union_prefer_right(rhs@.0).dom()),
            m@ == merged_map_view(lhs@, rhs@),
    {
        let mut common = lhs.common;
        common.extend(&rhs.common);
        let ghost c = common@.dom();
        let ghost ls = lhs.selects@;
        let ghost rs = rhs.selects@;
        let mut selects = prune_maps(&lhs.selects, &common);
        proof {
            rhs.selects.lemma_pairs();
            lemma_merged_map_swap(ls, c);
            assert(rhs.selects.pairs().take(0) =~= Seq::<(Seq<char>, Map<Seq<char>, Seq<char>>)>::empty());
        }
        let mut j: usize = 0;
        while j < rhs.selects.len()
            invariant
                j <= rhs.selects.pairs().len(),
                rs == map_of(rhs.selects.pairs()),
                common@.dom() == c,
                selects@ == merged_map_selects(ls, map_of(rhs.selects.pairs().take(j as int)), c),
            decreases rhs.selects.pairs().len() - j,
        {
            let cfg = rhs.selects.key_at(j);
            let vals = rhs.selects.value_at(j).without_keys(&common);
            let ghost t = rhs.selects.pairs().take(j as int);
            let ghost k = rhs.selects.pairs()[j as int].0;
            let ghost v = rhs.selects.pairs()[j as int].1;
            let ghost before = selects@;
            proof {
                rhs.selects.lemma_keys_distinct_prefix(j as int);
                lemma_merged_map_insert(ls, map_of(t), c, k, v);
            }
            if !vals.is_empty() {
                let prev = selects.remove(cfg);
                let mut merged = match prev {
                    Some(p) => p,
                    None => KeyMap::new(),
                };
                merged.extend(&vals);
                selects.insert(cfg.dup(), merged);
            }
            proof {
                let t1 = rhs.selects.pairs().take(j + 1);
                assert(t1.drop_last() =~= t);
                let s = merged_map_at(ls, map_of(t), c, k).union_prefer_right(v.remove_keys(c));
                if vals@ == Map::<Seq<char>, Seq<char>>::empty() {
                    assert(s =~= merged_map_at(ls, map_of(t), c, k));
                    if s != Map::<Seq<char>, Seq<char>>::empty() {
                        assert(before.insert(k, s) =~= before);
                    } else {
                        assert(before.remove(k) =~= before);
                    }
                } else {
                    assert(s != Map::<Seq<char>, Seq<char>>::empty()) by {
                        if s == Map::<Seq<char>, Seq<char>>::empty() {
                            assert(vals@ =~= Map::<Seq<char>, Seq<char>>::empty());
                        }
                    }
                    assert(selects@ =~= before.insert(k, s));
                }
            }
            j = j + 1;
        }
        assert(rhs.selects.pairs().take(j as int) =~= rhs.selects.pairs());
        SelectMap { common, selects }
    }
}

impl Dup for SelectMap {
    fn dup(&self) -> (r: Self) {
        SelectMap { common: self.common.dup(), selects: self.selects.dup() }
    }
}

/// The list that `m` maps `k` to, or the empty list.
pub open spec fn list_at<K, A>(m: Map<K, Seq<A>>, k: K) -> Seq<A> {
    if m.contains_key(k) {
        m[k]
    } else {
        Seq::empty()
    }
}

/// The per-configuration lists after merging `l` and `r`: `l`'s items, then `r`'s; a
/// configuration without items is left out.
pub open spec fn merged_list_selects<K, A>(l: Map<K, Seq<A>>, r: Map<K, Seq<A>>) -> Map<K, Seq<A>> {
    Map::new(
        |k: K| list_at(l, k) + list_at(r, k) != Seq::<A>::empty(),
        |k: K| list_at(l, k) + list_at(r, k),
    )
}

/// The view of a list-valued attribute after merging `r` into `l`.
pub open spec fn merged_list_view<A>(
    l: (Seq<A>, Map<Seq<char>, Seq<A>>),
    r: (Seq<A>, Map<Seq<char>, Seq<A>>),
) -> (Seq<A>, Map<Seq<char>, Seq<A>>) {
    (l.0 + r.0, merged_list_selects(l.1, r.1))
}

/// An attribute whose value is a list of strings.
#[derive(Debug)]
pub struct SelectList {
    pub common: Vec<String>,
    pub selects: KeyMap<String, Vec<String>>,
}

impl View for SelectList {
    type V = (Seq<String>, Map<Seq<char>, Seq<String>>);

    open spec fn view(&self) -> Self::V {
        (self.common@, self.selects@)
    }
}

impl SelectList {
    pub fn new() -> (s: Self)
        ensures
            s@.0 == Seq::<String>::empty(),
            s@.1 == Map::<Seq<char>, Seq<String>>::empty(),
    {
        SelectList { common: Vec::new(), selects: KeyMap::new() }
    }

    /// Merges two attributes: every list is `lhs`'s items followed by `rhs`'s.
    pub fn merge(lhs: Self, rhs: Self) -> (m: Self)
        ensures
            m@.0 == lhs@.0 + rhs@.0,
            m@.1 == merged_list_selects(lhs@.1, rhs@.1),
            m@ == merged_list_view(lhs@, rhs@),
    {
        let mut common = lhs.common;
        let mut rc = rhs.common.dup();
        common.append(&mut rc);
        let ghost ls = lhs.selects@;
        let ghost rs = rhs.selects@;
        let ghost e = Map::<Seq<char>, Seq<String>>::empty();
        let mut selects: KeyMap<String, Vec<String>> = KeyMap::new();
        proof {
            lhs.selects.lemma_pairs();
            rhs.selects.lemma_pairs();
            assert(lhs.selects.pairs().take(0) =~= Seq::<(Seq<char>, Seq<String>)>::empty());
            assert(merged_list_selects(e, e) =~= e) by {
                assert forall|k: Seq<char>| list_at(e, k) + list_at(e, k) == Seq::<String>::empty() by {
                    assert(list_at(e, k) + list_at(e, k) =~= Seq::<String>::empty());
                }
            }
        }
        let mut i: usize = 0;
        while i < lhs.selects.len()
            invariant
                i <= lhs.selects.pairs().len(),
                ls == map_of(lhs.selects.pairs()),
                e == Map::<Seq<char>, Seq<String>>::empty(),
                selects@ == merged_list_selects(map_of(lhs.selects.pairs().take(i as int)), e),
            decreases lhs.selects.pairs().len() - i,
        {
            let ghost t = lhs.selects.pairs().take(i as int);
            let ghost k = lhs.selects.pairs()[i as int].0;
            let ghost v = lhs.selects.pairs()[i as int].1;
            let ghost before = selects@;
            proof {
                lhs.selects.lemma_keys_distinct_prefix(i as int);
            }
            let vals = lhs.selects.value_at(i);
            if vals.len() > 0 {
                selects.insert(lhs.selects.key_at(i).dup(), vals.dup());
            }
            proof {
                let t1 = lhs.selects.pairs().take(i + 1);
                assert(t1.drop_last() =~= t);
                let m1 = map_of(t1);
                assert forall|j: Seq<char>| j != k implies #[trigger] list_at(m1, j) == list_at(map_of(t), j) by {}
                assert(list_at(m1, k) + list_at(e, k) =~= v);
                if v.len() > 0 {
                    assert(selects@ =~= merged_list_selects(m1, e));
                } else {
                    assert(v =~= Seq::<String>::empty());
                    assert(list_at(map_of(t), k) + list_at(e, k) =~= Seq::<String>::empty());
                    assert(selects@ =~= merged_list_selects(m1, e));
                }
            }
            i = i + 1;
        }
        assert(lhs.selects.pairs().take(i as int) =~= lhs.selects.pairs());
        proof {
            assert(rhs.selects.pairs().take(0) =~= Seq::<(Seq<char>, Seq<String>)>::empty());
        }
        let mut j: usize = 0;
        while j < rhs.selects.len()
            invariant
                j <= rhs.selects.pairs().len(),
                rs == map_of(rhs.selects.pairs()),
                selects@ == merged_list_selects(ls, map_of(rhs.selects.pairs().take(j as int))),
            decreases rhs.selects.pairs().len() - j,
        {
            let ghost t = rhs.selects.pairs().take(j as int);
            let ghost k = rhs.selects.pairs()[j as int].0;
            let ghost v = rhs.selects.pairs()[j as int].1;
            proof {
                rhs.selects.lemma_keys_distinct_prefix(j as int);
            }
            let cfg = rhs.selects.key_at(j);
            let vals = rhs.selects.value_at(j);
            if vals.len() > 0 {
                let prev = selects.remove(cfg);
                let mut merged = match prev {
                    Some(p) => p,
                    None => Vec::new(),
                };
                let mut more = vals.dup();
                merged.append(&mut more);
                selects.insert(cfg.dup(), merged);
            }
            proof {
                let t1 = rhs.selects.pairs().take(j + 1);
                assert(t1.drop_last() =~= t);
                let m1 = map_of(t1);
                assert forall|q: Seq<char>| q != k implies #[trigger] list_at(m1, q) == list_at(map_of(t), q) by {}
                assert(list_at(m1, k) == v);
                assert(list_at(map_of(t), k) =~= Seq::<String>::empty());
                if v.len() > 0 {
                    assert(list_at(ls, k) + v != Seq::<String>::empty()) by {
                        assert((list_at(ls, k) + v).len() > 0);
                    }
                    assert(selects@ =~= merged_list_selects(ls, m1));
                } else {
                    assert(v =~= Seq::<String>::empty());
                    assert(list_at(ls, k) + v =~= list_at(ls, k) + list_at(map_of(t), k));
                    assert(selects@ =~= merged_list_selects(ls, m1));
                }
            }
            j = j + 1;
        }
        assert(rhs.selects.pairs().take(j as int) =~= rhs.selects.pairs());
        SelectList { common, selects }
    }
}

impl Dup for SelectList {
    fn dup(&self) -> (r: Self) {
        SelectList { common: self.common.dup(), selects: self.selects.dup() }
    }
}

/// The view of a string-valued attribute after merging `r` into `l`.
pub open spec fn merged_scalar_view<A>(
    l: (Option<A>, Map<Seq<char>, A>),
    r: (Option<A>, Map<Seq<char>, A>),
) -> (Option<A>, Map<Seq<char>, A>) {
    (if r.0 is Some { r.0 } else { l.0 }, l.1.union_prefer_right(r.1))
}

/// An attribute whose value is a single string.
#[derive(Debug)]
pub struct SelectScalar {
    pub common: Option<String>,
    pub selects: KeyMap<String, String>,
}

/// The view of an optional string.
pub open spec fn opt_view(o: Option<String>) -> Option<Seq<char>> {
    match o {
        Some(s) => Some(s@),
        None => None,
    }
}

impl View for SelectScalar {
    type V = (Option<Seq<char>>, Map<Seq<char>, Seq<char>>);

    open spec fn view(&self) -> Self::V {
        (opt_view(self.common), self.selects@)
    }
}

impl SelectScalar {
    pub fn new() -> (s: Self)
        ensures
            s@.0 == None::<Seq<char>>,
            s@.1 == Map::<Seq<char>, Seq<char>>::empty(),
    {
        SelectScalar { common: None, selects: KeyMap::new() }
    }

    /// Merges two attributes: `rhs`'s value wins wherever it has one.
    pub fn merge(lhs: Self, rhs: Self) -> (m: Self)
        ensures
            m@.0 == (if rhs@.0 is Some { rhs@.0 } else { lhs@.0 }),
            m@.1 == lhs@.1.union_prefer_right(rhs@.1),
            m@ == merged_scalar_view(lhs@, rhs@),
    {
        let common = match rhs.common {
            Some(c) => Some(c),
            None => lhs.common,
        };
        let mut selects = lhs.selects;
        selects.extend(&rhs.selects);
        SelectScalar { common, selects }
    }
}

impl Dup for SelectScalar {
    fn dup(&self) -> (r: Self) {
        let common = match &self.common {
            Some(c) => Some(c.dup()),
            None => None,
        };
        SelectScalar { common, selects: self.selects.dup() }
    }
}

} // verus!
