//! A finite set kept as a list without repeated elements.
use vstd::prelude::*;
use crate::keyed::{Dup, Keyed};

verus! {

broadcast use vstd::seq_lib::group_seq_properties;

/// The views of a list of values, in list order.
pub open spec fn views<T: View>(s: Seq<T>) -> Seq<T::V> {
    s.map_values(|t: T| t@)
}

/// A set of values, each present once, compared by view.
#[derive(Debug)]
pub struct OrdSet<T: View> {
    items: Vec<T>,
}

impl<T: View> View for OrdSet<T> {
    type V = Set<T::V>;

    closed spec fn view(&self) -> Set<T::V> {
        views(self.items@).to_set()
    }
}

impl<T: View> OrdSet<T> {
    /// The elements' views in the order they are kept.
    pub closed spec fn elems(&self) -> Seq<T::V> {
        views(self.items@)
    }

    #[verifier::type_invariant]
    closed spec fn wf(&self) -> bool {
        views(self.items@).no_duplicates()
    }
}

impl<T: View> OrdSet<T> {
    /// The set is the one of its elements.
    pub proof fn lemma_view(&self)
        ensures
            self@ == self.elems().to_set(),
    {
    }
}

impl<T: Keyed> OrdSet<T> {
    pub fn new() -> (s: Self)
        ensures
            s@ == Set::<T::V>::empty(),
            s.elems() == Seq::<T::V>::empty(),
    {
        let s = OrdSet { items: Vec::new() };
        assert(s.elems() =~= Seq::<T::V>::empty());
        assert(s@ =~= Set::<T::V>::empty());
        s
    }

    fn position(&self, x: &T) -> (r: Option<usize>)
        ensures
            match r {
                Some(i) => i < self.elems().len() && self.elems()[i as int] == x@,
                None => !self.elems().contains(x@),
            },
    {
        let mut i: usize = 0;
        while i < self.items.len()
            invariant
                i <= self.items.len(),
                forall|j: int| 0 <= j < i ==> self.items@[j]@ != x@,
            decreases self.items.len() - i,
        {
            if self.items[i].same(x) {
                return Some(i);
            }
            i = i + 1;
        }
        None
    }

    pub fn contains(&self, x: &T) -> (r: bool)
        ensures
            r == self@.contains(x@),
    {
        self.position(x).is_some()
    }

    pub fn insert(&mut self, x: T) -> (r: bool)
        ensures
            final(self)@ == old(self)@.insert(x@),
            r == !old(self)@.contains(x@),
    {
        proof { use_type_invariant(&*self); }
        if self.position(&x).is_some() {
            false
        } else {
            let mut items = Vec::new();
            std::mem::swap(&mut items, &mut self.items);
            let ghost old_items = items@;
            items.push(x);
            assert(views(items@) =~= views(old_items).push(x@));
            self.items = items;
            true
        }
    }

    /// Puts a value that is not yet in the set at position `i` of the kept order.
    pub fn insert_at(&mut self, i: usize, x: T)
        requires
            !old(self)@.contains(x@),
            i <= old(self).elems().len(),
        ensures
            final(self)@ == old(self)@.insert(x@),
            final(self).elems() == old(self).elems().insert(i as int, x@),
    {
        proof { use_type_invariant(&*self); }
        let mut items = Vec::new();
        std::mem::swap(&mut items, &mut self.items);
        let ghost old_items = views(items@);
        items.insert(i, x);
        assert(views(items@) =~= old_items.insert(i as int, x@));
        proof {
            assert(!old_items.contains(x@));
            assert forall|v: T::V| #[trigger] views(items@).contains(v) <==> old_items.to_set().insert(x@).contains(v) by {
                if views(items@).contains(v) {
                    let k = choose|k: int| 0 <= k < views(items@).len() && views(items@)[k] == v;
                    if k < i { assert(old_items[k] == v); } else if k > i { assert(old_items[k - 1] == v); }
                }
                if old_items.contains(v) {
                    let k = choose|k: int| 0 <= k < old_items.len() && old_items[k] == v;
                    if k < i { assert(views(items@)[k] == v); } else { assert(views(items@)[k + 1] == v); }
                }
                if v == x@ {
                    assert(views(items@)[i as int] == v);
                }
            }
            assert(views(items@).to_set() =~= old_items.to_set().insert(x@));
            assert forall|a: int, b: int| 0 <= a < b < views(items@).len() implies views(items@)[a] != views(items@)[b] by {
                let s = views(items@);
                if a == i { assert(s[b] == old_items[b - 1]); }
                else if b == i { assert(s[a] == old_items[a]); }
                else {
                    let oa = if a < i { a } else { a - 1 };
                    let ob = if b < i { b } else { b - 1 };
                    assert(s[a] == old_items[oa]);
                    assert(s[b] == old_items[ob]);
                }
            }
        }
        self.items = items;
    }

    pub fn len(&self) -> (r: usize)
        ensures
            r == self.elems().len(),
            self.elems().no_duplicates(),
    {
        proof {
            use_type_invariant(self);
        }
        self.items.len()
    }

    pub fn get(&self, i: usize) -> (r: &T)
        requires
            i < self.elems().len(),
        ensures
            r@ == self.elems()[i as int],
            self@.contains(r@),
    {
        proof {
            assert(self.elems().contains(self.elems()[i as int]));
        }
        &self.items[i]
    }

    pub fn is_empty(&self) -> (r: bool)
        ensures
            r == (self@ == Set::<T::V>::empty()),
    {
        proof {
            if self.items.len() > 0 {
                assert(self.elems().contains(self.elems()[0]));
                assert(self@.contains(self.elems()[0]));
            } else {
                assert(self@ =~= Set::<T::V>::empty());
            }
        }
        self.items.len() == 0
    }

    pub fn remove(&mut self, x: &T) -> (r: bool)
        ensures
            final(self)@ == old(self)@.remove(x@),
            r == old(self)@.contains(x@),
    {
        proof { use_type_invariant(&*self); }
        match self.position(x) {
            None => {
                assert(self@ =~= self@.remove(x@));
                false
            },
            Some(i) => {
                let mut items = Vec::new();
                std::mem::swap(&mut items, &mut self.items);
                let ghost s = views(items@);
                items.remove(i);
                assert(views(items@) =~= s.remove(i as int));
                proof {
                    assert forall|v: T::V| #[trigger] views(items@).contains(v) <==> (s.contains(v) && v != x@) by {
                        if s.contains(v) && v != x@ {
                            let j = choose|j: int| 0 <= j < s.len() && s[j] == v;
                            if j < i { assert(views(items@)[j] == v); } else { assert(views(items@)[j - 1] == v); }
                        }
                        if views(items@).contains(v) {
                            let j = choose|j: int| 0 <= j < views(items@).len() && views(items@)[j] == v;
                            if j < i { assert(s[j] == v); } else { assert(s[j + 1] == v); }
                        }
                    }
                    assert(views(items@).to_set() =~= s.to_set().remove(x@));
                }
                self.items = items;
                true
            },
        }
    }

    /// Adds every element of `other`.
    pub fn extend(&mut self, other: &OrdSet<T>)
        ensures
            final(self)@ == old(self)@.union(other@),
    {
        let mut i: usize = 0;
        while i < other.len()
            invariant
                i <= other.elems().len(),
                self@ == old(self)@.union(other.elems().take(i as int).to_set()),
            decreases other.elems().len() - i,
        {
            let x = other.get(i).dup();
            self.insert(x);
            assert(other.elems().take(i + 1) =~= other.elems().take(i as int).push(other.elems()[i as int]));
            i = i + 1;
        }
        assert(other.elems().take(i as int) =~= other.elems());
        assert(self@ =~= old(self)@.union(other@));
    }

    /// Builds the set of the elements of a list.
    pub fn from_vec(v: Vec<T>) -> (s: Self)
        ensures
            s@ == views(v@).to_set(),
    {
        let mut s = Self::new();
        let mut v = v;
        let ghost orig = views(v@);
        // Take elements from the back so that no element needs copying.
        while v.len() > 0
            invariant
                orig.to_set() == views(v@).to_set().union(s@),
            decreases v.len(),
        {
            let ghost before = views(v@);
            let x = v.pop().unwrap();
            assert(before =~= views(v@).push(x@));
            s.insert(x);
        }
        assert(views(v@).to_set() =~= Set::<T::V>::empty());
        assert(s@ =~= orig.to_set());
        s
    }

    /// The elements in the order they are kept.
    pub fn to_vec(&self) -> (r: Vec<T>)
        ensures
            views(r@) == self.elems(),
    {
        let mut r: Vec<T> = Vec::new();
        let mut i: usize = 0;
        while i < self.items.len()
            invariant
                i <= self.items.len(),
                views(r@) == self.elems().take(i as int),
            decreases self.items.len() - i,
        {
            r.push(self.items[i].dup());
            assert(self.elems().take(i + 1) =~= self.elems().take(i as int).push(self.elems()[i as int]));
            assert(views(r@) =~= self.elems().take(i + 1));
            i = i + 1;
        }
        assert(self.elems().take(i as int) =~= self.elems());
        r
    }
}

impl<T: Keyed> OrdSet<T> {
    /// The elements of `self` that are not in `other`.
    pub fn difference(&self, other: &OrdSet<T>) -> (r: OrdSet<T>)
        ensures
            r@ == self@.difference(other@),
    {
        let mut r = OrdSet::new();
        let mut i: usize = 0;
        while i < self.len()
            invariant
                i <= self.elems().len(),
                r@ == self.elems().take(i as int).to_set().difference(other@),
            decreases self.elems().len() - i,
        {
            let x = self.get(i);
            if !other.contains(x) {
                r.insert(x.dup());
            }
            assert(self.elems().take(i + 1) =~= self.elems().take(i as int).push(self.elems()[i as int]));
            assert(r@ =~= self.elems().take(i + 1).to_set().difference(other@));
            i = i + 1;
        }
        assert(self.elems().take(i as int) =~= self.elems());
        r
    }
}

impl<T: Keyed> Dup for OrdSet<T> {
    fn dup(&self) -> (r: Self) {
        proof { use_type_invariant(self); }
        let items = self.to_vec();
        OrdSet { items }
    }
}

impl<T: Keyed> OrdSet<T> {
    /// Whether every element of `self` is in `other`.
    pub fn is_subset_of(&self, other: &OrdSet<T>) -> (r: bool)
        ensures
            r == self@.subset_of(other@),
    {
        let mut i: usize = 0;
        while i < self.len()
            invariant
                i <= self.elems().len(),
                self.elems().take(i as int).to_set().subset_of(other@),
            decreases self.elems().len() - i,
        {
            if !other.contains(self.get(i)) {
                assert(self@.contains(self.elems()[i as int]));
                return false;
            }
            assert(self.elems().take(i + 1) =~= self.elems().take(i as int).push(self.elems()[i as int]));
            i = i + 1;
        }
        assert(self.elems().take(i as int) =~= self.elems());
        true
    }
}

impl<T: Keyed> Keyed for OrdSet<T> {
    fn same(&self, other: &Self) -> (r: bool) {
        let r = self.is_subset_of(other) && other.is_subset_of(self);
        assert(r == (self@ == other@)) by {
            if self@.subset_of(other@) && other@.subset_of(self@) {
                assert(self@ =~= other@);
            }
        }
        r
    }
}

} // verus!
