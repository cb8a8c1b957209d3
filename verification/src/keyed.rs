//! Values that can be copied and compared by their abstract view.
use vstd::prelude::*;

verus! {

/// A value whose copy has the same view as the original.
pub trait Dup: View + Sized {
    fn dup(&self) -> (r: Self)
        ensures
            r@ == self@,
    ;
}

/// A value that can be told apart from another by comparing views.
pub trait Keyed: Dup {
    fn same(&self, other: &Self) -> (r: bool)
        ensures
            r == (self@ == other@),
    ;
}

impl Dup for String {
    fn dup(&self) -> (r: Self) {
        self.clone()
    }
}

impl Keyed for String {
    fn same(&self, other: &Self) -> (r: bool) {
        *self == *other
    }
}

impl Dup for Vec<String> {
    fn dup(&self) -> (r: Self) {
        let r = self.clone();
        assert(r@ =~= self@);
        r
    }
}

} // verus!
