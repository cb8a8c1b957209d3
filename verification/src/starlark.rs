//! Values that stand for Starlark expressions in a `BUILD` file.
use vstd::prelude::*;
use crate::keyed::{Dup, Keyed};
use crate::ordset::OrdSet;

verus! {

/// A Bazel label, kept as its text.
#[derive(Debug)]
pub struct Label {
    pub text: String,
}

impl View for Label {
    type V = Seq<char>;

    open spec fn view(&self) -> Seq<char> {
        self.text@
    }
}

impl Dup for Label {
    fn dup(&self) -> (r: Self) {
        Label { text: self.text.dup() }
    }
}

impl Keyed for Label {
    fn same(&self, other: &Self) -> (r: bool) {
        self.text.same(&other.text)
    }
}

/// The view of a [`Glob`].
#[verifier::ext_equal]
pub struct GlobView {
    pub patterns: Set<Seq<char>>,
    pub exclusions: Set<Seq<char>>,
}

/// A `glob(...)` expression.
#[derive(Debug)]
pub struct Glob {
    pub patterns: OrdSet<String>,
    pub exclusions: OrdSet<String>,
}

impl View for Glob {
    type V = GlobView;

    open spec fn view(&self) -> GlobView {
        GlobView { patterns: self.patterns@, exclusions: self.exclusions@ }
    }
}

/// The glob of every Rust source file of a package.
pub open spec fn rust_srcs_view() -> GlobView {
    GlobView { patterns: set!["**/*.rs"@], exclusions: Set::empty() }
}

impl Glob {
    /// The glob of every Rust source file of a package: `glob(["**/*.rs"])`.
    pub fn new_rust_srcs() -> (g: Glob)
        ensures
            g@ == rust_srcs_view(),
    {
        let mut patterns = OrdSet::new();
        patterns.insert("**/*.rs".to_owned());
        Glob { patterns, exclusions: OrdSet::new() }
    }
}

impl Dup for Glob {
    fn dup(&self) -> (r: Self) {
        Glob { patterns: self.patterns.dup(), exclusions: self.exclusions.dup() }
    }
}

impl Keyed for Glob {
    fn same(&self, other: &Self) -> (r: bool) {
        let r = self.patterns.same(&other.patterns) && self.exclusions.same(&other.exclusions);
        assert(r == (self@ == other@)) by {
            if self.patterns@ == other.patterns@ && self.exclusions@ == other.exclusions@ {
                assert(self@ =~= other@);
            }
        }
        r
    }
}

} // verus!
