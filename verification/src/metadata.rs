//! What the crate graph says of each package, and where a package's source comes from.
use vstd::prelude::*;
use crate::keyed::{Dup, Keyed};
use crate::ordset::OrdSet;
use crate::select::{SelectSet, opt_view};

verus! {

/// The identifier of a package in the crate graph.
#[derive(Debug)]
pub struct PackageId {
    pub repr: String,
}

impl View for PackageId {
    type V = Seq<char>;

    open spec fn view(&self) -> Seq<char> {
        self.repr@
    }
}

impl Dup for PackageId {
    fn dup(&self) -> (r: Self) {
        PackageId { repr: self.repr.dup() }
    }
}

impl Keyed for PackageId {
    fn same(&self, other: &Self) -> (r: bool) {
        self.repr.same(&other.repr)
    }
}

/// One build target of a package.
#[derive(Debug)]
pub struct Target {
    pub name: String,
    pub kind: Vec<String>,
    pub src_path: String,
}

/// What the crate graph says of a package.
#[derive(Debug)]
pub struct Package {
    pub id: PackageId,
    pub name: String,
    pub version: String,
    pub edition: String,
    pub links: Option<String>,
    pub license: Option<String>,
    pub manifest_path: String,
    pub targets: Vec<Target>,
}

impl View for Package {
    type V = Package;

    open spec fn view(&self) -> Package {
        *self
    }
}

/// A node of the resolved crate graph.
#[derive(Debug)]
pub struct Node {
    pub id: PackageId,
}

/// The view of a [`Dependency`].
pub struct DependencyView {
    pub package_id: Seq<char>,
    pub target_name: Seq<char>,
    pub alias: Option<Seq<char>>,
}

/// An edge of the crate graph: a dependency on a package's target.
#[derive(Debug)]
pub struct Dependency {
    pub package_id: PackageId,
    pub target_name: String,
    pub alias: Option<String>,
}

impl View for Dependency {
    type V = DependencyView;

    open spec fn view(&self) -> DependencyView {
        DependencyView {
            package_id: self.package_id@,
            target_name: self.target_name@,
            alias: opt_view(self.alias),
        }
    }
}

/// Copies an optional string.
pub fn dup_opt(o: &Option<String>) -> (r: Option<String>)
    ensures
        opt_view(r) == opt_view(*o),
{
    match o {
        Some(s) => Some(s.dup()),
        None => None,
    }
}

impl Dup for Dependency {
    fn dup(&self) -> (r: Self) {
        Dependency {
            package_id: self.package_id.dup(),
            target_name: self.target_name.dup(),
            alias: dup_opt(&self.alias),
        }
    }
}

impl Keyed for Dependency {
    fn same(&self, other: &Self) -> (r: bool) {
        let same_alias = match (&self.alias, &other.alias) {
            (Some(a), Some(b)) => a.same(b),
            (None, None) => true,
            _ => false,
        };
        self.package_id.same(&other.package_id) && self.target_name.same(&other.target_name)
            && same_alias
    }
}

/// The dependencies of a crate, by kind.
#[derive(Debug)]
pub struct DependencySet {
    pub normal_deps: SelectSet<Dependency>,
    pub normal_dev_deps: SelectSet<Dependency>,
    pub proc_macro_deps: SelectSet<Dependency>,
    pub proc_macro_dev_deps: SelectSet<Dependency>,
    pub build_deps: SelectSet<Dependency>,
    pub build_link_deps: SelectSet<Dependency>,
    pub build_proc_macro_deps: SelectSet<Dependency>,
}

/// A package of the crate graph with its dependencies.
#[derive(Debug)]
pub struct CrateAnnotation {
    pub node: Node,
    pub deps: DependencySet,
}

/// The view of a [`Commitish`].
pub enum CommitishView {
    Tag(Seq<char>),
    Branch(Seq<char>),
    Rev(Seq<char>),
}

/// A point in a git repository's history.
#[derive(Debug)]
pub enum Commitish {
    Tag(String),
    Branch(String),
    Rev(String),
}

impl View for Commitish {
    type V = CommitishView;

    open spec fn view(&self) -> CommitishView {
        match self {
            Commitish::Tag(s) => CommitishView::Tag(s@),
            Commitish::Branch(s) => CommitishView::Branch(s@),
            Commitish::Rev(s) => CommitishView::Rev(s@),
        }
    }
}

impl Dup for Commitish {
    fn dup(&self) -> (r: Self) {
        match self {
            Commitish::Tag(s) => Commitish::Tag(s.dup()),
            Commitish::Branch(s) => Commitish::Branch(s.dup()),
            Commitish::Rev(s) => Commitish::Rev(s.dup()),
        }
    }
}

/// The view of an optional list of strings.
pub open spec fn opt_list_view(o: Option<Vec<String>>) -> Option<Seq<String>> {
    match o {
        Some(v) => Some(v@),
        None => None,
    }
}

/// The view of an optional set of strings.
pub open spec fn opt_set_view(o: Option<OrdSet<String>>) -> Option<Set<Seq<char>>> {
    match o {
        Some(s) => Some(s@),
        None => None,
    }
}

/// Copies an optional list of strings.
pub fn dup_opt_list(o: &Option<Vec<String>>) -> (r: Option<Vec<String>>)
    ensures
        opt_list_view(r) == opt_list_view(*o),
{
    match o {
        Some(v) => Some(v.dup()),
        None => None,
    }
}

/// Copies an optional set of strings.
pub fn dup_opt_set(o: &Option<OrdSet<String>>) -> (r: Option<OrdSet<String>>)
    ensures
        opt_set_view(r) == opt_set_view(*o),
{
    match o {
        Some(v) => Some(v.dup()),
        None => None,
    }
}

/// The view of a [`SourceAnnotation`].
#[verifier::ext_equal]
pub enum SourceAnnotationView {
    Git {
        remote: Seq<char>,
        commitish: CommitishView,
        shallow_since: Option<Seq<char>>,
        strip_prefix: Option<Seq<char>>,
        patch_args: Option<Seq<String>>,
        patch_tool: Option<Seq<char>>,
        patches: Option<Set<Seq<char>>>,
    },
    Http {
        url: Seq<char>,
        sha256: Option<Seq<char>>,
        patch_args: Option<Seq<String>>,
        patch_tool: Option<Seq<char>>,
        patches: Option<Set<Seq<char>>>,
    },
}

/// Where the source of a package is fetched from.
#[derive(Debug)]
pub enum SourceAnnotation {
    Git {
        remote: String,
        commitish: Commitish,
        shallow_since: Option<String>,
        strip_prefix: Option<String>,
        patch_args: Option<Vec<String>>,
        patch_tool: Option<String>,
        patches: Option<OrdSet<String>>,
    },
    Http {
        url: String,
        sha256: Option<String>,
        patch_args: Option<Vec<String>>,
        patch_tool: Option<String>,
        patches: Option<OrdSet<String>>,
    },
}

impl View for SourceAnnotation {
    type V = SourceAnnotationView;

    open spec fn view(&self) -> SourceAnnotationView {
        match self {
            SourceAnnotation::Git {
                remote,
                commitish,
                shallow_since,
                strip_prefix,
                patch_args,
                patch_tool,
                patches,
            } => SourceAnnotationView::Git {
                remote: remote@,
                commitish: commitish@,
                shallow_since: opt_view(*shallow_since),
                strip_prefix: opt_view(*strip_prefix),
                patch_args: opt_list_view(*patch_args),
                patch_tool: opt_view(*patch_tool),
                patches: opt_set_view(*patches),
            },
            SourceAnnotation::Http { url, sha256, patch_args, patch_tool, patches } =>
                SourceAnnotationView::Http {
                    url: url@,
                    sha256: opt_view(*sha256),
                    patch_args: opt_list_view(*patch_args),
                    patch_tool: opt_view(*patch_tool),
                    patches: opt_set_view(*patches),
                },
        }
    }
}

impl Dup for SourceAnnotation {
    fn dup(&self) -> (r: Self) {
        match self {
            SourceAnnotation::Git {
                remote,
                commitish,
                shallow_since,
                strip_prefix,
                patch_args,
                patch_tool,
                patches,
            } => SourceAnnotation::Git {
                remote: remote.dup(),
                commitish: commitish.dup(),
                shallow_since: dup_opt(shallow_since),
                strip_prefix: dup_opt(strip_prefix),
                patch_args: dup_opt_list(patch_args),
                patch_tool: dup_opt(patch_tool),
                patches: dup_opt_set(patches),
            },
            SourceAnnotation::Http { url, sha256, patch_args, patch_tool, patches } =>
                SourceAnnotation::Http {
                    url: url.dup(),
                    sha256: dup_opt(sha256),
                    patch_args: dup_opt_list(patch_args),
                    patch_tool: dup_opt(patch_tool),
                    patches: dup_opt_set(patches),
                },
        }
    }
}

} // verus!
