//! The dependencies of a crate, and the settings that apply to its package.
use vstd::prelude::*;
use crate::config::{CrateId, CrateIdView, PairedExtras};
use crate::crate_context::{CrateDependency, CrateDependencyView, DepSelectView};
use crate::keyed::{Dup, Keyed};
use crate::keymap::{KeyMap, keys_of, lemma_map_of_dom, lemma_map_of_index, map_of};
use crate::metadata::{Dependency, DependencyView, Package, PackageId, dup_opt};
use crate::order::{lemma_pair_lt_order, pair_lt, text_eq, text_lt};
use crate::ordset::OrdSet;
use crate::select::SelectSet;
use crate::utils::{module_name, sanitize_module_name};

verus! {

/// The dependency on a package's target that an edge of the crate graph renders as: the
/// package's name and version, and the target's module name.
pub open spec fn crate_dep_view(d: DependencyView, packages: Map<Seq<char>, Package>) -> CrateDependencyView {
    let pkg = packages[d.package_id];
    CrateDependencyView {
        id: CrateIdView { name: pkg.name@, version: pkg.version@ },
        target: module_name(d.target_name),
        alias: d.alias,
    }
}

/// The dependencies that a set of edges renders as.
pub open spec fn crate_dep_set(s: Set<DependencyView>, packages: Map<Seq<char>, Package>) -> Set<CrateDependencyView> {
    s.map(|d: DependencyView| crate_dep_view(d, packages))
}

/// The dependency attribute that an attribute of edges renders as.
pub open spec fn crate_deps_view(
    sel: (Set<DependencyView>, Map<Seq<char>, Set<DependencyView>>),
    packages: Map<Seq<char>, Package>,
) -> DepSelectView {
    (
        crate_dep_set(sel.0, packages),
        sel.1.map_values(|s: Set<DependencyView>| crate_dep_set(s, packages)),
    )
}

/// Whether every edge of an attribute leads to a known package.
pub open spec fn deps_known(
    sel: (Set<DependencyView>, Map<Seq<char>, Set<DependencyView>>),
    packages: Map<Seq<char>, Package>,
) -> bool {
    &&& forall|d: DependencyView| #[trigger] sel.0.contains(d) ==> packages.contains_key(d.package_id)
    &&& forall|c: Seq<char>, d: DependencyView|
        sel.1.contains_key(c) && #[trigger] sel.1[c].contains(d) ==> packages.contains_key(d.package_id)
}

/// The dependency that an edge of the crate graph renders as.
pub(crate) fn new_crate_dep(dep: &Dependency, packages: &KeyMap<PackageId, Package>) -> (r: CrateDependency)
    requires
        packages@.contains_key(dep.package_id@),
    ensures
        r@ == crate_dep_view(dep@, packages@),
{
    match packages.get(&dep.package_id) {
        Some(pkg) => {
            // The package graph and resolve graph of cargo metadata have different
            // representations for the crate names (the resolve graph sanitizes names to
            // match module names), so the dependency target needs to be sanitized.
            let target = sanitize_module_name(dep.target_name.as_str());
            CrateDependency {
                id: CrateId::new(pkg.name.dup(), pkg.version.dup()),
                target,
                alias: dup_opt(&dep.alias),
            }
        },
        None => {
            // Not reached: the package is known.
            CrateDependency { id: CrateId::new(String::new(), String::new()), target: String::new(), alias: None }
        },
    }
}

pub(crate) fn map_dep_set(s: &OrdSet<Dependency>, packages: &KeyMap<PackageId, Package>) -> (r: OrdSet<CrateDependency>)
    requires
        forall|d: DependencyView| #[trigger] s@.contains(d) ==> packages@.contains_key(d.package_id),
    ensures
        r@ == crate_dep_set(s@, packages@),
{
    let mut r = OrdSet::new();
    let mut i: usize = 0;
    proof {
        s.lemma_view();
    }
    while i < s.len()
        invariant
            i <= s.elems().len(),
            s@ == s.elems().to_set(),
            forall|d: DependencyView| #[trigger] s@.contains(d) ==> packages@.contains_key(d.package_id),
            r@ == crate_dep_set(s.elems().take(i as int).to_set(), packages@),
        decreases s.elems().len() - i,
    {
        let dep = s.get(i);
        let c = new_crate_dep(dep, packages);
        r.insert(c);
        proof {
            let t = s.elems().take(i as int);
            assert(s.elems().take(i + 1) =~= t.push(dep@));
            t.lemma_push_to_set_commute(dep@);
            let f = |d: DependencyView| crate_dep_view(d, packages@);
            let a = t.to_set().insert(dep@).map(f);
            let b = t.to_set().map(f).insert(f(dep@));
            assert forall|x: CrateDependencyView| a.contains(x) <==> b.contains(x) by {
                if b.contains(x) && x != f(dep@) {
                    let y = choose|y: DependencyView| t.to_set().contains(y) && f(y) == x;
                    assert(t.to_set().insert(dep@).contains(y));
                }
                if x == f(dep@) {
                    assert(t.to_set().insert(dep@).contains(dep@));
                }
                if a.contains(x) {
                    let y = choose|y: DependencyView| t.to_set().insert(dep@).contains(y) && f(y) == x;
                    if y != dep@ {
                        assert(t.to_set().contains(y));
                    }
                }
            }
            assert(a =~= b);
        }
        i = i + 1;
    }
    assert(s.elems().take(i as int) =~= s.elems());
    r
}

/// The dependency attribute that an attribute of edges renders as.
pub(crate) fn map_deps(sel: &SelectSet<Dependency>, packages: &KeyMap<PackageId, Package>) -> (r: SelectSet<CrateDependency>)
    requires
        deps_known(sel@, packages@),
    ensures
        r@ == crate_deps_view(sel@, packages@),
{
    assert forall|d: DependencyView| #[trigger] sel.common@.contains(d) implies packages@.contains_key(d.package_id) by {
        assert(sel@.0.contains(d));
    }
    let common = map_dep_set(&sel.common, packages);
    let mut selects: KeyMap<String, OrdSet<CrateDependency>> = KeyMap::new();
    let ghost f = |s: Set<DependencyView>| crate_dep_set(s, packages@);
    proof {
        sel.selects.lemma_pairs();
        assert(sel.selects.pairs().take(0) =~= Seq::<(Seq<char>, Set<DependencyView>)>::empty());
        assert(map_of(sel.selects.pairs().take(0)).map_values(f) =~= Map::<Seq<char>, Set<CrateDependencyView>>::empty());
    }
    let mut i: usize = 0;
    while i < sel.selects.len()
        invariant
            i <= sel.selects.pairs().len(),
            sel.selects@ == map_of(sel.selects.pairs()),
            deps_known(sel@, packages@),
            f == (|s: Set<DependencyView>| crate_dep_set(s, packages@)),
            selects@ == map_of(sel.selects.pairs().take(i as int)).map_values(f),
        decreases sel.selects.pairs().len() - i,
    {
        let cfg = sel.selects.key_at(i);
        let vals = sel.selects.value_at(i);
        let ghost k = sel.selects.pairs()[i as int].0;
        proof {
            assert forall|d: DependencyView| #[trigger] vals@.contains(d) implies packages@.contains_key(d.package_id) by {
                assert(sel@.1.contains_key(k) && sel@.1[k].contains(d));
            }
        }
        let mapped = map_dep_set(vals, packages);
        selects.insert(cfg.dup(), mapped);
        proof {
            let t = sel.selects.pairs().take(i as int);
            let t1 = sel.selects.pairs().take(i + 1);
            assert(t1.drop_last() =~= t);
            assert(selects@ =~= map_of(t1).map_values(f));
        }
        i = i + 1;
    }
    assert(sel.selects.pairs().take(i as int) =~= sel.selects.pairs());
    let r = SelectSet { common, selects };
    assert(r@ =~= crate_deps_view(sel@, packages@));
    r
}

/// Whether the crate `a` comes before the crate `b`: by name, then by version.
pub open spec fn crate_id_lt(a: CrateIdView, b: CrateIdView) -> bool {
    pair_lt(a.name, Some(a.version), b.name, Some(b.version))
}

/// Whether `id` is the crate whose settings apply to the package `pid`: of the crates whose
/// settings were matched to the package, the first by name and version.
pub open spec fn is_package_extra_key(extras: Map<CrateIdView, PairedExtras>, pid: Seq<char>, id: CrateIdView) -> bool {
    &&& extras.contains_key(id)
    &&& extras[id].package_id@ == pid
    &&& forall|o: CrateIdView|
        #[trigger] extras.contains_key(o) && extras[o].package_id@ == pid && o != id ==> crate_id_lt(id, o)
}

/// The settings that apply to the package `pid`, if any.
pub open spec fn package_extra_of(extras: Map<CrateIdView, PairedExtras>, pid: Seq<char>) -> Option<PairedExtras> {
    if exists|id: CrateIdView| is_package_extra_key(extras, pid, id) {
        Some(extras[choose|id: CrateIdView| is_package_extra_key(extras, pid, id)])
    } else {
        None
    }
}

pub(crate) proof fn lemma_package_extra_key_unique(extras: Map<CrateIdView, PairedExtras>, pid: Seq<char>, a: CrateIdView, b: CrateIdView)
    requires
        is_package_extra_key(extras, pid, a),
        is_package_extra_key(extras, pid, b),
    ensures
        a == b,
{
    lemma_pair_lt_order(a.name, Some(a.version), b.name, Some(b.version), a.name, Some(a.version));
}

pub(crate) fn crate_id_less(a: &CrateId, b: &CrateId) -> (r: bool)
    ensures
        r == crate_id_lt(a@, b@),
{
    text_lt(a.name.as_str(), b.name.as_str())
        || (text_eq(a.name.as_str(), b.name.as_str()) && text_lt(a.version.as_str(), b.version.as_str()))
}

/// The position of the settings that apply to the package `pid`, if any.
pub(crate) fn find_package_extra(extras: &KeyMap<CrateId, PairedExtras>, pid: &PackageId) -> (r: Option<usize>)
    ensures
        match r {
            Some(i) => i < extras.pairs().len() && is_package_extra_key(extras@, pid@, extras.pairs()[i as int].0)
                && extras@[extras.pairs()[i as int].0] == extras.pairs()[i as int].1,
            None => forall|o: CrateIdView| #[trigger] extras@.contains_key(o) ==> extras@[o].package_id@ != pid@,
        },
{
    let mut best: Option<usize> = None;
    let mut i: usize = 0;
    let ghost ps = extras.pairs();
    let _ = extras.len();
    proof {
        extras.lemma_pairs();
    }
    while i < extras.len()
        invariant
            i <= ps.len(),
            ps == extras.pairs(),
            extras@ == map_of(ps),
            keys_of(ps).no_duplicates(),
            match best {
                Some(b) => {
                    &&& b < i
                    &&& ps[b as int].1.package_id@ == pid@
                    &&& forall|j: int| 0 <= j < i && j != b && #[trigger] ps[j].1.package_id@ == pid@ ==> crate_id_lt(ps[b as int].0, ps[j].0)
                },
                None => forall|j: int| 0 <= j < i ==> #[trigger] ps[j].1.package_id@ != pid@,
            },
        decreases ps.len() - i,
    {
        let settings = extras.value_at(i);
        if settings.package_id.same(pid) {
            match best {
                None => {
                    best = Some(i);
                },
                Some(b) => {
                    let ghost kb = ps[b as int].0;
                    let ghost ki = ps[i as int].0;
                    proof {
                        lemma_pair_lt_order(ki.name, Some(ki.version), kb.name, Some(kb.version), ki.name, Some(ki.version));
                        assert forall|j: int| 0 <= j < i && j != b && #[trigger] ps[j].1.package_id@ == pid@
                            && crate_id_lt(ki, kb) implies crate_id_lt(ki, ps[j].0) by {
                            let kj = ps[j].0;
                            lemma_pair_lt_order(ki.name, Some(ki.version), kb.name, Some(kb.version), kj.name, Some(kj.version));
                        }
                        assert(keys_of(ps)[b as int] != keys_of(ps)[i as int]);
                        if ki.name == kb.name && ki.version == kb.version {
                            assert(ki == kb);
                        }
                    }
                    if crate_id_less(extras.key_at(i), extras.key_at(b)) {
                        best = Some(i);
                    }
                },
            }
        }
        i = i + 1;
    }
    proof {
        lemma_map_of_dom(ps);
        match best {
            Some(b) => {
                lemma_map_of_index(ps, b as int);
                let kb = ps[b as int].0;
                assert forall|o: CrateIdView|
                    #[trigger] extras@.contains_key(o) && extras@[o].package_id@ == pid@ && o != kb implies crate_id_lt(kb, o) by {
                    let j = choose|j: int| 0 <= j < keys_of(ps).len() && keys_of(ps)[j] == o;
                    lemma_map_of_index(ps, j);
                }
            },
            None => {
                assert forall|o: CrateIdView| #[trigger] extras@.contains_key(o) implies extras@[o].package_id@ != pid@ by {
                    let j = choose|j: int| 0 <= j < keys_of(ps).len() && keys_of(ps)[j] == o;
                    lemma_map_of_index(ps, j);
                }
            },
        }
    }
    best
}

pub(crate) fn set_known(s: &OrdSet<Dependency>, packages: &KeyMap<PackageId, Package>) -> (r: bool)
    ensures
        r == forall|d: DependencyView| #[trigger] s@.contains(d) ==> packages@.contains_key(d.package_id),
{
    let mut i: usize = 0;
    proof {
        s.lemma_view();
    }
    while i < s.len()
        invariant
            i <= s.elems().len(),
            s@ == s.elems().to_set(),
            forall|j: int| 0 <= j < i ==> packages@.contains_key(#[trigger] s.elems()[j].package_id),
        decreases s.elems().len() - i,
    {
        if !packages.contains_key(&s.get(i).package_id) {
            proof {
                assert(s.elems().contains(s.elems()[i as int]));
            }
            return false;
        }
        i = i + 1;
    }
    proof {
        assert forall|d: DependencyView| #[trigger] s@.contains(d) implies packages@.contains_key(d.package_id) by {
            let j = choose|j: int| 0 <= j < s.elems().len() && s.elems()[j] == d;
        }
    }
    true
}

/// Whether every edge of an attribute leads to a known package.
pub(crate) fn all_deps_known(sel: &SelectSet<Dependency>, packages: &KeyMap<PackageId, Package>) -> (r: bool)
    ensures
        r == deps_known(sel@, packages@),
{
    if !set_known(&sel.common, packages) {
        proof {
            let d = choose|d: DependencyView| sel.common@.contains(d) && !packages@.contains_key(d.package_id);
            assert(sel@.0.contains(d));
        }
        return false;
    }
    let mut i: usize = 0;
    let _ = sel.selects.len();
    let ghost ps = sel.selects.pairs();
    proof {
        sel.selects.lemma_pairs();
        lemma_map_of_dom(ps);
    }
    while i < sel.selects.len()
        invariant
            i <= ps.len(),
            ps == sel.selects.pairs(),
            sel.selects@ == map_of(ps),
            keys_of(ps).no_duplicates(),
            forall|d: DependencyView| #[trigger] sel@.0.contains(d) ==> packages@.contains_key(d.package_id),
            forall|j: int, d: DependencyView| 0 <= j < i && #[trigger] ps[j].1.contains(d) ==> packages@.contains_key(d.package_id),
        decreases ps.len() - i,
    {
        let vals = sel.selects.value_at(i);
        if !set_known(vals, packages) {
            proof {
                let d = choose|d: DependencyView| vals@.contains(d) && !packages@.contains_key(d.package_id);
                lemma_map_of_index(ps, i as int);
                assert(sel@.1.contains_key(ps[i as int].0) && sel@.1[ps[i as int].0].contains(d));
            }
            return false;
        }
        i = i + 1;
    }
    proof {
        assert forall|c: Seq<char>, d: DependencyView| sel@.1.contains_key(c) && #[trigger] sel@.1[c].contains(d)
            implies packages@.contains_key(d.package_id) by {
            let j = choose|j: int| 0 <= j < keys_of(ps).len() && keys_of(ps)[j] == c;
            lemma_map_of_index(ps, j);
            assert(ps[j].1.contains(d));
        }
    }
    true
}

} // verus!
