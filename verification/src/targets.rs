//! The Bazel rules that a package's targets render as.
use vstd::prelude::*;
use crate::config::GenBinariesView;
use crate::config::GenBinaries;
use crate::crate_context::{CrateContext, Rule, RuleView, TargetAttributes, TargetAttributesView};
use crate::keyed::{Dup, Keyed};
use crate::keymap::KeyMap;
use crate::metadata::{Node, Package, PackageId, Target, dup_opt};
use crate::order::{lemma_pair_lt_order, opt_text_lt, pair_lt, text_eq, text_lt};
use crate::ordset::OrdSet;
use crate::select::opt_view;
use crate::starlark::{Glob, GlobView, rust_srcs_view};
use crate::utils::{
    diff_paths, module_name, parent_dir, path_parent, relative_path, replace_char, sanitize_module_name,
    unix_path,
};

verus! {

/// The root source file of a target, relative to the package's directory `root`, with `/`
/// as the only separator.
pub open spec fn crate_root_of(t: Target, root: Seq<char>) -> Option<Seq<char>> {
    match relative_path(t.src_path@, root) {
        Some(p) => Some(unix_path(p)),
        None => None,
    }
}

/// Whether a binary target of this name is rendered.
pub open spec fn binary_wanted(gen: GenBinariesView, name: Seq<char>) -> bool {
    match gen {
        GenBinariesView::All => true,
        GenBinariesView::Listed(s) => s.contains(name),
    }
}

/// The rule, if any, that a target of a package renders as for one of its kinds.
pub open spec fn target_rule(t: Target, kind: Seq<char>, root: Seq<char>, gen: GenBinariesView, incl: bool) -> Option<RuleView> {
    let attrs = TargetAttributesView {
        crate_name: module_name(t.name@),
        crate_root: crate_root_of(t, root),
        srcs: rust_srcs_view(),
    };
    if incl && kind == "custom-build"@ {
        Some(RuleView::BuildScript(attrs))
    } else if kind == "proc-macro"@ {
        Some(RuleView::ProcMacro(attrs))
    } else if kind == "lib"@ || kind == "rlib"@ {
        Some(RuleView::Library(attrs))
    } else if kind == "bin"@ && binary_wanted(gen, t.name@) {
        Some(RuleView::Binary(TargetAttributesView { crate_name: t.name@, ..attrs }))
    } else {
        None
    }
}

/// The rules of the first `n` kinds of a target.
pub open spec fn target_rules(t: Target, n: int, root: Seq<char>, gen: GenBinariesView, incl: bool) -> Set<RuleView> {
    Set::new(|r: RuleView| exists|j: int| 0 <= j < n && target_rule(t, #[trigger] t.kind@[j]@, root, gen, incl) == Some(r))
}

/// The rules of the first `n` targets of a package.
pub open spec fn package_rules(ts: Seq<Target>, n: int, root: Seq<char>, gen: GenBinariesView, incl: bool) -> Set<RuleView> {
    Set::new(|r: RuleView| exists|i: int| 0 <= i < n && #[trigger] target_rules(ts[i], ts[i].kind@.len() as int, root, gen, incl).contains(r))
}

/// The rules of all targets of a package whose manifest lies in `root`.
pub open spec fn rules_of(p: Package, root: Seq<char>, gen: GenBinariesView, incl: bool) -> Set<RuleView> {
    package_rules(p.targets@, p.targets@.len() as int, root, gen, incl)
}

proof fn lemma_target_rules_step(t: Target, j: int, root: Seq<char>, gen: GenBinariesView, incl: bool)
    requires
        0 <= j < t.kind@.len(),
    ensures
        target_rules(t, j + 1, root, gen, incl) == match target_rule(t, t.kind@[j]@, root, gen, incl) {
            Some(r) => target_rules(t, j, root, gen, incl).insert(r),
            None => target_rules(t, j, root, gen, incl),
        },
{
    let a = target_rules(t, j + 1, root, gen, incl);
    let b = target_rules(t, j, root, gen, incl);
    match target_rule(t, t.kind@[j]@, root, gen, incl) {
        Some(r) => {
            assert forall|x: RuleView| a.contains(x) <==> b.insert(r).contains(x) by {
                if a.contains(x) && x != r {
                    let k = choose|k: int| 0 <= k < j + 1 && target_rule(t, #[trigger] t.kind@[k]@, root, gen, incl) == Some(x);
                    assert(k != j);
                }
            }
            assert(a =~= b.insert(r));
        },
        None => {
            assert forall|x: RuleView| a.contains(x) <==> b.contains(x) by {
                if a.contains(x) {
                    let k = choose|k: int| 0 <= k < j + 1 && target_rule(t, #[trigger] t.kind@[k]@, root, gen, incl) == Some(x);
                    assert(k != j);
                }
            }
            assert(a =~= b);
        },
    }
}

proof fn lemma_package_rules_step(ts: Seq<Target>, i: int, root: Seq<char>, gen: GenBinariesView, incl: bool)
    requires
        0 <= i < ts.len(),
    ensures
        package_rules(ts, i + 1, root, gen, incl) == package_rules(ts, i, root, gen, incl).union(
            target_rules(ts[i], ts[i].kind@.len() as int, root, gen, incl),
        ),
{
    let a = package_rules(ts, i + 1, root, gen, incl);
    let b = package_rules(ts, i, root, gen, incl);
    let c = target_rules(ts[i], ts[i].kind@.len() as int, root, gen, incl);
    assert forall|x: RuleView| a.contains(x) <==> b.union(c).contains(x) by {
        if a.contains(x) && !c.contains(x) {
            let k = choose|k: int| 0 <= k < i + 1 && #[trigger] target_rules(ts[k], ts[k].kind@.len() as int, root, gen, incl).contains(x);
            assert(k != i);
        }
    }
    assert(a =~= b.union(c));
}

/// The rule, if any, that a target renders as for one of its kinds.
pub(crate) fn rule_for(
    target: &Target,
    kind: &String,
    crate_name: &String,
    crate_root: &Option<String>,
    gen_binaries: &GenBinaries,
    include_build_scripts: bool,
    Ghost(root): Ghost<Seq<char>>,
) -> (r: Option<Rule>)
    requires
        crate_name@ == module_name(target.name@),
        opt_view(*crate_root) == crate_root_of(*target, root),
    ensures
        match r {
            Some(rule) => target_rule(*target, kind@, root, gen_binaries@, include_build_scripts) == Some(rule@),
            None => target_rule(*target, kind@, root, gen_binaries@, include_build_scripts) is None,
        },
{
    // Conditionally check to see if the dependencies is a build-script target
    if include_build_scripts && text_eq(kind.as_str(), "custom-build") {
        return Some(Rule::BuildScript(TargetAttributes {
            crate_name: crate_name.dup(),
            crate_root: dup_opt(crate_root),
            srcs: Glob::new_rust_srcs(),
        }));
    }
    // Check to see if the dependencies is a proc-macro target
    if text_eq(kind.as_str(), "proc-macro") {
        return Some(Rule::ProcMacro(TargetAttributes {
            crate_name: crate_name.dup(),
            crate_root: dup_opt(crate_root),
            srcs: Glob::new_rust_srcs(),
        }));
    }
    // Check to see if the dependencies is a library target
    if text_eq(kind.as_str(), "lib") || text_eq(kind.as_str(), "rlib") {
        return Some(Rule::Library(TargetAttributes {
            crate_name: crate_name.dup(),
            crate_root: dup_opt(crate_root),
            srcs: Glob::new_rust_srcs(),
        }));
    }
    // Check if the target kind is binary and is one of the ones included in gen_binaries
    if text_eq(kind.as_str(), "bin") && match gen_binaries {
        GenBinaries::All => true,
        GenBinaries::Listed(set) => set.contains(&target.name),
    } {
        return Some(Rule::Binary(TargetAttributes {
            crate_name: target.name.dup(),
            crate_root: dup_opt(crate_root),
            srcs: Glob::new_rust_srcs(),
        }));
    }
    None
}

/// The place of a rule's kind in the order of rules: libraries, procedural macros,
/// binaries, build scripts.
pub open spec fn rule_rank(r: RuleView) -> int {
    match r {
        RuleView::Library(_) => 0,
        RuleView::ProcMacro(_) => 1,
        RuleView::Binary(_) => 2,
        RuleView::BuildScript(_) => 3,
    }
}

/// The attributes of a rule.
pub open spec fn rule_attrs(r: RuleView) -> TargetAttributesView {
    match r {
        RuleView::Library(a) => a,
        RuleView::ProcMacro(a) => a,
        RuleView::Binary(a) => a,
        RuleView::BuildScript(a) => a,
    }
}

/// Whether the rule `a` comes before the rule `b`: by kind, then by crate name, then by crate
/// root. Among rules with the same source files this is the order that the derived `Ord` of
/// `Rule` gives, so that, for one, binary targets come out in alphanumeric order.
pub open spec fn rule_lt(a: RuleView, b: RuleView) -> bool {
    rule_rank(a) < rule_rank(b) || (rule_rank(a) == rule_rank(b) && pair_lt(
        rule_attrs(a).crate_name,
        rule_attrs(a).crate_root,
        rule_attrs(b).crate_name,
        rule_attrs(b).crate_root,
    ))
}

/// Whether a list of rules is in strictly increasing rule order.
pub open spec fn rules_sorted(s: Seq<RuleView>) -> bool {
    forall|i: int, j: int| 0 <= i < j < s.len() ==> rule_lt(#[trigger] s[i], #[trigger] s[j])
}

pub proof fn lemma_rule_order(a: RuleView, b: RuleView, c: RuleView)
    ensures
        !rule_lt(a, a),
        rule_lt(a, b) && rule_lt(b, c) ==> rule_lt(a, c),
        rule_lt(a, b) ==> !rule_lt(b, a),
        a != b && rule_srcs(a) == rule_srcs(b) ==> rule_lt(a, b) || rule_lt(b, a),
{
    let x = rule_attrs(a);
    let y = rule_attrs(b);
    let z = rule_attrs(c);
    lemma_pair_lt_order(x.crate_name, x.crate_root, y.crate_name, y.crate_root, z.crate_name, z.crate_root);
    if a != b && rule_srcs(a) == rule_srcs(b) && rule_rank(a) == rule_rank(b) && x.crate_name == y.crate_name
        && x.crate_root == y.crate_root {
        assert(x =~= y);
    }
}

fn rule_rank_exec(r: &Rule) -> (k: u8)
    ensures
        k == rule_rank(r@),
{
    match r {
        Rule::Library(_) => 0,
        Rule::ProcMacro(_) => 1,
        Rule::Binary(_) => 2,
        Rule::BuildScript(_) => 3,
    }
}

fn rule_attrs_exec(r: &Rule) -> (a: &TargetAttributes)
    ensures
        a@ == rule_attrs(r@),
{
    match r {
        Rule::Library(a) => a,
        Rule::ProcMacro(a) => a,
        Rule::Binary(a) => a,
        Rule::BuildScript(a) => a,
    }
}

/// Whether the rule `a` comes before the rule `b`.
fn rule_less(a: &Rule, b: &Rule) -> (r: bool)
    ensures
        r == rule_lt(a@, b@),
{
    let ka = rule_rank_exec(a);
    let kb = rule_rank_exec(b);
    if ka != kb {
        return ka < kb;
    }
    let x = rule_attrs_exec(a);
    let y = rule_attrs_exec(b);
    text_lt(x.crate_name.as_str(), y.crate_name.as_str()) || (text_eq(x.crate_name.as_str(), y.crate_name.as_str())
        && opt_text_lt(&x.crate_root, &y.crate_root))
}

/// Adds a rule, keeping the rules in rule order.
fn insert_sorted(rules: &mut OrdSet<Rule>, rule: Rule)
    requires
        rules_sorted(old(rules).elems()),
        forall|x: RuleView| #[trigger] old(rules)@.contains(x) ==> rule_srcs(x) == rust_srcs_view(),
        rule_srcs(rule@) == rust_srcs_view(),
    ensures
        final(rules)@ == old(rules)@.insert(rule@),
        rules_sorted(final(rules).elems()),
{
    if rules.contains(&rule) {
        assert(old(rules)@.insert(rule@) =~= old(rules)@);
        return;
    }
    let ghost e = rules.elems();
    proof {
        rules.lemma_view();
    }
    let n = rules.len();
    let mut j: usize = 0;
    while j < n && !rule_less(&rule, rules.get(j))
        invariant
            j <= n,
            n == e.len(),
            e == rules.elems(),
            rules@ == e.to_set(),
            !rules@.contains(rule@),
            forall|x: RuleView| #[trigger] rules@.contains(x) ==> rule_srcs(x) == rust_srcs_view(),
            rule_srcs(rule@) == rust_srcs_view(),
            forall|k: int| 0 <= k < j ==> rule_lt(#[trigger] e[k], rule@),
        decreases n - j,
    {
        proof {
            assert(e.contains(e[j as int]));
            lemma_rule_order(e[j as int], rule@, rule@);
        }
        j = j + 1;
    }
    rules.insert_at(j, rule);
    proof {
        let x = rule@;
        let s = e.insert(j as int, x);
        assert forall|a: int, b: int| 0 <= a < b < s.len() implies rule_lt(#[trigger] s[a], #[trigger] s[b]) by {
            if b == j {
                assert(s[a] == e[a]);
            } else if a == j {
                assert(s[b] == e[b - 1]);
                assert(j < n);
                if b - 1 > j {
                    lemma_rule_order(x, e[j as int], e[b - 1]);
                }
            } else {
                let oa = if a < j { a } else { a - 1 };
                let ob = if b < j { b } else { b - 1 };
                assert(s[a] == e[oa]);
                assert(s[b] == e[ob]);
                if a < j && b > j {
                    lemma_rule_order(e[oa], x, e[ob]);
                    if j < n {
                        assert(rule_lt(x, e[j as int]));
                        if ob > j {
                            lemma_rule_order(x, e[j as int], e[ob]);
                        }
                    }
                }
            }
        }
    }
}

impl CrateContext {
    /// Collect all Bazel targets that should be generated for a particular Package
    pub(crate) fn collect_targets(
        node: &Node,
        packages: &KeyMap<PackageId, Package>,
        gen_binaries: &GenBinaries,
        include_build_scripts: bool,
    ) -> (r: OrdSet<Rule>)
        requires
            packages@.contains_key(node.id@),
            parent_dir(packages@[node.id@].manifest_path@) is Some,
        ensures
            r@ == rules_of(
                packages@[node.id@],
                parent_dir(packages@[node.id@].manifest_path@)->0,
                gen_binaries@,
                include_build_scripts,
            ),
            // The rules come out in rule order, as those of a `BTreeSet<Rule>` do.
            rules_sorted(r.elems()),
    {
        let package = match packages.get(&node.id) {
            Some(p) => p,
            None => {
                return OrdSet::new();
            },
        };
        let package_root = match path_parent(&package.manifest_path) {
            Some(root) => root,
            None => {
                return OrdSet::new();
            },
        };
        let ghost root = package_root@;
        let ghost gen = gen_binaries@;
        let ghost ts = package.targets@;
        let mut rules: OrdSet<Rule> = OrdSet::new();
        proof {
            assert(rules.elems().len() == 0);
            assert(package_rules(ts, 0, root, gen, include_build_scripts) =~= Set::<RuleView>::empty());
        }
        let mut i: usize = 0;
        while i < package.targets.len()
            invariant
                i <= ts.len(),
                ts == package.targets@,
                root == package_root@,
                gen == gen_binaries@,
                rules@ == package_rules(ts, i as int, root, gen, include_build_scripts),
                rules_sorted(rules.elems()),
                forall|x: RuleView| #[trigger] rules@.contains(x) ==> rule_srcs(x) == rust_srcs_view(),
            decreases ts.len() - i,
        {
            let target = &package.targets[i];
            // The package graph and resolve graph of cargo metadata have different
            // representations for the crate names, so the package target names are always
            // sanitized to align when rendering.
            let crate_name = sanitize_module_name(target.name.as_str());
            // Locate the crate's root source file relative to the package root normalized for unix
            let crate_root = match diff_paths(target.src_path.as_str(), package_root.as_str()) {
                Some(p) => Some(replace_char(p.as_str(), '\\', '/')),
                None => None,
            };
            let ghost before = rules@;
            proof {
                assert(target_rules(*target, 0, root, gen, include_build_scripts) =~= Set::<RuleView>::empty());
                assert(before =~= before.union(target_rules(*target, 0, root, gen, include_build_scripts)));
            }
            let mut j: usize = 0;
            while j < target.kind.len()
                invariant
                    j <= target.kind@.len(),
                    crate_name@ == module_name(target.name@),
                    opt_view(crate_root) == crate_root_of(*target, root),
                    gen == gen_binaries@,
                    rules@ == before.union(target_rules(*target, j as int, root, gen, include_build_scripts)),
                    rules_sorted(rules.elems()),
                    forall|x: RuleView| #[trigger] rules@.contains(x) ==> rule_srcs(x) == rust_srcs_view(),
                decreases target.kind@.len() - j,
            {
                let rule = rule_for(target, &target.kind[j], &crate_name, &crate_root, gen_binaries, include_build_scripts, Ghost(root));
                proof {
                    lemma_target_rules_step(*target, j as int, root, gen, include_build_scripts);
                }
                match rule {
                    Some(rule) => {
                        insert_sorted(&mut rules, rule);
                    },
                    None => {},
                }
                assert(rules@ =~= before.union(target_rules(*target, j + 1, root, gen, include_build_scripts)));
                j = j + 1;
            }
            proof {
                lemma_package_rules_step(ts, i as int, root, gen, include_build_scripts);
            }
            i = i + 1;
        }
        rules
    }
}

/// The attributes of a rule that a dependent of the crate links against (a library or a
/// procedural macro), if it is one.
pub open spec fn lib_attrs(r: RuleView) -> Option<TargetAttributesView> {
    match r {
        RuleView::Library(a) => Some(a),
        RuleView::ProcMacro(a) => Some(a),
        _ => None,
    }
}

/// Whether a crate has at most one library rule.
pub open spec fn lib_target_unique(rules: Set<RuleView>) -> bool {
    forall|a: RuleView, b: RuleView|
        rules.contains(a) && rules.contains(b) && #[trigger] lib_attrs(a) is Some && #[trigger] lib_attrs(b) is Some ==> a == b
}

/// The crate name of a crate's library rule, if it has one.
pub open spec fn library_name(rules: Set<RuleView>) -> Option<Seq<char>> {
    if exists|r: RuleView| rules.contains(r) && #[trigger] lib_attrs(r) is Some {
        Some(lib_attrs(choose|r: RuleView| rules.contains(r) && #[trigger] lib_attrs(r) is Some)->0.crate_name)
    } else {
        None
    }
}

pub(crate) fn lib_attrs_of(r: &Rule) -> (a: Option<&TargetAttributes>)
    ensures
        match a {
            Some(x) => lib_attrs(r@) == Some(x@),
            None => lib_attrs(r@) is None,
        },
{
    match r {
        Rule::ProcMacro(attrs) => Some(attrs),
        Rule::Library(attrs) => Some(attrs),
        _ => None,
    }
}

/// The crate name of the library rule among `targets`: `None` where there are two library
/// rules, else `Some` of the name, if there is one.
pub(crate) fn library_target_name_of(targets: &OrdSet<Rule>) -> (r: Option<Option<String>>)
    ensures
        r is Some <==> lib_target_unique(targets@),
        r matches Some(n) ==> opt_view(n) == library_name(targets@),
{
    let mut found: Option<usize> = None;
    let mut i: usize = 0;
    let _ = targets.len();
    proof {
        targets.lemma_view();
    }
    let ghost es = targets.elems();
    while i < targets.len()
        invariant
            i <= es.len(),
            es == targets.elems(),
            es.no_duplicates(),
            targets@ == es.to_set(),
            match found {
                Some(f) => f < i && lib_attrs(es[f as int]) is Some
                    && forall|j: int| 0 <= j < i && j != f ==> #[trigger] lib_attrs(es[j]) is None,
                None => forall|j: int| 0 <= j < i ==> #[trigger] lib_attrs(es[j]) is None,
            },
        decreases es.len() - i,
    {
        if lib_attrs_of(targets.get(i)).is_some() {
            match found {
                Some(f) => {
                    proof {
                        assert(es[f as int] != es[i as int]);
                        assert(targets@.contains(es[f as int]));
                        assert(targets@.contains(es[i as int]));
                        assert(!lib_target_unique(targets@));
                    }
                    return None;
                },
                None => {
                    found = Some(i);
                },
            }
        }
        i = i + 1;
    }
    match found {
        Some(f) => {
            let name = match lib_attrs_of(targets.get(f)) {
                Some(attrs) => attrs.crate_name.dup(),
                None => String::new(),
            };
            proof {
                assert(targets@.contains(es[f as int]));
                assert forall|a: RuleView| targets@.contains(a) && #[trigger] lib_attrs(a) is Some implies a == es[f as int] by {
                    let j = choose|j: int| 0 <= j < es.len() && es[j] == a;
                }
                let c = choose|r: RuleView| targets@.contains(r) && #[trigger] lib_attrs(r) is Some;
                assert(c == es[f as int]);
            }
            Some(Some(name))
        },
        None => {
            proof {
                assert forall|a: RuleView| targets@.contains(a) implies #[trigger] lib_attrs(a) is None by {
                    let j = choose|j: int| 0 <= j < es.len() && es[j] == a;
                }
            }
            Some(None)
        },
    }
}

/// The attributes of a rule if it renders a build script.
pub open spec fn build_script_attrs_of(r: RuleView) -> Option<TargetAttributesView> {
    match r {
        RuleView::BuildScript(a) => Some(a),
        _ => None,
    }
}

/// The source files of a rule.
pub open spec fn rule_srcs(r: RuleView) -> GlobView {
    match r {
        RuleView::Library(a) => a.srcs,
        RuleView::ProcMacro(a) => a.srcs,
        RuleView::Binary(a) => a.srcs,
        RuleView::BuildScript(a) => a.srcs,
    }
}

/// The crate root of a rule.
pub open spec fn rule_root(r: RuleView) -> Option<Seq<char>> {
    match r {
        RuleView::Library(a) => a.crate_root,
        RuleView::ProcMacro(a) => a.crate_root,
        RuleView::Binary(a) => a.crate_root,
        RuleView::BuildScript(a) => a.crate_root,
    }
}

/// Whether `a` is the first build script of `rules`, by crate name and then by crate root.
pub open spec fn is_first_build_script(rules: Set<RuleView>, a: TargetAttributesView) -> bool {
    &&& rules.contains(RuleView::BuildScript(a))
    &&& forall|o: RuleView|
        rules.contains(o) && #[trigger] build_script_attrs_of(o) is Some && o != RuleView::BuildScript(a)
            ==> pair_lt(a.crate_name, a.crate_root, build_script_attrs_of(o)->0.crate_name, build_script_attrs_of(o)->0.crate_root)
}

/// The attributes of the first build script of `rules`, if there is one.
pub open spec fn build_script_of(rules: Set<RuleView>) -> Option<TargetAttributesView> {
    if exists|a: TargetAttributesView| is_first_build_script(rules, a) {
        Some(choose|a: TargetAttributesView| is_first_build_script(rules, a))
    } else {
        None
    }
}

proof fn lemma_first_build_script_unique(rules: Set<RuleView>, a: TargetAttributesView, b: TargetAttributesView)
    requires
        is_first_build_script(rules, a),
        is_first_build_script(rules, b),
    ensures
        a == b,
{
    lemma_pair_lt_order(a.crate_name, a.crate_root, b.crate_name, b.crate_root, a.crate_name, a.crate_root);
    assert(build_script_attrs_of(RuleView::BuildScript(b)) is Some);
    assert(build_script_attrs_of(RuleView::BuildScript(a)) is Some);
}

pub(crate) fn build_script_attrs_exec(r: &Rule) -> (a: Option<&TargetAttributes>)
    ensures
        match a {
            Some(x) => build_script_attrs_of(r@) == Some(x@),
            None => build_script_attrs_of(r@) is None,
        },
{
    match r {
        Rule::BuildScript(attrs) => Some(attrs),
        _ => None,
    }
}

/// The first build script among `targets`, by crate name and then by crate root.
pub(crate) fn build_script_target(targets: &OrdSet<Rule>) -> (r: Option<&TargetAttributes>)
    requires
        forall|x: RuleView| #[trigger] targets@.contains(x) ==> rule_srcs(x) == rust_srcs_view(),
    ensures
        match r {
            Some(a) => build_script_of(targets@) == Some(a@),
            None => build_script_of(targets@) is None
                && forall|x: RuleView| #[trigger] targets@.contains(x) ==> build_script_attrs_of(x) is None,
        },
{
    let mut best: Option<usize> = None;
    let mut i: usize = 0;
    let _ = targets.len();
    proof {
        targets.lemma_view();
    }
    let ghost es = targets.elems();
    while i < targets.len()
        invariant
            i <= es.len(),
            es == targets.elems(),
            es.no_duplicates(),
            targets@ == es.to_set(),
            forall|x: RuleView| #[trigger] targets@.contains(x) ==> rule_srcs(x) == rust_srcs_view(),
            match best {
                Some(b) => {
                    &&& b < i
                    &&& build_script_attrs_of(es[b as int]) is Some
                    &&& forall|j: int| 0 <= j < i && j != b && #[trigger] build_script_attrs_of(es[j]) is Some ==> pair_lt(
                        build_script_attrs_of(es[b as int])->0.crate_name,
                        build_script_attrs_of(es[b as int])->0.crate_root,
                        build_script_attrs_of(es[j])->0.crate_name,
                        build_script_attrs_of(es[j])->0.crate_root,
                    )
                },
                None => forall|j: int| 0 <= j < i ==> #[trigger] build_script_attrs_of(es[j]) is None,
            },
        decreases es.len() - i,
    {
        match build_script_attrs_exec(targets.get(i)) {
            None => {},
            Some(cand) => match best {
                None => {
                    best = Some(i);
                },
                Some(b) => {
                    let cur = match build_script_attrs_exec(targets.get(b)) {
                        Some(x) => x,
                        None => cand,
                    };
                    let ghost ab = build_script_attrs_of(es[b as int])->0;
                    let ghost ai = build_script_attrs_of(es[i as int])->0;
                    proof {
                        assert(es[b as int] != es[i as int]);
                        assert(targets@.contains(es[b as int]));
                        assert(targets@.contains(es[i as int]));
                        lemma_pair_lt_order(ai.crate_name, ai.crate_root, ab.crate_name, ab.crate_root, ai.crate_name, ai.crate_root);
                        if ai.crate_name == ab.crate_name && ai.crate_root == ab.crate_root {
                            assert(ai =~= ab);
                        }
                        assert forall|j: int| 0 <= j < i && j != b && #[trigger] build_script_attrs_of(es[j]) is Some
                            && pair_lt(ai.crate_name, ai.crate_root, ab.crate_name, ab.crate_root) implies pair_lt(
                            ai.crate_name, ai.crate_root,
                            build_script_attrs_of(es[j])->0.crate_name, build_script_attrs_of(es[j])->0.crate_root) by {
                            let aj = build_script_attrs_of(es[j])->0;
                            lemma_pair_lt_order(ai.crate_name, ai.crate_root, ab.crate_name, ab.crate_root, aj.crate_name, aj.crate_root);
                        }
                    }
                    let less = text_lt(cand.crate_name.as_str(), cur.crate_name.as_str())
                        || (text_eq(cand.crate_name.as_str(), cur.crate_name.as_str())
                            && opt_text_lt(&cand.crate_root, &cur.crate_root));
                    if less {
                        best = Some(i);
                    }
                },
            },
        }
        i = i + 1;
    }
    match best {
        Some(b) => {
            let r = build_script_attrs_exec(targets.get(b));
            proof {
                let ab = build_script_attrs_of(es[b as int])->0;
                assert(es[b as int] == RuleView::BuildScript(ab));
                assert(targets@.contains(es[b as int]));
                assert forall|o: RuleView|
                    targets@.contains(o) && #[trigger] build_script_attrs_of(o) is Some && o != RuleView::BuildScript(ab)
                    implies pair_lt(ab.crate_name, ab.crate_root, build_script_attrs_of(o)->0.crate_name, build_script_attrs_of(o)->0.crate_root) by {
                    let j = choose|j: int| 0 <= j < es.len() && es[j] == o;
                }
                assert(is_first_build_script(targets@, ab));
                let c = choose|a: TargetAttributesView| is_first_build_script(targets@, a);
                lemma_first_build_script_unique(targets@, ab, c);
            }
            r
        },
        None => {
            proof {
                if exists|a: TargetAttributesView| is_first_build_script(targets@, a) {
                    let a = choose|a: TargetAttributesView| is_first_build_script(targets@, a);
                    let j = choose|j: int| 0 <= j < es.len() && es[j] == RuleView::BuildScript(a);
                    assert(build_script_attrs_of(es[j]) is Some);
                }
                assert forall|x: RuleView| #[trigger] targets@.contains(x) implies build_script_attrs_of(x) is None by {
                    let j = choose|j: int| 0 <= j < es.len() && es[j] == x;
                }
            }
            None
        },
    }
}

pub(crate) proof fn lemma_rules_srcs(p: Package, root: Seq<char>, gen: GenBinariesView, incl: bool)
    ensures
        forall|x: RuleView| #[trigger] rules_of(p, root, gen, incl).contains(x) ==> rule_srcs(x) == rust_srcs_view(),
{
    let ts = p.targets@;
    assert forall|x: RuleView| #[trigger] rules_of(p, root, gen, incl).contains(x) implies rule_srcs(x) == rust_srcs_view() by {
        let i = choose|i: int| 0 <= i < ts.len() && #[trigger] target_rules(ts[i], ts[i].kind@.len() as int, root, gen, incl).contains(x);
        let t = ts[i];
        let j = choose|j: int| 0 <= j < t.kind@.len() && target_rule(t, #[trigger] t.kind@[j]@, root, gen, incl) == Some(x);
    }
}

} // verus!
