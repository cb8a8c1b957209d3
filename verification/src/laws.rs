//! What holds of every crate context and of every merge of attributes.
use vstd::prelude::*;
use crate::config::{CrateIdView, GenBinariesView, PairedExtras};
use crate::crate_context::{
    CrateContextView, TextSelectView, context_view, gen_binaries_of, includes_build_script, package_of,
    package_targets,
};
use crate::dependencies::package_extra_of;
use crate::overrides::with_overrides_view;
use crate::targets::{
    build_script_attrs_of, build_script_of, is_first_build_script, lib_attrs, lib_target_unique, library_name,
    rule_root, rules_of, target_rule, target_rules,
};
use crate::crate_context::{RuleView, TargetAttributesView};
use crate::metadata::{CrateAnnotation, Package, SourceAnnotationView};
use crate::select::{merged_at, merged_set_view, set_at};
use crate::utils::module_name;

verus! {

/// Where no settings are attached to a crate's name and version, applying settings
/// changes nothing.
pub proof fn law_no_setting_no_change(ctx: CrateContextView, extras: Map<CrateIdView, PairedExtras>)
    requires
        !extras.contains_key(CrateIdView { name: ctx.name, version: ctx.version }),
    ensures
        with_overrides_view(ctx, extras) == ctx,
{
}

/// Applying settings never changes which crate a context is of, which targets it renders,
/// its library target, its license, or its dependencies; and it only adds to the sets of
/// files and toolchains.
pub proof fn law_overrides_keep_identity(ctx: CrateContextView, extras: Map<CrateIdView, PairedExtras>)
    ensures
        ({
            let r = with_overrides_view(ctx, extras);
            &&& r.name == ctx.name
            &&& r.version == ctx.version
            &&& r.targets == ctx.targets
            &&& r.library_target_name == ctx.library_target_name
            &&& r.license == ctx.license
            &&& r.common_attrs.deps == ctx.common_attrs.deps
            &&& r.common_attrs.deps_dev == ctx.common_attrs.deps_dev
            &&& r.common_attrs.proc_macro_deps == ctx.common_attrs.proc_macro_deps
            &&& r.common_attrs.proc_macro_deps_dev == ctx.common_attrs.proc_macro_deps_dev
            &&& ctx.common_attrs.data_glob.subset_of(r.common_attrs.data_glob)
            &&& ctx.common_attrs.compile_data_glob.subset_of(r.common_attrs.compile_data_glob)
            &&& (r.build_script_attrs is Some <==> ctx.build_script_attrs is Some)
            &&& ctx.build_script_attrs matches Some(b) ==> {
                &&& b.toolchains.subset_of(r.build_script_attrs->0.toolchains)
                &&& b.data_glob.subset_of(r.build_script_attrs->0.data_glob)
                &&& b.deps == r.build_script_attrs->0.deps
            }
            &&& ctx.disable_pipelining ==> r.disable_pipelining
        }),
{
}

/// Merging two set-valued attributes loses no value: each value of either side stays
/// common, or stays on its configuration.
pub proof fn law_merge_keeps_values<A>(
    l: (Set<A>, Map<Seq<char>, Set<A>>),
    r: (Set<A>, Map<Seq<char>, Set<A>>),
    cfg: Seq<char>,
    v: A,
)
    ensures
        ({
            let m = merged_set_view(l, r);
            &&& (l.0.contains(v) || r.0.contains(v)) ==> m.0.contains(v)
            &&& (set_at(l.1, cfg).contains(v) || set_at(r.1, cfg).contains(v)) ==> (m.0.contains(v)
                || set_at(m.1, cfg).contains(v))
            &&& m.1.contains_key(cfg) ==> !m.1[cfg].is_empty() && m.1[cfg].disjoint(m.0)
        }),
{
    let m = merged_set_view(l, r);
    let c = l.0.union(r.0);
    if (set_at(l.1, cfg).contains(v) || set_at(r.1, cfg).contains(v)) && !m.0.contains(v) {
        assert(merged_at(l.1, r.1, c, cfg).contains(v));
    }
    if m.1.contains_key(cfg) {
        let s = merged_at(l.1, r.1, c, cfg);
        assert(s != Set::<A>::empty());
        if s.is_empty() {
            assert(s =~= Set::<A>::empty());
        }
    }
}

/// Every rendered target but a binary is named by its module name, which has no `-`.
pub proof fn law_module_names(p: Package, root: Seq<char>, gen: GenBinariesView, incl: bool)
    ensures
        forall|x: RuleView| #[trigger] rules_of(p, root, gen, incl).contains(x) ==> match x {
            RuleView::Binary(_) => true,
            RuleView::Library(a) => !a.crate_name.contains('-'),
            RuleView::ProcMacro(a) => !a.crate_name.contains('-'),
            RuleView::BuildScript(a) => !a.crate_name.contains('-'),
        },
{
    let ts = p.targets@;
    assert forall|x: RuleView| #[trigger] rules_of(p, root, gen, incl).contains(x) implies match x {
        RuleView::Binary(_) => true,
        RuleView::Library(a) => !a.crate_name.contains('-'),
        RuleView::ProcMacro(a) => !a.crate_name.contains('-'),
        RuleView::BuildScript(a) => !a.crate_name.contains('-'),
    } by {
        let i = choose|i: int| 0 <= i < ts.len() && #[trigger] target_rules(ts[i], ts[i].kind@.len() as int, root, gen, incl).contains(x);
        let t = ts[i];
        let j = choose|j: int| 0 <= j < t.kind@.len() && target_rule(t, #[trigger] t.kind@[j]@, root, gen, incl) == Some(x);
        let n = module_name(t.name@);
        if n.contains('-') {
            let k = choose|k: int| 0 <= k < n.len() && n[k] == '-';
        }
    }
}

/// A rendered crate root is written with `/` as its only separator.
pub proof fn law_crate_roots_use_slashes(p: Package, root: Seq<char>, gen: GenBinariesView, incl: bool)
    ensures
        forall|x: RuleView| #[trigger] rules_of(p, root, gen, incl).contains(x) ==> match rule_root(x) {
            Some(r) => !r.contains('\\'),
            None => true,
        },
{
    let ts = p.targets@;
    assert forall|x: RuleView| #[trigger] rules_of(p, root, gen, incl).contains(x) implies match rule_root(x) {
        Some(r) => !r.contains('\\'),
        None => true,
    } by {
        let i = choose|i: int| 0 <= i < ts.len() && #[trigger] target_rules(ts[i], ts[i].kind@.len() as int, root, gen, incl).contains(x);
        let t = ts[i];
        let j = choose|j: int| 0 <= j < t.kind@.len() && target_rule(t, #[trigger] t.kind@[j]@, root, gen, incl) == Some(x);
        match rule_root(x) {
            Some(r) => {
                if r.contains('\\') {
                    let k = choose|k: int| 0 <= k < r.len() && r[k] == '\\';
                }
            },
            None => {},
        }
    }
}

/// A crate's build script is rendered only where build scripts are included, or the crate's
/// settings ask for it.
pub proof fn law_build_script_needs_inclusion(
    annotation: CrateAnnotation,
    packages: Map<Seq<char>, Package>,
    source_annotations: Map<Seq<char>, SourceAnnotationView>,
    extras: Map<CrateIdView, PairedExtras>,
    crate_features: Map<CrateIdView, TextSelectView>,
    include_binaries: bool,
    include_build_scripts: bool,
)
    requires
        !includes_build_script(
            package_extra_of(extras, package_of(annotation, packages).id@),
            include_build_scripts,
        ),
    ensures
        ({
            let c = context_view(
                annotation,
                packages,
                source_annotations,
                extras,
                crate_features,
                include_binaries,
                include_build_scripts,
            );
            &&& c.build_script_attrs is None
            &&& forall|x: RuleView| #[trigger] c.targets.contains(x) ==> build_script_attrs_of(x) is None
        }),
{
    let package = package_of(annotation, packages);
    let targets = package_targets(annotation, packages, extras, include_binaries, include_build_scripts);
    let ts = package.targets@;
    let pe = package_extra_of(extras, package.id@);
    let root = crate::utils::parent_dir(package.manifest_path@)->0;
    let gen = gen_binaries_of(pe, include_binaries);
    let incl = includes_build_script(pe, include_build_scripts);
    assert forall|x: RuleView| #[trigger] targets.contains(x) implies build_script_attrs_of(x) is None by {
        let i = choose|i: int| 0 <= i < ts.len() && #[trigger] target_rules(ts[i], ts[i].kind@.len() as int, root, gen, incl).contains(x);
        let t = ts[i];
        let j = choose|j: int| 0 <= j < t.kind@.len() && target_rule(t, #[trigger] t.kind@[j]@, root, gen, incl) == Some(x);
    }
    if exists|a: TargetAttributesView| is_first_build_script(targets, a) {
        let a = choose|a: TargetAttributesView| is_first_build_script(targets, a);
        assert(build_script_attrs_of(RuleView::BuildScript(a)) is Some);
    }
}

/// A crate with a build script depends on that build script, and every generated target
/// includes all files of its package.
pub proof fn law_build_script_dependency(
    annotation: CrateAnnotation,
    packages: Map<Seq<char>, Package>,
    source_annotations: Map<Seq<char>, SourceAnnotationView>,
    extras: Map<CrateIdView, PairedExtras>,
    crate_features: Map<CrateIdView, TextSelectView>,
    include_binaries: bool,
    include_build_scripts: bool,
)
    ensures
        ({
            let c = context_view(
                annotation,
                packages,
                source_annotations,
                extras,
                crate_features,
                include_binaries,
                include_build_scripts,
            );
            let targets = package_targets(annotation, packages, extras, include_binaries, include_build_scripts);
            &&& build_script_of(targets) matches Some(a) ==> c.common_attrs.deps.0.contains(
                crate::crate_context::CrateDependencyView {
                    id: CrateIdView { name: c.name, version: c.version },
                    target: a.crate_name,
                    alias: None,
                },
            )
            &&& c.common_attrs.compile_data_glob.contains("**"@)
            &&& c.build_script_attrs matches Some(b) ==> b.data_glob.contains("**"@)
        }),
{
}

/// The library target name is the crate name of the crate's one library rule, and there is
/// one exactly where the crate has a library rule.
pub proof fn law_library_target_name(rules: Set<RuleView>, x: RuleView)
    requires
        lib_target_unique(rules),
        rules.contains(x),
        lib_attrs(x) is Some,
    ensures
        library_name(rules) == Some(lib_attrs(x)->0.crate_name),
{
}

} // verus!
