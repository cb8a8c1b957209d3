//! What a crate's context holds of the crate graph it was made from.
use vstd::prelude::*;
use crate::config::{CrateIdView, PairedExtras};
use crate::crate_context::{CrateDependencyView, DepSelectView, TextSelectView, context_view};
use crate::metadata::{CrateAnnotation, DependencyView, Package, SourceAnnotationView};
use crate::select::{opt_view, set_at};
use crate::config::GenBinariesView;
use crate::crate_context::{RuleView, TargetAttributesView};
use crate::metadata::Target;
use crate::starlark::rust_srcs_view;
use crate::targets::{build_script_of, crate_root_of, rules_of, target_rule, target_rules};
use crate::utils::module_name;

verus! {

/// Whether `d` is what the edge `e` of the crate graph renders as: the name and version of
/// the package that the edge leads to, the module name of the edge's target, and the edge's
/// alias.
pub open spec fn renders_as(e: DependencyView, d: CrateDependencyView, packages: Map<Seq<char>, Package>) -> bool {
    &&& d.id.name == packages[e.package_id].name@
    &&& d.id.version == packages[e.package_id].version@
    &&& d.target == module_name(e.target_name)
    &&& d.alias == e.alias
}

/// Whether some edge of `s` renders as `d`.
pub open spec fn rendered_from(
    s: Set<DependencyView>,
    d: CrateDependencyView,
    packages: Map<Seq<char>, Package>,
) -> bool {
    exists|e: DependencyView| #[trigger] s.contains(e) && renders_as(e, d, packages)
}

/// Whether the dependency attribute `r` holds exactly what the edges of `s` render as: in
/// common, and on each configuration that `s` names, and on no other.
pub open spec fn renders_exactly(
    r: DepSelectView,
    s: (Set<DependencyView>, Map<Seq<char>, Set<DependencyView>>),
    packages: Map<Seq<char>, Package>,
) -> bool {
    &&& forall|d: CrateDependencyView| #[trigger] r.0.contains(d) <==> rendered_from(s.0, d, packages)
    &&& r.1.dom() == s.1.dom()
    &&& forall|c: Seq<char>, d: CrateDependencyView|
        s.1.contains_key(c) ==> (#[trigger] r.1[c].contains(d) <==> rendered_from(s.1[c], d, packages))
}

proof fn lemma_rendered_set(s: Set<DependencyView>, packages: Map<Seq<char>, Package>, d: CrateDependencyView)
    ensures
        crate::dependencies::crate_dep_set(s, packages).contains(d) <==> rendered_from(s, d, packages),
{
    let f = |e: DependencyView| crate::dependencies::crate_dep_view(e, packages);
    if rendered_from(s, d, packages) {
        let e = choose|e: DependencyView| #[trigger] s.contains(e) && renders_as(e, d, packages);
        assert(f(e) == d);
    }
}

proof fn lemma_renders_exactly(
    s: (Set<DependencyView>, Map<Seq<char>, Set<DependencyView>>),
    packages: Map<Seq<char>, Package>,
)
    ensures
        renders_exactly(crate::dependencies::crate_deps_view(s, packages), s, packages),
{
    let r = crate::dependencies::crate_deps_view(s, packages);
    assert forall|d: CrateDependencyView| #[trigger] r.0.contains(d) <==> rendered_from(s.0, d, packages) by {
        lemma_rendered_set(s.0, packages, d);
    }
    assert forall|c: Seq<char>, d: CrateDependencyView|
        s.1.contains_key(c) implies (#[trigger] r.1[c].contains(d) <==> rendered_from(s.1[c], d, packages)) by {
        lemma_rendered_set(s.1[c], packages, d);
    }
    assert(r.1.dom() =~= s.1.dom());
}

/// The dependency of a crate on its own build script, where the context renders one.
pub open spec fn is_build_script_dep(c: crate::crate_context::CrateContextView, d: CrateDependencyView) -> bool {
    match build_script_of(c.targets) {
        Some(a) => d == CrateDependencyView {
            id: CrateIdView { name: c.name, version: c.version },
            target: a.crate_name,
            alias: None,
        },
        None => false,
    }
}

/// A crate's context is of the crate's package: its name, version, edition and license,
/// and its source where one is known for the package (as given, where no settings are
/// attached to the crate); and it holds the crate's resolved features. Where no settings are attached to the crate,
/// its features are exactly the resolved ones (none where none were resolved); settings
/// only add to them, so every resolved feature stays, in common or on its configuration.
pub proof fn law_context_of_package(
    annotation: CrateAnnotation,
    packages: Map<Seq<char>, Package>,
    source_annotations: Map<Seq<char>, SourceAnnotationView>,
    extras: Map<CrateIdView, PairedExtras>,
    crate_features: Map<CrateIdView, TextSelectView>,
    include_binaries: bool,
    include_build_scripts: bool,
)
    ensures
        ({
            let p = packages[annotation.node.id@];
            let id = CrateIdView { name: p.name@, version: p.version@ };
            let c = context_view(
                annotation,
                packages,
                source_annotations,
                extras,
                crate_features,
                include_binaries,
                include_build_scripts,
            );
            let f = c.common_attrs.crate_features;
            &&& c.name == p.name@
            &&& c.version == p.version@
            &&& c.common_attrs.version == p.version@
            &&& c.common_attrs.edition == p.edition@
            &&& c.license == opt_view(p.license)
            &&& (c.repository is Some <==> source_annotations.contains_key(p.id@))
            &&& !extras.contains_key(id) ==> c.repository == if source_annotations.contains_key(p.id@) {
                Some(source_annotations[p.id@])
            } else {
                None
            }
            &&& !extras.contains_key(id) ==> f == if crate_features.contains_key(id) {
                crate_features[id]
            } else {
                (Set::<Seq<char>>::empty(), Map::<Seq<char>, Set<Seq<char>>>::empty())
            }
            &&& crate_features.contains_key(id) ==> forall|v: Seq<char>| #[trigger]
                crate_features[id].0.contains(v) ==> f.0.contains(v)
            &&& crate_features.contains_key(id) ==> forall|cfg: Seq<char>, v: Seq<char>| #[trigger]
                set_at(crate_features[id].1, cfg).contains(v) ==> f.0.contains(v) || set_at(f.1, cfg).contains(v)
        }),
{
    let p = packages[annotation.node.id@];
    let id = CrateIdView { name: p.name@, version: p.version@ };
    let base = crate::crate_context::base_context_view(
        annotation,
        packages,
        source_annotations,
        extras,
        crate_features,
        include_binaries,
        include_build_scripts,
    );
    if extras.contains_key(id) {
        let ce = extras[id].crate_extra;
        crate::settings_laws::law_common_settings_applied(base, extras);
        if crate_features.contains_key(id) {
            let f = context_view(
                annotation,
                packages,
                source_annotations,
                extras,
                crate_features,
                include_binaries,
                include_build_scripts,
            ).common_attrs.crate_features;
            assert forall|cfg: Seq<char>, v: Seq<char>| #[trigger]
                set_at(crate_features[id].1, cfg).contains(v) implies f.0.contains(v) || set_at(f.1, cfg).contains(v) by {
                if let Some(e) = ce.crate_features {
                    assert(crate::settings_laws::is_merge(f, crate_features[id], e@));
                }
            }
        }
    }
}

/// A crate's dev dependencies, proc-macro dependencies and proc-macro dev dependencies
/// hold exactly what the matching edges of the crate graph render as; its dependencies hold,
/// in common, what its normal edges render as and, where a build script is rendered, the
/// dependency on that build script, and nothing else; on each configuration, what a normal
/// edge of that configuration renders as is there or in common, and nothing else is there.
pub proof fn law_dependencies_rendered(
    annotation: CrateAnnotation,
    packages: Map<Seq<char>, Package>,
    source_annotations: Map<Seq<char>, SourceAnnotationView>,
    extras: Map<CrateIdView, PairedExtras>,
    crate_features: Map<CrateIdView, TextSelectView>,
    include_binaries: bool,
    include_build_scripts: bool,
)
    ensures
        ({
            let c = context_view(
                annotation,
                packages,
                source_annotations,
                extras,
                crate_features,
                include_binaries,
                include_build_scripts,
            );
            let deps = c.common_attrs.deps;
            let normal = annotation.deps.normal_deps@;
            &&& renders_exactly(c.common_attrs.deps_dev, annotation.deps.normal_dev_deps@, packages)
            &&& renders_exactly(c.common_attrs.proc_macro_deps, annotation.deps.proc_macro_deps@, packages)
            &&& renders_exactly(c.common_attrs.proc_macro_deps_dev, annotation.deps.proc_macro_dev_deps@, packages)
            &&& forall|d: CrateDependencyView| #[trigger] deps.0.contains(d) <==> rendered_from(normal.0, d, packages)
                || is_build_script_dep(c, d)
            &&& forall|cfg: Seq<char>, d: CrateDependencyView|
                #[trigger] rendered_from(set_at(normal.1, cfg), d, packages) ==> deps.0.contains(d) || set_at(
                    deps.1,
                    cfg,
                ).contains(d)
            &&& forall|cfg: Seq<char>, d: CrateDependencyView|
                #[trigger] set_at(deps.1, cfg).contains(d) ==> rendered_from(set_at(normal.1, cfg), d, packages)
        }),
{
    let normal = annotation.deps.normal_deps@;
    lemma_renders_exactly(annotation.deps.normal_dev_deps@, packages);
    lemma_renders_exactly(annotation.deps.proc_macro_deps@, packages);
    lemma_renders_exactly(annotation.deps.proc_macro_dev_deps@, packages);
    lemma_renders_exactly(normal, packages);
    let c = context_view(
        annotation,
        packages,
        source_annotations,
        extras,
        crate_features,
        include_binaries,
        include_build_scripts,
    );
    let base = crate::crate_context::base_context_view(
        annotation,
        packages,
        source_annotations,
        extras,
        crate_features,
        include_binaries,
        include_build_scripts,
    );
    let r = crate::dependencies::crate_deps_view(normal, packages);
    let deps = c.common_attrs.deps;
    assert(deps == base.common_attrs.deps);
    assert(c.targets == base.targets);
    assert forall|cfg: Seq<char>, d: CrateDependencyView|
        #[trigger] rendered_from(set_at(normal.1, cfg), d, packages) implies deps.0.contains(d) || set_at(
            deps.1,
            cfg,
        ).contains(d) by {
        lemma_rendered_set(set_at(normal.1, cfg), packages, d);
        if normal.1.contains_key(cfg) {
            assert(r.1[cfg].contains(d));
        }
        match build_script_of(c.targets) {
            Some(a) => {
                let sd = CrateDependencyView {
                    id: CrateIdView { name: c.name, version: c.version },
                    target: a.crate_name,
                    alias: None,
                };
                if !deps.0.contains(d) {
                    assert(crate::select::merged_at(Map::empty(), r.1, set![sd], cfg).contains(d));
                }
            },
            None => {},
        }
    }
    assert forall|cfg: Seq<char>, d: CrateDependencyView|
        #[trigger] set_at(deps.1, cfg).contains(d) implies rendered_from(set_at(normal.1, cfg), d, packages) by {
        lemma_rendered_set(set_at(normal.1, cfg), packages, d);
        match build_script_of(c.targets) {
            Some(a) => {
                let sd = CrateDependencyView {
                    id: CrateIdView { name: c.name, version: c.version },
                    target: a.crate_name,
                    alias: None,
                };
                assert(crate::select::merged_at(Map::empty(), r.1, set![sd], cfg).contains(d));
                assert(set_at(r.1, cfg).contains(d));
            },
            None => {
                assert(set_at(r.1, cfg).contains(d));
            },
        }
    }
}

/// Where a crate's build script is rendered, its dependencies, link dependencies and
/// proc-macro dependencies hold exactly what the crate's build, build-link and build
/// proc-macro edges render as, and it carries the package's `links` value.
pub proof fn law_build_script_dependencies_rendered(
    annotation: CrateAnnotation,
    packages: Map<Seq<char>, Package>,
    source_annotations: Map<Seq<char>, SourceAnnotationView>,
    extras: Map<CrateIdView, PairedExtras>,
    crate_features: Map<CrateIdView, TextSelectView>,
    include_binaries: bool,
    include_build_scripts: bool,
)
    ensures
        ({
            let c = context_view(
                annotation,
                packages,
                source_annotations,
                extras,
                crate_features,
                include_binaries,
                include_build_scripts,
            );
            &&& c.build_script_attrs is Some <==> build_script_of(c.targets) is Some
            &&& c.build_script_attrs matches Some(b) ==> {
                &&& renders_exactly(b.deps, annotation.deps.build_deps@, packages)
                &&& renders_exactly(b.link_deps, annotation.deps.build_link_deps@, packages)
                &&& renders_exactly(b.proc_macro_deps, annotation.deps.build_proc_macro_deps@, packages)
                &&& b.links == opt_view(packages[annotation.node.id@].links)
            }
        }),
{
    lemma_renders_exactly(annotation.deps.build_deps@, packages);
    lemma_renders_exactly(annotation.deps.build_link_deps@, packages);
    lemma_renders_exactly(annotation.deps.build_proc_macro_deps@, packages);
}

proof fn lemma_bin_kind()
    ensures
        "bin"@ != "custom-build"@,
        "bin"@ != "proc-macro"@,
        "bin"@ != "lib"@,
        "bin"@ != "rlib"@,
{
    reveal_strlit("bin");
    reveal_strlit("custom-build");
    reveal_strlit("proc-macro");
    reveal_strlit("lib");
    reveal_strlit("rlib");
    assert("bin"@.len() != "custom-build"@.len());
    assert("bin"@.len() != "proc-macro"@.len());
    assert("bin"@[0] != "lib"@[0]);
    assert("bin"@.len() != "rlib"@.len());
}

/// A target of kind `bin` renders as a binary exactly where binaries are all wanted or the
/// list of wanted binaries holds the target's own name, as the package writes it; the
/// binary is named by that name, not by its module name.
pub proof fn law_binary_target(t: Target, root: Seq<char>, gen: GenBinariesView, incl: bool)
    ensures
        target_rule(t, "bin"@, root, gen, incl) == if gen is All || gen->Listed_0.contains(t.name@) {
            Some(
                RuleView::Binary(
                    TargetAttributesView {
                        crate_name: t.name@,
                        crate_root: crate_root_of(t, root),
                        srcs: rust_srcs_view(),
                    },
                ),
            )
        } else {
            None::<RuleView>
        },
{
    lemma_bin_kind();
}

/// A package's binary rules are those of its `bin` targets whose names are wanted: each such
/// target renders as a binary of its own name, and each binary rule is of such a target.
pub proof fn law_binary_rules(p: Package, root: Seq<char>, gen: GenBinariesView, incl: bool)
    ensures
        forall|i: int, j: int|
            0 <= i < p.targets@.len() && 0 <= j < p.targets@[i].kind@.len() && #[trigger] p.targets@[i].kind@[j]@
                == "bin"@ && (gen is All || gen->Listed_0.contains(p.targets@[i].name@)) ==> rules_of(
                p,
                root,
                gen,
                incl,
            ).contains(
                RuleView::Binary(
                    TargetAttributesView {
                        crate_name: p.targets@[i].name@,
                        crate_root: crate_root_of(p.targets@[i], root),
                        srcs: rust_srcs_view(),
                    },
                ),
            ),
        forall|a: TargetAttributesView| #[trigger] rules_of(p, root, gen, incl).contains(RuleView::Binary(a)) ==> {
            &&& gen is All || gen->Listed_0.contains(a.crate_name)
            &&& exists|i: int, j: int|
                0 <= i < p.targets@.len() && 0 <= j < p.targets@[i].kind@.len() && #[trigger] p.targets@[i].kind@[j]@
                    == "bin"@ && p.targets@[i].name@ == a.crate_name && a.crate_root == crate_root_of(
                    p.targets@[i],
                    root,
                )
        },
{
    let ts = p.targets@;
    assert forall|i: int, j: int|
        0 <= i < ts.len() && 0 <= j < ts[i].kind@.len() && #[trigger] ts[i].kind@[j]@ == "bin"@ && (gen is All
            || gen->Listed_0.contains(ts[i].name@)) implies rules_of(p, root, gen, incl).contains(
        RuleView::Binary(
            TargetAttributesView {
                crate_name: ts[i].name@,
                crate_root: crate_root_of(ts[i], root),
                srcs: rust_srcs_view(),
            },
        ),
    ) by {
        law_binary_target(ts[i], root, gen, incl);
        let x = RuleView::Binary(
            TargetAttributesView { crate_name: ts[i].name@, crate_root: crate_root_of(ts[i], root), srcs: rust_srcs_view() },
        );
        assert(target_rule(ts[i], ts[i].kind@[j]@, root, gen, incl) == Some(x));
        assert(target_rules(ts[i], ts[i].kind@.len() as int, root, gen, incl).contains(x));
    }
    assert forall|a: TargetAttributesView| #[trigger] rules_of(p, root, gen, incl).contains(RuleView::Binary(a)) implies {
        &&& gen is All || gen->Listed_0.contains(a.crate_name)
        &&& exists|i: int, j: int|
            0 <= i < ts.len() && 0 <= j < ts[i].kind@.len() && #[trigger] ts[i].kind@[j]@ == "bin"@ && ts[i].name@
                == a.crate_name && a.crate_root == crate_root_of(ts[i], root)
    } by {
        let x = RuleView::Binary(a);
        let i = choose|i: int| 0 <= i < ts.len() && #[trigger] target_rules(ts[i], ts[i].kind@.len() as int, root, gen, incl).contains(x);
        let t = ts[i];
        let j = choose|j: int| 0 <= j < t.kind@.len() && target_rule(t, #[trigger] t.kind@[j]@, root, gen, incl) == Some(x);
        let k = t.kind@[j]@;
        if k != "bin"@ {
            assert(target_rule(t, k, root, gen, incl) != Some(x));
        }
        law_binary_target(t, root, gen, incl);
    }
}

proof fn lemma_kinds_differ()
    ensures
        "custom-build"@ != "proc-macro"@,
        "custom-build"@ != "lib"@,
        "custom-build"@ != "rlib"@,
        "proc-macro"@ != "lib"@,
        "proc-macro"@ != "rlib"@,
{
    reveal_strlit("custom-build");
    reveal_strlit("proc-macro");
    reveal_strlit("lib");
    reveal_strlit("rlib");
    assert("custom-build"@.len() != "proc-macro"@.len());
    assert("custom-build"@.len() != "lib"@.len());
    assert("custom-build"@.len() != "rlib"@.len());
    assert("proc-macro"@.len() != "lib"@.len());
    assert("proc-macro"@.len() != "rlib"@.len());
}

/// The rule that a target renders as for each of its kinds: a `lib` or `rlib` kind renders
/// as a library, and a `proc-macro` kind as a procedural macro, named by the target's
/// module name; a `custom-build` kind renders as a build script where build scripts are
/// included, and as nothing otherwise; a kind other than these and `bin` renders as nothing.
/// Each rule has the target's crate root and the package's Rust sources.
pub proof fn law_target_kinds(t: Target, kind: Seq<char>, root: Seq<char>, gen: GenBinariesView, incl: bool)
    ensures
        ({
            let attrs = TargetAttributesView {
                crate_name: module_name(t.name@),
                crate_root: crate_root_of(t, root),
                srcs: rust_srcs_view(),
            };
            &&& kind == "lib"@ ==> target_rule(t, kind, root, gen, incl) == Some(RuleView::Library(attrs))
            &&& kind == "rlib"@ ==> target_rule(t, kind, root, gen, incl) == Some(RuleView::Library(attrs))
            &&& kind == "proc-macro"@ ==> target_rule(t, kind, root, gen, incl) == Some(RuleView::ProcMacro(attrs))
            &&& kind == "custom-build"@ ==> target_rule(t, kind, root, gen, incl) == if incl {
                Some(RuleView::BuildScript(attrs))
            } else {
                None::<RuleView>
            }
            &&& kind != "lib"@ && kind != "rlib"@ && kind != "proc-macro"@ && kind != "custom-build"@ && kind
                != "bin"@ ==> target_rule(t, kind, root, gen, incl) is None
        }),
{
    lemma_kinds_differ();
    lemma_bin_kind();
}

/// A crate's library target name is the crate name of its library or procedural macro rule,
/// and there is none where it has neither.
pub proof fn law_library_target_of_context(
    annotation: CrateAnnotation,
    packages: Map<Seq<char>, Package>,
    source_annotations: Map<Seq<char>, SourceAnnotationView>,
    extras: Map<CrateIdView, PairedExtras>,
    crate_features: Map<CrateIdView, TextSelectView>,
    include_binaries: bool,
    include_build_scripts: bool,
)
    requires
        crate::crate_context::context_defined(annotation, packages, extras, include_binaries, include_build_scripts),
    ensures
        ({
            let c = context_view(
                annotation,
                packages,
                source_annotations,
                extras,
                crate_features,
                include_binaries,
                include_build_scripts,
            );
            &&& forall|a: TargetAttributesView| #[trigger] c.targets.contains(RuleView::Library(a))
                ==> c.library_target_name == Some(a.crate_name)
            &&& forall|a: TargetAttributesView| #[trigger] c.targets.contains(RuleView::ProcMacro(a))
                ==> c.library_target_name == Some(a.crate_name)
            &&& c.library_target_name is None ==> forall|a: TargetAttributesView|
                !#[trigger] c.targets.contains(RuleView::Library(a)) && !c.targets.contains(RuleView::ProcMacro(a))
            &&& c.library_target_name matches Some(n) ==> exists|a: TargetAttributesView| a.crate_name == n && (
                #[trigger] c.targets.contains(RuleView::Library(a)) || c.targets.contains(RuleView::ProcMacro(a)))
        }),
{
    let c = context_view(
        annotation,
        packages,
        source_annotations,
        extras,
        crate_features,
        include_binaries,
        include_build_scripts,
    );
    assert forall|a: TargetAttributesView| #[trigger] c.targets.contains(RuleView::Library(a))
        implies c.library_target_name == Some(a.crate_name) by {
        assert(crate::targets::lib_attrs(RuleView::Library(a)) is Some);
    }
    assert forall|a: TargetAttributesView| #[trigger] c.targets.contains(RuleView::ProcMacro(a))
        implies c.library_target_name == Some(a.crate_name) by {
        assert(crate::targets::lib_attrs(RuleView::ProcMacro(a)) is Some);
    }
    assert forall|a: TargetAttributesView|
        c.library_target_name is None implies !#[trigger] c.targets.contains(RuleView::Library(a)) && !c.targets.contains(
        RuleView::ProcMacro(a)) by {
        assert(crate::targets::lib_attrs(RuleView::Library(a)) is Some);
        assert(crate::targets::lib_attrs(RuleView::ProcMacro(a)) is Some);
    }
    if c.library_target_name is Some {
        let x = choose|r: RuleView| c.targets.contains(r) && #[trigger] crate::targets::lib_attrs(r) is Some;
        let a = crate::targets::lib_attrs(x)->0;
        assert(c.targets.contains(RuleView::Library(a)) || c.targets.contains(RuleView::ProcMacro(a)));
    }
}

/// Which binaries and build scripts a crate renders. Where the crate's settings choose no
/// binaries, every `bin` target renders as a binary of its own name if `include_binaries`
/// holds, and none does otherwise; where they choose all, every `bin` target renders; where
/// they list binaries, only listed names are rendered.
/// Where build scripts are included (the crate's setting, else `include_build_scripts`),
/// every `custom-build` target renders as a build script.
pub proof fn law_binaries_and_build_scripts(
    annotation: CrateAnnotation,
    packages: Map<Seq<char>, Package>,
    source_annotations: Map<Seq<char>, SourceAnnotationView>,
    extras: Map<CrateIdView, PairedExtras>,
    crate_features: Map<CrateIdView, TextSelectView>,
    include_binaries: bool,
    include_build_scripts: bool,
)
    ensures
        ({
            let p = packages[annotation.node.id@];
            let ts = p.targets@;
            let root = crate::utils::parent_dir(p.manifest_path@)->0;
            let pe = crate::dependencies::package_extra_of(extras, p.id@);
            let no_choice = pe is None || pe->0.crate_extra.gen_binaries is None;
            let c = context_view(
                annotation,
                packages,
                source_annotations,
                extras,
                crate_features,
                include_binaries,
                include_build_scripts,
            );
            &&& no_choice && !include_binaries ==> forall|a: TargetAttributesView|
                !#[trigger] c.targets.contains(RuleView::Binary(a))
            &&& no_choice && include_binaries ==> forall|i: int, j: int|
                0 <= i < ts.len() && 0 <= j < ts[i].kind@.len() && #[trigger] ts[i].kind@[j]@ == "bin"@
                    ==> c.targets.contains(
                    RuleView::Binary(
                        TargetAttributesView {
                            crate_name: ts[i].name@,
                            crate_root: crate_root_of(ts[i], root),
                            srcs: rust_srcs_view(),
                        },
                    ),
                )
            &&& pe matches Some(x) ==> x.crate_extra.gen_binaries matches Some(
                crate::config::GenBinaries::Listed(s),
            ) ==> forall|a: TargetAttributesView| #[trigger] c.targets.contains(RuleView::Binary(a)) ==> s@.contains(
                a.crate_name,
            )
            &&& pe matches Some(x) ==> x.crate_extra.gen_binaries matches Some(crate::config::GenBinaries::All)
                ==> forall|i: int, j: int|
                0 <= i < ts.len() && 0 <= j < ts[i].kind@.len() && #[trigger] ts[i].kind@[j]@ == "bin"@
                    ==> c.targets.contains(
                    RuleView::Binary(
                        TargetAttributesView {
                            crate_name: ts[i].name@,
                            crate_root: crate_root_of(ts[i], root),
                            srcs: rust_srcs_view(),
                        },
                    ),
                )
            &&& (match pe {
                Some(x) => match x.crate_extra.gen_build_script {
                    Some(b) => b,
                    None => include_build_scripts,
                },
                None => include_build_scripts,
            }) ==> forall|i: int, j: int|
                0 <= i < ts.len() && 0 <= j < ts[i].kind@.len() && #[trigger] ts[i].kind@[j]@ == "custom-build"@
                    ==> c.targets.contains(
                    RuleView::BuildScript(
                        TargetAttributesView {
                            crate_name: module_name(ts[i].name@),
                            crate_root: crate_root_of(ts[i], root),
                            srcs: rust_srcs_view(),
                        },
                    ),
                )
        }),
{
    let p = packages[annotation.node.id@];
    let ts = p.targets@;
    let root = crate::utils::parent_dir(p.manifest_path@)->0;
    let pe = crate::dependencies::package_extra_of(extras, p.id@);
    let gen = crate::crate_context::gen_binaries_of(pe, include_binaries);
    let incl = crate::crate_context::includes_build_script(pe, include_build_scripts);
    law_binary_rules(p, root, gen, incl);
    assert forall|i: int, j: int|
        0 <= i < ts.len() && 0 <= j < ts[i].kind@.len() && #[trigger] ts[i].kind@[j]@ == "custom-build"@ && incl
            implies rules_of(p, root, gen, incl).contains(
        RuleView::BuildScript(
            TargetAttributesView {
                crate_name: module_name(ts[i].name@),
                crate_root: crate_root_of(ts[i], root),
                srcs: rust_srcs_view(),
            },
        ),
    ) by {
        law_target_kinds(ts[i], ts[i].kind@[j]@, root, gen, incl);
        let x = RuleView::BuildScript(
            TargetAttributesView {
                crate_name: module_name(ts[i].name@),
                crate_root: crate_root_of(ts[i], root),
                srcs: rust_srcs_view(),
            },
        );
        assert(target_rules(ts[i], ts[i].kind@.len() as int, root, gen, incl).contains(x));
    }
}

/// Rules in rule order come by kind: libraries first, then procedural macros, then binaries,
/// then build scripts; rules of one kind come by crate name, in code-point order; and no rule
/// comes twice.
pub proof fn law_rule_order(s: Seq<RuleView>)
    requires
        crate::targets::rules_sorted(s),
    ensures
        forall|i: int, j: int| 0 <= i < j < s.len() ==> {
            &&& (#[trigger] s[j] is Library ==> s[i] is Library)
            &&& (s[j] is ProcMacro ==> s[i] is Library || s[i] is ProcMacro)
            &&& (#[trigger] s[i] is BuildScript ==> s[j] is BuildScript)
            &&& (s[i] is Binary ==> s[j] is Binary || s[j] is BuildScript)
            &&& s[i] != s[j]
        },
        forall|i: int, j: int|
            0 <= i < j < s.len() && #[trigger] crate::targets::rule_rank(s[i]) == #[trigger] crate::targets::rule_rank(s[j])
                ==> crate::order::seq_lt(crate::targets::rule_attrs(s[i]).crate_name, crate::targets::rule_attrs(s[j]).crate_name)
                || crate::targets::rule_attrs(s[i]).crate_name == crate::targets::rule_attrs(s[j]).crate_name,
{
    assert forall|i: int, j: int| 0 <= i < j < s.len() implies s[i] != s[j] by {
        crate::targets::lemma_rule_order(s[i], s[j], s[j]);
    }
}

} // verus!
