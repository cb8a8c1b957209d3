//! What applying a crate's settings does to each attribute of its context.
use vstd::prelude::*;
use crate::config::{CrateIdView, PairedExtras};
use crate::crate_context::CrateContextView;
use crate::overrides::with_overrides_view;
use crate::select::{SelectList, SelectMap, SelectScalar, SelectSet, list_at, map_at, merged_set_view, set_at};
use crate::ordset::OrdSet;
use crate::metadata::{SourceAnnotationView, opt_list_view, opt_set_view};
use crate::select::opt_view;

verus! {

/// Whether `m` holds what merging the set-valued attributes `l` and `r` gives: a value is
/// common where either side has it in common, and it is on a configuration where it is not
/// common and either side has it there; no configuration is left without values.
pub open spec fn is_merge<A>(
    m: (Set<A>, Map<Seq<char>, Set<A>>),
    l: (Set<A>, Map<Seq<char>, Set<A>>),
    r: (Set<A>, Map<Seq<char>, Set<A>>),
) -> bool {
    &&& forall|v: A| #[trigger] m.0.contains(v) <==> l.0.contains(v) || r.0.contains(v)
    &&& forall|c: Seq<char>, v: A| #[trigger] set_at(m.1, c).contains(v) <==> !m.0.contains(v) && (set_at(
        l.1,
        c,
    ).contains(v) || set_at(r.1, c).contains(v))
    &&& forall|c: Seq<char>| #[trigger] m.1.contains_key(c) ==> !m.1[c].is_empty()
}

/// Whether the set-valued attribute `m` is `l` with the optional setting `extra` merged in.
pub open spec fn set_setting_applied<T: View>(
    m: (Set<T::V>, Map<Seq<char>, Set<T::V>>),
    l: (Set<T::V>, Map<Seq<char>, Set<T::V>>),
    extra: Option<SelectSet<T>>,
) -> bool {
    match extra {
        Some(e) => is_merge(m, l, e@),
        None => m == l,
    }
}

/// Whether the set `m` is `l` with the values of the optional setting `extra` added.
pub open spec fn union_setting_applied<T: View>(m: Set<T::V>, l: Set<T::V>, extra: Option<OrdSet<T>>) -> bool {
    match extra {
        Some(e) => forall|v: T::V| #[trigger] m.contains(v) <==> l.contains(v) || e@.contains(v),
        None => m == l,
    }
}

/// Whether the list-valued attribute `m` is `l` with the optional setting `extra` appended:
/// the common items of `l` then those of `extra`, and the same on each configuration.
pub open spec fn list_setting_applied(
    m: (Seq<String>, Map<Seq<char>, Seq<String>>),
    l: (Seq<String>, Map<Seq<char>, Seq<String>>),
    extra: Option<SelectList>,
) -> bool {
    match extra {
        Some(e) => {
            &&& m.0 == l.0 + e@.0
            &&& forall|c: Seq<char>| #[trigger] list_at(m.1, c) == list_at(l.1, c) + list_at(e@.1, c)
        },
        None => m == l,
    }
}

/// Whether the map-valued attribute `m` is `l` with the optional setting `extra` merged in:
/// on a name that both give, `extra` wins; a name given in common is dropped from every
/// configuration.
pub open spec fn map_setting_applied(
    m: (Map<Seq<char>, Seq<char>>, Map<Seq<char>, Map<Seq<char>, Seq<char>>>),
    l: (Map<Seq<char>, Seq<char>>, Map<Seq<char>, Map<Seq<char>, Seq<char>>>),
    extra: Option<SelectMap>,
) -> bool {
    match extra {
        Some(e) => {
            &&& forall|k: Seq<char>| #[trigger] m.0.contains_key(k) <==> l.0.contains_key(k) || e@.0.contains_key(k)
            &&& forall|k: Seq<char>| #[trigger] m.0.contains_key(k) ==> m.0[k] == if e@.0.contains_key(k) {
                e@.0[k]
            } else {
                l.0[k]
            }
            &&& forall|c: Seq<char>, k: Seq<char>| #[trigger] map_at(m.1, c).contains_key(k) <==> !m.0.contains_key(k)
                && (map_at(l.1, c).contains_key(k) || map_at(e@.1, c).contains_key(k))
            &&& forall|c: Seq<char>, k: Seq<char>| #[trigger] map_at(m.1, c).contains_key(k) ==> map_at(m.1, c)[k]
                == if map_at(e@.1, c).contains_key(k) {
                map_at(e@.1, c)[k]
            } else {
                map_at(l.1, c)[k]
            }
        },
        None => m == l,
    }
}

/// Whether the string-valued attribute `m` is `l` with the optional setting `extra` applied:
/// `extra`'s value wins wherever it gives one.
pub open spec fn scalar_setting_applied(
    m: (Option<Seq<char>>, Map<Seq<char>, Seq<char>>),
    l: (Option<Seq<char>>, Map<Seq<char>, Seq<char>>),
    extra: Option<SelectScalar>,
) -> bool {
    match extra {
        Some(e) => {
            &&& m.0 == if e@.0 is Some { e@.0 } else { l.0 }
            &&& forall|c: Seq<char>| #[trigger] m.1.contains_key(c) <==> l.1.contains_key(c) || e@.1.contains_key(c)
            &&& forall|c: Seq<char>| #[trigger] m.1.contains_key(c) ==> m.1[c] == if e@.1.contains_key(c) {
                e@.1[c]
            } else {
                l.1[c]
            }
        },
        None => m == l,
    }
}

proof fn lemma_set_merge<A>(l: (Set<A>, Map<Seq<char>, Set<A>>), r: (Set<A>, Map<Seq<char>, Set<A>>))
    ensures
        is_merge(merged_set_view(l, r), l, r),
{
    let m = merged_set_view(l, r);
    assert forall|c: Seq<char>| #[trigger] m.1.contains_key(c) implies !m.1[c].is_empty() by {
        if m.1[c].is_empty() {
            assert(m.1[c] =~= Set::<A>::empty());
        }
    }
    assert forall|c: Seq<char>, v: A| #[trigger] set_at(m.1, c).contains(v) <==> !m.0.contains(v) && (set_at(
        l.1,
        c,
    ).contains(v) || set_at(r.1, c).contains(v)) by {
        if !m.0.contains(v) && (set_at(l.1, c).contains(v) || set_at(r.1, c).contains(v)) {
            assert(crate::select::merged_at(l.1, r.1, m.0, c).contains(v));
        }
    }
}

proof fn lemma_set_setting<T: View>(l: (Set<T::V>, Map<Seq<char>, Set<T::V>>), extra: Option<SelectSet<T>>)
    ensures
        set_setting_applied(crate::overrides::merged_set_opt(l, extra), l, extra),
{
    if let Some(e) = extra {
        lemma_set_merge(l, e@);
    }
}

proof fn lemma_map_setting(
    l: (Map<Seq<char>, Seq<char>>, Map<Seq<char>, Map<Seq<char>, Seq<char>>>),
    extra: Option<SelectMap>,
)
    ensures
        map_setting_applied(crate::overrides::merged_map_opt(l, extra), l, extra),
{
    if let Some(e) = extra {
        let m = crate::select::merged_map_view(l, e@);
        assert forall|c: Seq<char>| #[trigger] map_at(m.1, c) == crate::select::merged_map_at(
            l.1,
            e@.1,
            m.0.dom(),
            c,
        ) by {
            let x = crate::select::merged_map_at(l.1, e@.1, m.0.dom(), c);
            if x == Map::<Seq<char>, Seq<char>>::empty() {
                assert(map_at(m.1, c) =~= x);
            }
        }
    }
}

proof fn lemma_list_setting(l: (Seq<String>, Map<Seq<char>, Seq<String>>), extra: Option<SelectList>)
    ensures
        list_setting_applied(crate::overrides::merged_list_opt(l, extra), l, extra),
{
    if let Some(e) = extra {
        let m = crate::select::merged_list_view(l, e@);
        assert forall|c: Seq<char>| #[trigger] list_at(m.1, c) == list_at(l.1, c) + list_at(e@.1, c) by {
            let x = list_at(l.1, c) + list_at(e@.1, c);
            if x == Seq::<String>::empty() {
                assert(list_at(m.1, c) =~= x);
            }
        }
    }
}

/// Applying a crate's settings merges each of its settings into the matching attribute
/// of the crate's common attributes, and leaves an attribute alone where its setting is
/// not given: extra dependencies and proc-macro dependencies, compile data, crate features,
/// data and rustc environment files keep every value of the context and gain every value of
/// the setting, common or on its configuration; the globs gain the setting's patterns;
/// rustc flags are appended; rustc environment entries of the setting win.
pub proof fn law_common_settings_applied(ctx: CrateContextView, extras: Map<CrateIdView, PairedExtras>)
    requires
        extras.contains_key(CrateIdView { name: ctx.name, version: ctx.version }),
    ensures
        ({
            let ce = extras[CrateIdView { name: ctx.name, version: ctx.version }].crate_extra;
            let c = ctx.common_attrs;
            let r = with_overrides_view(ctx, extras).common_attrs;
            &&& set_setting_applied(r.extra_deps, c.extra_deps, ce.deps)
            &&& set_setting_applied(r.extra_proc_macro_deps, c.extra_proc_macro_deps, ce.proc_macro_deps)
            &&& set_setting_applied(r.compile_data, c.compile_data, ce.compile_data)
            &&& set_setting_applied(r.crate_features, c.crate_features, ce.crate_features)
            &&& set_setting_applied(r.data, c.data, ce.data)
            &&& set_setting_applied(r.rustc_env_files, c.rustc_env_files, ce.rustc_env_files)
            &&& union_setting_applied(r.compile_data_glob, c.compile_data_glob, ce.compile_data_glob)
            &&& union_setting_applied(r.data_glob, c.data_glob, ce.data_glob)
            &&& list_setting_applied(r.rustc_flags, c.rustc_flags, ce.rustc_flags)
            &&& map_setting_applied(r.rustc_env, c.rustc_env, ce.rustc_env)
        }),
{
    let ce = extras[CrateIdView { name: ctx.name, version: ctx.version }].crate_extra;
    let c = ctx.common_attrs;
    lemma_set_setting(c.extra_deps, ce.deps);
    lemma_set_setting(c.extra_proc_macro_deps, ce.proc_macro_deps);
    lemma_set_setting(c.compile_data, ce.compile_data);
    lemma_set_setting(c.crate_features, ce.crate_features);
    lemma_set_setting(c.data, ce.data);
    lemma_set_setting(c.rustc_env_files, ce.rustc_env_files);
    lemma_list_setting(c.rustc_flags, ce.rustc_flags);
    lemma_map_setting(c.rustc_env, ce.rustc_env);
}

/// Applying a crate's settings to a context with a build script merges each build script
/// setting into the matching build script attribute, and leaves an attribute alone where
/// its setting is not given: extra dependencies and proc-macro dependencies, data and tools
/// keep every value and gain every value of the setting; the toolchains and the data glob
/// gain the setting's values; environment entries of the setting win, and so does its run
/// directory.
pub proof fn law_build_script_settings_applied(ctx: CrateContextView, extras: Map<CrateIdView, PairedExtras>)
    requires
        extras.contains_key(CrateIdView { name: ctx.name, version: ctx.version }),
        ctx.build_script_attrs is Some,
    ensures
        ({
            let ce = extras[CrateIdView { name: ctx.name, version: ctx.version }].crate_extra;
            let b = ctx.build_script_attrs->0;
            let rb = with_overrides_view(ctx, extras).build_script_attrs;
            let r = rb->0;
            &&& rb is Some
            &&& set_setting_applied(r.extra_deps, b.extra_deps, ce.build_script_deps)
            &&& set_setting_applied(r.extra_proc_macro_deps, b.extra_proc_macro_deps, ce.build_script_proc_macro_deps)
            &&& set_setting_applied(r.data, b.data, ce.build_script_data)
            &&& set_setting_applied(r.tools, b.tools, ce.build_script_tools)
            &&& union_setting_applied(r.toolchains, b.toolchains, ce.build_script_toolchains)
            &&& union_setting_applied(r.data_glob, b.data_glob, ce.build_script_data_glob)
            &&& map_setting_applied(r.rustc_env, b.rustc_env, ce.build_script_rustc_env)
            &&& map_setting_applied(r.build_script_env, b.build_script_env, ce.build_script_env)
            &&& scalar_setting_applied(r.rundir, b.rundir, ce.build_script_rundir)
            &&& r.deps == b.deps
            &&& r.link_deps == b.link_deps
            &&& r.proc_macro_deps == b.proc_macro_deps
            &&& r.links == b.links
        }),
{
    let ce = extras[CrateIdView { name: ctx.name, version: ctx.version }].crate_extra;
    let b = ctx.build_script_attrs->0;
    lemma_set_setting(b.extra_deps, ce.build_script_deps);
    lemma_set_setting(b.extra_proc_macro_deps, ce.build_script_proc_macro_deps);
    lemma_set_setting(b.data, ce.build_script_data);
    lemma_set_setting(b.tools, ce.build_script_tools);
    lemma_map_setting(b.rustc_env, ce.build_script_rustc_env);
    lemma_map_setting(b.build_script_env, ce.build_script_env);
}

/// Applying a crate's settings: pipelining is disabled where the context or the setting
/// disables it; the extra aliased targets gain the setting's, which win on a name that both
/// give; an alias rule already chosen stays, else the setting's is taken; the additive build
/// file content is the setting's, dedented; and the crate's source takes the setting's patch
/// arguments, patch tool and patches, and a git source its `shallow_since`, keeping where
/// the source is fetched from.
pub proof fn law_other_settings_applied(ctx: CrateContextView, extras: Map<CrateIdView, PairedExtras>)
    requires
        extras.contains_key(CrateIdView { name: ctx.name, version: ctx.version }),
    ensures
        ({
            let ce = extras[CrateIdView { name: ctx.name, version: ctx.version }].crate_extra;
            let r = with_overrides_view(ctx, extras);
            &&& r.disable_pipelining == (ctx.disable_pipelining || ce.disable_pipelining)
            &&& forall|k: Seq<char>| #[trigger] r.extra_aliased_targets.contains_key(k) <==> ctx.extra_aliased_targets.contains_key(k)
                || (ce.extra_aliased_targets is Some && ce.extra_aliased_targets->0@.contains_key(k))
            &&& forall|k: Seq<char>| #[trigger] r.extra_aliased_targets.contains_key(k) ==> r.extra_aliased_targets[k]
                == if ce.extra_aliased_targets is Some && ce.extra_aliased_targets->0@.contains_key(k) {
                ce.extra_aliased_targets->0@[k]
            } else {
                ctx.extra_aliased_targets[k]
            }
            &&& r.alias_rule == if ctx.alias_rule is Some {
                ctx.alias_rule
            } else {
                crate::crate_context::opt_alias_view(ce.alias_rule)
            }
            &&& r.additive_build_file_content == match ce.additive_build_file_content {
                Some(content) => Some(crate::utils::dedented(content@)),
                None => None,
            }
            &&& (r.repository is Some <==> ctx.repository is Some)
            &&& ctx.repository matches Some(SourceAnnotationView::Git { remote, commitish, strip_prefix, .. })
                ==> r.repository == Some(
                SourceAnnotationView::Git {
                    remote,
                    commitish,
                    shallow_since: opt_view(ce.shallow_since),
                    strip_prefix,
                    patch_args: opt_list_view(ce.patch_args),
                    patch_tool: opt_view(ce.patch_tool),
                    patches: opt_set_view(ce.patches),
                },
            )
            &&& ctx.repository matches Some(SourceAnnotationView::Http { url, sha256, .. }) ==> r.repository == Some(
                SourceAnnotationView::Http {
                    url,
                    sha256,
                    patch_args: opt_list_view(ce.patch_args),
                    patch_tool: opt_view(ce.patch_tool),
                    patches: opt_set_view(ce.patches),
                },
            )
        }),
{
}

} // verus!
