//! A crate's own settings, applied to its context.
use vstd::prelude::*;
use crate::config::{CrateAnnotations, CrateId, CrateIdView, PairedExtras};
use crate::crate_context::{
    BuildScriptAttributes, BuildScriptAttributesView, CommonAttributes, CommonAttributesView, CrateContext,
    CrateContextView, ListSelectView, MapSelectView, ScalarSelectView, opt_alias_view,
    opt_source_view,
};
use crate::keyed::{Dup, Keyed};
use crate::keymap::KeyMap;
use crate::metadata::{SourceAnnotation, SourceAnnotationView, dup_opt, dup_opt_list, dup_opt_set, opt_list_view, opt_set_view};
use crate::ordset::OrdSet;
use crate::select::{
    SelectList, SelectMap, SelectScalar, SelectSet, merged_list_view, merged_map_view, merged_scalar_view,
    merged_set_view, opt_view,
};
use crate::utils::{dedent, dedented};

verus! {

/// A set-valued attribute with an optional extra value merged in.
pub open spec fn merged_set_opt<T: View>(
    base: (Set<T::V>, Map<Seq<char>, Set<T::V>>),
    extra: Option<SelectSet<T>>,
) -> (Set<T::V>, Map<Seq<char>, Set<T::V>>) {
    match extra {
        Some(e) => merged_set_view(base, e@),
        None => base,
    }
}

/// A map-valued attribute with an optional extra value merged in.
pub open spec fn merged_map_opt(base: MapSelectView, extra: Option<SelectMap>) -> MapSelectView {
    match extra {
        Some(e) => merged_map_view(base, e@),
        None => base,
    }
}

/// A list-valued attribute with an optional extra value merged in.
pub open spec fn merged_list_opt(base: ListSelectView, extra: Option<SelectList>) -> ListSelectView {
    match extra {
        Some(e) => merged_list_view(base, e@),
        None => base,
    }
}

/// A string-valued attribute with an optional extra value merged in.
pub open spec fn merged_scalar_opt(base: ScalarSelectView, extra: Option<SelectScalar>) -> ScalarSelectView {
    match extra {
        Some(e) => merged_scalar_view(base, e@),
        None => base,
    }
}

/// A set with the elements of an optional extra set added.
pub open spec fn union_opt<T: View>(base: Set<T::V>, extra: Option<OrdSet<T>>) -> Set<T::V> {
    match extra {
        Some(e) => base.union(e@),
        None => base,
    }
}

fn merge_set_opt<T: Keyed>(base: SelectSet<T>, extra: &Option<SelectSet<T>>) -> (r: SelectSet<T>)
    ensures
        r@ == merged_set_opt(base@, *extra),
{
    match extra {
        Some(e) => SelectSet::merge(base, e.dup()),
        None => base,
    }
}

fn merge_map_opt(base: SelectMap, extra: &Option<SelectMap>) -> (r: SelectMap)
    ensures
        r@ == merged_map_opt(base@, *extra),
{
    match extra {
        Some(e) => SelectMap::merge(base, e.dup()),
        None => base,
    }
}

fn merge_list_opt(base: SelectList, extra: &Option<SelectList>) -> (r: SelectList)
    ensures
        r@ == merged_list_opt(base@, *extra),
{
    match extra {
        Some(e) => SelectList::merge(base, e.dup()),
        None => base,
    }
}

fn merge_scalar_opt(base: SelectScalar, extra: &Option<SelectScalar>) -> (r: SelectScalar)
    ensures
        r@ == merged_scalar_opt(base@, *extra),
{
    match extra {
        Some(e) => SelectScalar::merge(base, e.dup()),
        None => base,
    }
}

fn union_with_opt<T: Keyed>(base: OrdSet<T>, extra: &Option<OrdSet<T>>) -> (r: OrdSet<T>)
    ensures
        r@ == union_opt(base@, *extra),
{
    let mut base = base;
    match extra {
        Some(e) => {
            base.extend(e);
        },
        None => {},
    }
    base
}

/// The common attributes with a crate's settings merged in.
pub open spec fn overridden_common(c: CommonAttributesView, ce: CrateAnnotations) -> CommonAttributesView {
    CommonAttributesView {
        extra_deps: merged_set_opt(c.extra_deps, ce.deps),
        extra_proc_macro_deps: merged_set_opt(c.extra_proc_macro_deps, ce.proc_macro_deps),
        compile_data: merged_set_opt(c.compile_data, ce.compile_data),
        compile_data_glob: union_opt(c.compile_data_glob, ce.compile_data_glob),
        crate_features: merged_set_opt(c.crate_features, ce.crate_features),
        data: merged_set_opt(c.data, ce.data),
        data_glob: union_opt(c.data_glob, ce.data_glob),
        rustc_flags: merged_list_opt(c.rustc_flags, ce.rustc_flags),
        rustc_env: merged_map_opt(c.rustc_env, ce.rustc_env),
        rustc_env_files: merged_set_opt(c.rustc_env_files, ce.rustc_env_files),
        ..c
    }
}

/// The build script attributes with a crate's build script settings merged in.
pub open spec fn overridden_build_script(b: BuildScriptAttributesView, ce: CrateAnnotations) -> BuildScriptAttributesView {
    BuildScriptAttributesView {
        extra_deps: merged_set_opt(b.extra_deps, ce.build_script_deps),
        extra_proc_macro_deps: merged_set_opt(b.extra_proc_macro_deps, ce.build_script_proc_macro_deps),
        data: merged_set_opt(b.data, ce.build_script_data),
        tools: merged_set_opt(b.tools, ce.build_script_tools),
        toolchains: union_opt(b.toolchains, ce.build_script_toolchains),
        data_glob: union_opt(b.data_glob, ce.build_script_data_glob),
        rustc_env: merged_map_opt(b.rustc_env, ce.build_script_rustc_env),
        build_script_env: merged_map_opt(b.build_script_env, ce.build_script_env),
        rundir: merged_scalar_opt(b.rundir, ce.build_script_rundir),
        ..b
    }
}

/// A crate's source with the crate's settings applied: a git source takes the setting's
/// `shallow_since`, and either kind takes the setting's patch arguments, tool and patches.
pub open spec fn overridden_repository(r: Option<SourceAnnotationView>, ce: CrateAnnotations) -> Option<SourceAnnotationView> {
    match r {
        Some(SourceAnnotationView::Git { remote, commitish, strip_prefix, .. }) => Some(
            SourceAnnotationView::Git {
                remote,
                commitish,
                shallow_since: opt_view(ce.shallow_since),
                strip_prefix,
                patch_args: opt_list_view(ce.patch_args),
                patch_tool: opt_view(ce.patch_tool),
                patches: opt_set_view(ce.patches),
            },
        ),
        Some(SourceAnnotationView::Http { url, sha256, .. }) => Some(
            SourceAnnotationView::Http {
                url,
                sha256,
                patch_args: opt_list_view(ce.patch_args),
                patch_tool: opt_view(ce.patch_tool),
                patches: opt_set_view(ce.patches),
            },
        ),
        None => None,
    }
}

/// A crate's context with one crate's settings applied.
pub open spec fn overridden(ctx: CrateContextView, ce: CrateAnnotations) -> CrateContextView {
    CrateContextView {
        common_attrs: overridden_common(ctx.common_attrs, ce),
        disable_pipelining: ctx.disable_pipelining || ce.disable_pipelining,
        build_script_attrs: match ctx.build_script_attrs {
            Some(b) => Some(overridden_build_script(b, ce)),
            None => None,
        },
        additive_build_file_content: match ce.additive_build_file_content {
            Some(content) => Some(dedented(content@)),
            None => None,
        },
        extra_aliased_targets: match ce.extra_aliased_targets {
            Some(m) => ctx.extra_aliased_targets.union_prefer_right(m@),
            None => ctx.extra_aliased_targets,
        },
        alias_rule: match ctx.alias_rule {
            Some(a) => Some(a),
            None => opt_alias_view(ce.alias_rule),
        },
        repository: overridden_repository(ctx.repository, ce),
        ..ctx
    }
}

/// A crate's context with the settings attached to its name and version applied, if any.
pub open spec fn with_overrides_view(ctx: CrateContextView, extras: Map<CrateIdView, PairedExtras>) -> CrateContextView {
    let id = CrateIdView { name: ctx.name, version: ctx.version };
    if extras.contains_key(id) {
        overridden(ctx, extras[id].crate_extra)
    } else {
        ctx
    }
}

fn override_common(c: CommonAttributes, ce: &CrateAnnotations) -> (r: CommonAttributes)
    ensures
        r@ == overridden_common(c@, *ce),
{
    let CommonAttributes {
        compile_data,
        compile_data_glob,
        crate_features,
        data,
        data_glob,
        deps,
        extra_deps,
        deps_dev,
        edition,
        linker_script,
        proc_macro_deps,
        extra_proc_macro_deps,
        proc_macro_deps_dev,
        rustc_env,
        rustc_env_files,
        rustc_flags,
        version,
        tags,
    } = c;
    let r = CommonAttributes {
        // Deps
        extra_deps: merge_set_opt(extra_deps, &ce.deps),
        // Proc macro deps
        extra_proc_macro_deps: merge_set_opt(extra_proc_macro_deps, &ce.proc_macro_deps),
        // Compile data
        compile_data: merge_set_opt(compile_data, &ce.compile_data),
        // Compile data glob
        compile_data_glob: union_with_opt(compile_data_glob, &ce.compile_data_glob),
        // Crate features
        crate_features: merge_set_opt(crate_features, &ce.crate_features),
        // Data
        data: merge_set_opt(data, &ce.data),
        // Data glob
        data_glob: union_with_opt(data_glob, &ce.data_glob),
        // Rustc flags
        rustc_flags: merge_list_opt(rustc_flags, &ce.rustc_flags),
        // Rustc env
        rustc_env: merge_map_opt(rustc_env, &ce.rustc_env),
        // Rustc env files
        rustc_env_files: merge_set_opt(rustc_env_files, &ce.rustc_env_files),
        deps,
        deps_dev,
        edition,
        linker_script,
        proc_macro_deps,
        proc_macro_deps_dev,
        version,
        tags,
    };
    assert(r@ =~= overridden_common(c@, *ce));
    r
}

fn override_build_script(b: BuildScriptAttributes, ce: &CrateAnnotations) -> (r: BuildScriptAttributes)
    ensures
        r@ == overridden_build_script(b@, *ce),
{
    let BuildScriptAttributes {
        compile_data,
        data,
        data_glob,
        deps,
        extra_deps,
        link_deps,
        extra_link_deps,
        build_script_env,
        rundir,
        extra_proc_macro_deps,
        proc_macro_deps,
        rustc_env,
        rustc_flags,
        rustc_env_files,
        tools,
        links,
        toolchains,
    } = b;
    let r = BuildScriptAttributes {
        // Deps
        extra_deps: merge_set_opt(extra_deps, &ce.build_script_deps),
        // Proc macro deps
        extra_proc_macro_deps: merge_set_opt(extra_proc_macro_deps, &ce.build_script_proc_macro_deps),
        // Data
        data: merge_set_opt(data, &ce.build_script_data),
        // Tools
        tools: merge_set_opt(tools, &ce.build_script_tools),
        // Toolchains
        toolchains: union_with_opt(toolchains, &ce.build_script_toolchains),
        // Data glob
        data_glob: union_with_opt(data_glob, &ce.build_script_data_glob),
        // Rustc env
        rustc_env: merge_map_opt(rustc_env, &ce.build_script_rustc_env),
        // Build script env
        build_script_env: merge_map_opt(build_script_env, &ce.build_script_env),
        rundir: merge_scalar_opt(rundir, &ce.build_script_rundir),
        compile_data,
        deps,
        link_deps,
        extra_link_deps,
        proc_macro_deps,
        rustc_flags,
        rustc_env_files,
        links,
    };
    assert(r@ =~= overridden_build_script(b@, *ce));
    r
}

fn override_repository(r: Option<SourceAnnotation>, ce: &CrateAnnotations) -> (o: Option<SourceAnnotation>)
    ensures
        opt_source_view(o) == overridden_repository(opt_source_view(r), *ce),
{
    match r {
        // Git shallow_since, then the patch attributes
        Some(SourceAnnotation::Git { remote, commitish, strip_prefix, .. }) => Some(
            SourceAnnotation::Git {
                remote,
                commitish,
                shallow_since: dup_opt(&ce.shallow_since),
                strip_prefix,
                patch_args: dup_opt_list(&ce.patch_args),
                patch_tool: dup_opt(&ce.patch_tool),
                patches: dup_opt_set(&ce.patches),
            },
        ),
        Some(SourceAnnotation::Http { url, sha256, .. }) => Some(
            SourceAnnotation::Http {
                url,
                sha256,
                patch_args: dup_opt_list(&ce.patch_args),
                patch_tool: dup_opt(&ce.patch_tool),
                patches: dup_opt_set(&ce.patches),
            },
        ),
        None => None,
    }
}

impl CrateContext {
    /// Applies the settings that `extras` attaches to this crate's name and version, if any.
    pub fn with_overrides(self, extras: &KeyMap<CrateId, PairedExtras>) -> (r: Self)
        ensures
            r@ == with_overrides_view(self@, extras@),
            r.targets.elems() == self.targets.elems(),
    {
        let id = CrateId::new(self.name.dup(), self.version.dup());
        // Insert all overrides/extras
        match extras.get(&id) {
            None => self,
            Some(paired_override) => {
                let crate_extra = &paired_override.crate_extra;
                let CrateContext {
                    name,
                    version,
                    repository,
                    targets,
                    library_target_name,
                    common_attrs,
                    build_script_attrs,
                    license,
                    additive_build_file_content: _,
                    disable_pipelining,
                    extra_aliased_targets,
                    alias_rule,
                } = self;
                let common_attrs = override_common(common_attrs, crate_extra);
                // Disable pipelining
                let disable_pipelining = disable_pipelining || crate_extra.disable_pipelining;
                // Build script Attributes
                let build_script_attrs = match build_script_attrs {
                    Some(attrs) => Some(override_build_script(attrs, crate_extra)),
                    None => None,
                };
                // Extra build contents, dedented for prettier rendering
                let additive_build_file_content = match &crate_extra.additive_build_file_content {
                    Some(content) => Some(dedent(content.as_str())),
                    None => None,
                };
                // Extra aliased targets
                let mut extra_aliased_targets = extra_aliased_targets;
                match &crate_extra.extra_aliased_targets {
                    Some(extra) => {
                        extra_aliased_targets.extend(extra);
                    },
                    None => {},
                }
                // Transition alias
                let alias_rule = match alias_rule {
                    Some(a) => Some(a),
                    None => match &crate_extra.alias_rule {
                        Some(a) => Some(a.dup()),
                        None => None,
                    },
                };
                let repository = override_repository(repository, crate_extra);
                let r = CrateContext {
                    name,
                    version,
                    repository,
                    targets,
                    library_target_name,
                    common_attrs,
                    build_script_attrs,
                    license,
                    additive_build_file_content,
                    disable_pipelining,
                    extra_aliased_targets,
                    alias_rule,
                };
                assert(r@ =~= with_overrides_view(self@, extras@));
                r
            },
        }
    }
}

} // verus!
