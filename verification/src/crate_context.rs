//! The context of one crate: what its `BUILD` file is rendered from.
use vstd::prelude::*;
use crate::config::{AliasRule, AliasRuleView, CrateId, CrateIdView, GenBinaries, GenBinariesView, PairedExtras};
use crate::dependencies::{
    all_deps_known, crate_deps_view, deps_known, find_package_extra, is_package_extra_key,
    lemma_package_extra_key_unique, map_deps, package_extra_of,
};
use crate::keyed::{Dup, Keyed};
use crate::keymap::KeyMap;
use crate::metadata::{CrateAnnotation, Package, PackageId, SourceAnnotation, SourceAnnotationView, dup_opt};
use crate::ordset::OrdSet;
use crate::overrides::with_overrides_view;
use crate::select::{SelectList, SelectMap, SelectScalar, SelectSet, merged_set_selects, opt_view};
use crate::starlark::{Glob, GlobView, Label};
use crate::targets::{
    build_script_attrs_of, build_script_of, build_script_target, is_first_build_script,
    lemma_rules_srcs, lib_target_unique, library_name, library_target_name_of, rules_of, rules_sorted,
};
use crate::utils::{parent_dir, path_parent};

verus! {

/// The view of a set-valued attribute of labels or strings.
pub type TextSelectView = (Set<Seq<char>>, Map<Seq<char>, Set<Seq<char>>>);

/// The view of a set-valued attribute of dependencies.
pub type DepSelectView = (Set<CrateDependencyView>, Map<Seq<char>, Set<CrateDependencyView>>);

/// The view of a map-valued attribute.
pub type MapSelectView = (Map<Seq<char>, Seq<char>>, Map<Seq<char>, Map<Seq<char>, Seq<char>>>);

/// The view of a list-valued attribute.
pub type ListSelectView = (Seq<String>, Map<Seq<char>, Seq<String>>);

/// The view of a string-valued attribute.
pub type ScalarSelectView = (Option<Seq<char>>, Map<Seq<char>, Seq<char>>);

/// The view of a [`CrateDependency`].
pub struct CrateDependencyView {
    pub id: CrateIdView,
    pub target: Seq<char>,
    pub alias: Option<Seq<char>>,
}

/// A dependency of a crate on a target of another crate.
#[derive(Debug)]
pub struct CrateDependency {
    /// The [CrateId] of the dependency
    pub id: CrateId,
    /// The target name of the dependency. Note this may differ from the
    /// dependency's package name in cases such as build scripts.
    pub target: String,
    /// Some dependencies are assigned aliases. This is tracked here
    pub alias: Option<String>,
}

impl View for CrateDependency {
    type V = CrateDependencyView;

    open spec fn view(&self) -> CrateDependencyView {
        CrateDependencyView { id: self.id@, target: self.target@, alias: opt_view(self.alias) }
    }
}

impl Dup for CrateDependency {
    fn dup(&self) -> (r: Self) {
        CrateDependency { id: self.id.dup(), target: self.target.dup(), alias: dup_opt(&self.alias) }
    }
}

/// Whether two optional strings are equal.
fn same_opt(a: &Option<String>, b: &Option<String>) -> (r: bool)
    ensures
        r == (opt_view(*a) == opt_view(*b)),
{
    match (a, b) {
        (Some(x), Some(y)) => x.same(y),
        (None, None) => true,
        _ => false,
    }
}

impl Keyed for CrateDependency {
    fn same(&self, other: &Self) -> (r: bool) {
        self.id.same(&other.id) && self.target.same(&other.target) && same_opt(&self.alias, &other.alias)
    }
}

/// The view of a [`TargetAttributes`].
#[verifier::ext_equal]
pub struct TargetAttributesView {
    pub crate_name: Seq<char>,
    pub crate_root: Option<Seq<char>>,
    pub srcs: GlobView,
}

/// The attributes of one Bazel target.
#[derive(Debug)]
pub struct TargetAttributes {
    /// The module name of the crate (notably, not the package name).
    pub crate_name: String,
    /// The path to the crate's root source file, relative to the manifest.
    pub crate_root: Option<String>,
    /// A glob pattern of all source files required by the target
    pub srcs: Glob,
}

impl View for TargetAttributes {
    type V = TargetAttributesView;

    open spec fn view(&self) -> TargetAttributesView {
        TargetAttributesView {
            crate_name: self.crate_name@,
            crate_root: opt_view(self.crate_root),
            srcs: self.srcs@,
        }
    }
}

impl Dup for TargetAttributes {
    fn dup(&self) -> (r: Self) {
        TargetAttributes {
            crate_name: self.crate_name.dup(),
            crate_root: dup_opt(&self.crate_root),
            srcs: self.srcs.dup(),
        }
    }
}

impl Keyed for TargetAttributes {
    fn same(&self, other: &Self) -> (r: bool) {
        let r = self.crate_name.same(&other.crate_name) && same_opt(&self.crate_root, &other.crate_root)
            && self.srcs.same(&other.srcs);
        assert(r == (self@ == other@)) by {
            if self.crate_name@ == other.crate_name@ && opt_view(self.crate_root) == opt_view(other.crate_root)
                && self.srcs@ == other.srcs@ {
                assert(self@ =~= other@);
            }
        }
        r
    }
}

/// The view of a [`Rule`].
#[verifier::ext_equal]
pub enum RuleView {
    Library(TargetAttributesView),
    ProcMacro(TargetAttributesView),
    Binary(TargetAttributesView),
    BuildScript(TargetAttributesView),
}

/// A Bazel rule that a crate's target is rendered as.
#[derive(Debug)]
pub enum Rule {
    /// `rust_library`
    Library(TargetAttributes),
    /// `rust_proc_macro`
    ProcMacro(TargetAttributes),
    /// `rust_binary`
    Binary(TargetAttributes),
    /// `cargo_build_script`
    BuildScript(TargetAttributes),
}

impl View for Rule {
    type V = RuleView;

    open spec fn view(&self) -> RuleView {
        match self {
            Rule::Library(a) => RuleView::Library(a@),
            Rule::ProcMacro(a) => RuleView::ProcMacro(a@),
            Rule::Binary(a) => RuleView::Binary(a@),
            Rule::BuildScript(a) => RuleView::BuildScript(a@),
        }
    }
}

impl Dup for Rule {
    fn dup(&self) -> (r: Self) {
        match self {
            Rule::Library(a) => Rule::Library(a.dup()),
            Rule::ProcMacro(a) => Rule::ProcMacro(a.dup()),
            Rule::Binary(a) => Rule::Binary(a.dup()),
            Rule::BuildScript(a) => Rule::BuildScript(a.dup()),
        }
    }
}

impl Keyed for Rule {
    fn same(&self, other: &Self) -> (r: bool) {
        match (self, other) {
            (Rule::Library(a), Rule::Library(b)) => a.same(b),
            (Rule::ProcMacro(a), Rule::ProcMacro(b)) => a.same(b),
            (Rule::Binary(a), Rule::Binary(b)) => a.same(b),
            (Rule::BuildScript(a), Rule::BuildScript(b)) => a.same(b),
            _ => false,
        }
    }
}

/// The view of a [`CommonAttributes`].
#[verifier::ext_equal]
pub struct CommonAttributesView {
    pub compile_data: TextSelectView,
    pub compile_data_glob: Set<Seq<char>>,
    pub crate_features: TextSelectView,
    pub data: TextSelectView,
    pub data_glob: Set<Seq<char>>,
    pub deps: DepSelectView,
    pub extra_deps: TextSelectView,
    pub deps_dev: DepSelectView,
    pub edition: Seq<char>,
    pub linker_script: Option<Seq<char>>,
    pub proc_macro_deps: DepSelectView,
    pub extra_proc_macro_deps: TextSelectView,
    pub proc_macro_deps_dev: DepSelectView,
    pub rustc_env: MapSelectView,
    pub rustc_env_files: TextSelectView,
    pub rustc_flags: ListSelectView,
    pub version: Seq<char>,
    pub tags: Seq<String>,
}

/// A set of attributes common to most `rust_library`, `rust_proc_macro`, and other
/// core rules of `rules_rust`.
#[derive(Debug)]
pub struct CommonAttributes {
    pub compile_data: SelectSet<Label>,
    pub compile_data_glob: OrdSet<String>,
    pub crate_features: SelectSet<String>,
    pub data: SelectSet<Label>,
    pub data_glob: OrdSet<String>,
    pub deps: SelectSet<CrateDependency>,
    pub extra_deps: SelectSet<Label>,
    pub deps_dev: SelectSet<CrateDependency>,
    pub edition: String,
    pub linker_script: Option<String>,
    pub proc_macro_deps: SelectSet<CrateDependency>,
    pub extra_proc_macro_deps: SelectSet<Label>,
    pub proc_macro_deps_dev: SelectSet<CrateDependency>,
    pub rustc_env: SelectMap,
    pub rustc_env_files: SelectSet<String>,
    pub rustc_flags: SelectList,
    pub version: String,
    pub tags: Vec<String>,
}

impl View for CommonAttributes {
    type V = CommonAttributesView;

    open spec fn view(&self) -> CommonAttributesView {
        CommonAttributesView {
            compile_data: self.compile_data@,
            compile_data_glob: self.compile_data_glob@,
            crate_features: self.crate_features@,
            data: self.data@,
            data_glob: self.data_glob@,
            deps: self.deps@,
            extra_deps: self.extra_deps@,
            deps_dev: self.deps_dev@,
            edition: self.edition@,
            linker_script: opt_view(self.linker_script),
            proc_macro_deps: self.proc_macro_deps@,
            extra_proc_macro_deps: self.extra_proc_macro_deps@,
            proc_macro_deps_dev: self.proc_macro_deps_dev@,
            rustc_env: self.rustc_env@,
            rustc_env_files: self.rustc_env_files@,
            rustc_flags: self.rustc_flags@,
            version: self.version@,
            tags: self.tags@,
        }
    }
}

/// The view of an attribute with no value at all.
pub open spec fn empty_select<A>() -> (Set<A>, Map<Seq<char>, Set<A>>) {
    (Set::empty(), Map::empty())
}

/// The attributes that a crate has before anything is known of it: no values, except that
/// generated targets include all files in their package.
pub open spec fn default_common_view() -> CommonAttributesView {
    CommonAttributesView {
        compile_data: empty_select(),
        compile_data_glob: set!["**"@],
        crate_features: empty_select(),
        data: empty_select(),
        data_glob: Set::empty(),
        deps: empty_select(),
        extra_deps: empty_select(),
        deps_dev: empty_select(),
        edition: Seq::empty(),
        linker_script: None,
        proc_macro_deps: empty_select(),
        extra_proc_macro_deps: empty_select(),
        proc_macro_deps_dev: empty_select(),
        rustc_env: (Map::empty(), Map::empty()),
        rustc_env_files: empty_select(),
        rustc_flags: (Seq::empty(), Map::empty()),
        version: Seq::empty(),
        tags: Seq::empty(),
    }
}

/// The set holding only `**`, every file of the package.
fn all_files_glob() -> (s: OrdSet<String>)
    ensures
        s@ == set!["**"@],
{
    let mut s = OrdSet::new();
    s.insert("**".to_owned());
    s
}

impl Default for CommonAttributes {
    fn default() -> (a: Self)
        ensures
            a@ == default_common_view(),
    {
        let a = CommonAttributes {
            compile_data: SelectSet::new(),
            // Generated targets include all files in their package by default
            compile_data_glob: all_files_glob(),
            crate_features: SelectSet::new(),
            data: SelectSet::new(),
            data_glob: OrdSet::new(),
            deps: SelectSet::new(),
            extra_deps: SelectSet::new(),
            deps_dev: SelectSet::new(),
            edition: String::new(),
            linker_script: None,
            proc_macro_deps: SelectSet::new(),
            extra_proc_macro_deps: SelectSet::new(),
            proc_macro_deps_dev: SelectSet::new(),
            rustc_env: SelectMap::new(),
            rustc_env_files: SelectSet::new(),
            rustc_flags: SelectList::new(),
            version: String::new(),
            tags: Vec::new(),
        };
        assert(a@ =~= default_common_view());
        a
    }
}

/// The view of a [`BuildScriptAttributes`].
#[verifier::ext_equal]
pub struct BuildScriptAttributesView {
    pub compile_data: TextSelectView,
    pub data: TextSelectView,
    pub data_glob: Set<Seq<char>>,
    pub deps: DepSelectView,
    pub extra_deps: TextSelectView,
    pub link_deps: DepSelectView,
    pub extra_link_deps: TextSelectView,
    pub build_script_env: MapSelectView,
    pub rundir: ScalarSelectView,
    pub extra_proc_macro_deps: TextSelectView,
    pub proc_macro_deps: DepSelectView,
    pub rustc_env: MapSelectView,
    pub rustc_flags: ListSelectView,
    pub rustc_env_files: TextSelectView,
    pub tools: TextSelectView,
    pub links: Option<Seq<char>>,
    pub toolchains: Set<Seq<char>>,
}

/// Build script attributes.
#[derive(Debug)]
pub struct BuildScriptAttributes {
    pub compile_data: SelectSet<Label>,
    pub data: SelectSet<Label>,
    pub data_glob: OrdSet<String>,
    pub deps: SelectSet<CrateDependency>,
    pub extra_deps: SelectSet<Label>,
    pub link_deps: SelectSet<CrateDependency>,
    pub extra_link_deps: SelectSet<Label>,
    pub build_script_env: SelectMap,
    pub rundir: SelectScalar,
    pub extra_proc_macro_deps: SelectSet<Label>,
    pub proc_macro_deps: SelectSet<CrateDependency>,
    pub rustc_env: SelectMap,
    pub rustc_flags: SelectList,
    pub rustc_env_files: SelectSet<String>,
    pub tools: SelectSet<Label>,
    pub links: Option<String>,
    pub toolchains: OrdSet<Label>,
}

impl View for BuildScriptAttributes {
    type V = BuildScriptAttributesView;

    open spec fn view(&self) -> BuildScriptAttributesView {
        BuildScriptAttributesView {
            compile_data: self.compile_data@,
            data: self.data@,
            data_glob: self.data_glob@,
            deps: self.deps@,
            extra_deps: self.extra_deps@,
            link_deps: self.link_deps@,
            extra_link_deps: self.extra_link_deps@,
            build_script_env: self.build_script_env@,
            rundir: self.rundir@,
            extra_proc_macro_deps: self.extra_proc_macro_deps@,
            proc_macro_deps: self.proc_macro_deps@,
            rustc_env: self.rustc_env@,
            rustc_flags: self.rustc_flags@,
            rustc_env_files: self.rustc_env_files@,
            tools: self.tools@,
            links: opt_view(self.links),
            toolchains: self.toolchains@,
        }
    }
}

/// The attributes of a build script before anything is known of it: no values, except that
/// build scripts include all sources.
pub open spec fn default_build_script_view() -> BuildScriptAttributesView {
    BuildScriptAttributesView {
        compile_data: empty_select(),
        data: empty_select(),
        data_glob: set!["**"@],
        deps: empty_select(),
        extra_deps: empty_select(),
        link_deps: empty_select(),
        extra_link_deps: empty_select(),
        build_script_env: (Map::empty(), Map::empty()),
        rundir: (None, Map::empty()),
        extra_proc_macro_deps: empty_select(),
        proc_macro_deps: empty_select(),
        rustc_env: (Map::empty(), Map::empty()),
        rustc_flags: (Seq::empty(), Map::empty()),
        rustc_env_files: empty_select(),
        tools: empty_select(),
        links: None,
        toolchains: Set::empty(),
    }
}

impl Default for BuildScriptAttributes {
    fn default() -> (a: Self)
        ensures
            a@ == default_build_script_view(),
    {
        let a = BuildScriptAttributes {
            compile_data: SelectSet::new(),
            data: SelectSet::new(),
            // Build scripts include all sources by default
            data_glob: all_files_glob(),
            deps: SelectSet::new(),
            extra_deps: SelectSet::new(),
            link_deps: SelectSet::new(),
            extra_link_deps: SelectSet::new(),
            build_script_env: SelectMap::new(),
            rundir: SelectScalar::new(),
            extra_proc_macro_deps: SelectSet::new(),
            proc_macro_deps: SelectSet::new(),
            rustc_env: SelectMap::new(),
            rustc_flags: SelectList::new(),
            rustc_env_files: SelectSet::new(),
            tools: SelectSet::new(),
            links: None,
            toolchains: OrdSet::new(),
        };
        assert(a@ =~= default_build_script_view());
        a
    }
}

/// The view of a [`CrateContext`].
#[verifier::ext_equal]
pub struct CrateContextView {
    pub name: Seq<char>,
    pub version: Seq<char>,
    pub repository: Option<SourceAnnotationView>,
    pub targets: Set<RuleView>,
    pub library_target_name: Option<Seq<char>>,
    pub common_attrs: CommonAttributesView,
    pub build_script_attrs: Option<BuildScriptAttributesView>,
    pub license: Option<Seq<char>>,
    pub additive_build_file_content: Option<Seq<char>>,
    pub disable_pipelining: bool,
    pub extra_aliased_targets: Map<Seq<char>, Seq<char>>,
    pub alias_rule: Option<AliasRuleView>,
}

/// Everything known of one crate that its `BUILD` file is rendered from.
#[derive(Debug)]
pub struct CrateContext {
    /// The package name of the current crate
    pub name: String,
    /// The full version of the current crate
    pub version: String,
    /// Optional source annotations if they were discoverable in the
    /// lockfile. Workspace Members will not have source annotations and
    /// potentially others.
    pub repository: Option<SourceAnnotation>,
    /// A list of all targets (lib, proc-macro, bin) associated with this package
    pub targets: OrdSet<Rule>,
    /// The name of the crate's root library target. This is the target that a dependent
    /// would get if they were to depend on `{crate_name}`.
    pub library_target_name: Option<String>,
    /// A set of attributes common to most [Rule] types or target types.
    pub common_attrs: CommonAttributes,
    /// Optional attributes for build scripts. This field is only populated if
    /// a build script (`custom-build`) target is defined for the crate.
    pub build_script_attrs: Option<BuildScriptAttributes>,
    /// The license used by the crate
    pub license: Option<String>,
    /// Additional text to add to the generated BUILD file.
    pub additive_build_file_content: Option<String>,
    /// If true, disables pipelining for library targets generated for this crate
    pub disable_pipelining: bool,
    /// Extra targets that should be aliased.
    pub extra_aliased_targets: KeyMap<String, String>,
    /// Transition rule to use instead of `alias`.
    pub alias_rule: Option<AliasRule>,
}

/// The context of a crate of which nothing is known.
pub open spec fn default_context_view() -> CrateContextView {
    CrateContextView {
        name: Seq::empty(),
        version: Seq::empty(),
        repository: None,
        targets: Set::empty(),
        library_target_name: None,
        common_attrs: default_common_view(),
        build_script_attrs: None,
        license: None,
        additive_build_file_content: None,
        disable_pipelining: false,
        extra_aliased_targets: Map::empty(),
        alias_rule: None,
    }
}

impl Default for CrateContext {
    fn default() -> (c: Self)
        ensures
            c@ == default_context_view(),
    {
        let c = CrateContext {
            name: String::new(),
            version: String::new(),
            repository: None,
            targets: OrdSet::new(),
            library_target_name: None,
            common_attrs: CommonAttributes::default(),
            build_script_attrs: None,
            license: None,
            additive_build_file_content: None,
            disable_pipelining: false,
            extra_aliased_targets: KeyMap::new(),
            alias_rule: None,
        };
        assert(c@ =~= default_context_view());
        c
    }
}

/// The view of an optional source annotation.
pub open spec fn opt_source_view(o: Option<SourceAnnotation>) -> Option<SourceAnnotationView> {
    match o {
        Some(s) => Some(s@),
        None => None,
    }
}

/// The view of optional build script attributes.
pub open spec fn opt_build_script_view(o: Option<BuildScriptAttributes>) -> Option<BuildScriptAttributesView> {
    match o {
        Some(s) => Some(s@),
        None => None,
    }
}

/// The view of an optional alias rule.
pub open spec fn opt_alias_view(o: Option<AliasRule>) -> Option<AliasRuleView> {
    match o {
        Some(s) => Some(s@),
        None => None,
    }
}

impl View for CrateContext {
    type V = CrateContextView;

    open spec fn view(&self) -> CrateContextView {
        CrateContextView {
            name: self.name@,
            version: self.version@,
            repository: opt_source_view(self.repository),
            targets: self.targets@,
            library_target_name: opt_view(self.library_target_name),
            common_attrs: self.common_attrs@,
            build_script_attrs: opt_build_script_view(self.build_script_attrs),
            license: opt_view(self.license),
            additive_build_file_content: opt_view(self.additive_build_file_content),
            disable_pipelining: self.disable_pipelining,
            extra_aliased_targets: self.extra_aliased_targets@,
            alias_rule: opt_alias_view(self.alias_rule),
        }
    }
}

/// Whether a crate's build script is rendered: the crate's own setting if it has one,
/// else the default.
pub open spec fn includes_build_script(package_extra: Option<PairedExtras>, default_generate_build_script: bool) -> bool {
    match package_extra {
        Some(p) => match p.crate_extra.gen_build_script {
            Some(b) => b,
            None => default_generate_build_script,
        },
        None => default_generate_build_script,
    }
}

impl CrateContext {
    /// Determine whether or not a crate __should__ include a build script
    /// (build.rs) if it happens to have one.
    pub fn crate_includes_build_script(
        package_extra: Option<(&CrateId, &PairedExtras)>,
        default_generate_build_script: bool,
    ) -> (r: bool)
        ensures
            r == includes_build_script(
                match package_extra {
                    Some((_, p)) => Some(*p),
                    None => None,
                },
                default_generate_build_script,
            ),
    {
        // If the crate has extra settings, which explicitly set `gen_build_script`, always use
        // this value, otherwise, fallback to the provided default.
        match package_extra {
            Some((_, settings)) => match settings.crate_extra.gen_build_script {
                Some(b) => b,
                None => default_generate_build_script,
            },
            None => default_generate_build_script,
        }
    }
}

/// A set-valued attribute with a value added to every configuration.
pub open spec fn inserted_common<A>(sel: (Set<A>, Map<Seq<char>, Set<A>>), v: A) -> (Set<A>, Map<Seq<char>, Set<A>>) {
    (sel.0.insert(v), merged_set_selects(Map::<Seq<char>, Set<A>>::empty(), sel.1, set![v]))
}

/// The package an annotation of the crate graph is about.
pub open spec fn package_of(annotation: CrateAnnotation, packages: Map<Seq<char>, Package>) -> Package {
    packages[annotation.node.id@]
}

/// Which binaries of a package are rendered: the crate's setting if it has one, else all
/// or none as `include_binaries` says.
pub open spec fn gen_binaries_of(package_extra: Option<PairedExtras>, include_binaries: bool) -> GenBinariesView {
    match package_extra {
        Some(p) if p.crate_extra.gen_binaries is Some => p.crate_extra.gen_binaries->0@,
        _ => if include_binaries {
            GenBinariesView::All
        } else {
            GenBinariesView::Listed(Set::empty())
        },
    }
}

/// The rules that a package renders as.
pub open spec fn package_targets(
    annotation: CrateAnnotation,
    packages: Map<Seq<char>, Package>,
    extras: Map<CrateIdView, PairedExtras>,
    include_binaries: bool,
    include_build_scripts: bool,
) -> Set<RuleView> {
    let package = package_of(annotation, packages);
    let package_extra = package_extra_of(extras, package.id@);
    rules_of(
        package,
        parent_dir(package.manifest_path@)->0,
        gen_binaries_of(package_extra, include_binaries),
        includes_build_script(package_extra, include_build_scripts),
    )
}

/// Whether a crate's context can be made: its package and every package it depends on are
/// known, the package's manifest lies in a directory, and the crate has at most one library
/// rule.
pub open spec fn context_defined(
    annotation: CrateAnnotation,
    packages: Map<Seq<char>, Package>,
    extras: Map<CrateIdView, PairedExtras>,
    include_binaries: bool,
    include_build_scripts: bool,
) -> bool {
    let package = package_of(annotation, packages);
    let targets = package_targets(annotation, packages, extras, include_binaries, include_build_scripts);
    &&& packages.contains_key(annotation.node.id@)
    &&& deps_known(annotation.deps.normal_deps@, packages)
    &&& deps_known(annotation.deps.normal_dev_deps@, packages)
    &&& deps_known(annotation.deps.proc_macro_deps@, packages)
    &&& deps_known(annotation.deps.proc_macro_dev_deps@, packages)
    &&& parent_dir(package.manifest_path@) is Some
    &&& lib_target_unique(targets)
    &&& build_script_of(targets) is Some ==> {
        &&& deps_known(annotation.deps.build_deps@, packages)
        &&& deps_known(annotation.deps.build_link_deps@, packages)
        &&& deps_known(annotation.deps.build_proc_macro_deps@, packages)
    }
}

/// The context of a crate, before the crate's settings are applied.
pub open spec fn base_context_view(
    annotation: CrateAnnotation,
    packages: Map<Seq<char>, Package>,
    source_annotations: Map<Seq<char>, SourceAnnotationView>,
    extras: Map<CrateIdView, PairedExtras>,
    crate_features: Map<CrateIdView, TextSelectView>,
    include_binaries: bool,
    include_build_scripts: bool,
) -> CrateContextView {
    let package = package_of(annotation, packages);
    let id = CrateIdView { name: package.name@, version: package.version@ };
    let targets = package_targets(annotation, packages, extras, include_binaries, include_build_scripts);
    let deps = crate_deps_view(annotation.deps.normal_deps@, packages);
    let build_script = build_script_of(targets);
    CrateContextView {
        name: package.name@,
        version: package.version@,
        repository: if source_annotations.contains_key(package.id@) {
            Some(source_annotations[package.id@])
        } else {
            None
        },
        targets,
        library_target_name: library_name(targets),
        common_attrs: CommonAttributesView {
            crate_features: if crate_features.contains_key(id) {
                crate_features[id]
            } else {
                empty_select()
            },
            deps: match build_script {
                // The crate depends on its own build script
                Some(a) => inserted_common(deps, CrateDependencyView { id, target: a.crate_name, alias: None }),
                None => deps,
            },
            deps_dev: crate_deps_view(annotation.deps.normal_dev_deps@, packages),
            edition: package.edition@,
            proc_macro_deps: crate_deps_view(annotation.deps.proc_macro_deps@, packages),
            proc_macro_deps_dev: crate_deps_view(annotation.deps.proc_macro_dev_deps@, packages),
            version: package.version@,
            ..default_common_view()
        },
        build_script_attrs: match build_script {
            Some(_) => Some(
                BuildScriptAttributesView {
                    deps: crate_deps_view(annotation.deps.build_deps@, packages),
                    link_deps: crate_deps_view(annotation.deps.build_link_deps@, packages),
                    proc_macro_deps: crate_deps_view(annotation.deps.build_proc_macro_deps@, packages),
                    links: opt_view(package.links),
                    ..default_build_script_view()
                },
            ),
            None => None,
        },
        license: opt_view(package.license),
        additive_build_file_content: None,
        disable_pipelining: false,
        extra_aliased_targets: Map::empty(),
        alias_rule: None,
    }
}

/// The context of a crate.
pub open spec fn context_view(
    annotation: CrateAnnotation,
    packages: Map<Seq<char>, Package>,
    source_annotations: Map<Seq<char>, SourceAnnotationView>,
    extras: Map<CrateIdView, PairedExtras>,
    crate_features: Map<CrateIdView, TextSelectView>,
    include_binaries: bool,
    include_build_scripts: bool,
) -> CrateContextView {
    with_overrides_view(
        base_context_view(
            annotation,
            packages,
            source_annotations,
            extras,
            crate_features,
            include_binaries,
            include_build_scripts,
        ),
        extras,
    )
}

impl CrateContext {
    /// Makes the context of a crate where it can be made, and `None` where a package is
    /// unknown, the package's manifest path has no parent directory, or the crate has two
    /// library rules.
    pub fn try_new(
        annotation: &CrateAnnotation,
        packages: &KeyMap<PackageId, Package>,
        source_annotations: &KeyMap<PackageId, SourceAnnotation>,
        extras: &KeyMap<CrateId, PairedExtras>,
        crate_features: &KeyMap<CrateId, SelectSet<String>>,
        include_binaries: bool,
        include_build_scripts: bool,
    ) -> (r: Option<Self>)
        ensures
            r is Some <==> context_defined(*annotation, packages@, extras@, include_binaries, include_build_scripts),
            r matches Some(c) ==> c@ == context_view(
                *annotation,
                packages@,
                source_annotations@,
                extras@,
                crate_features@,
                include_binaries,
                include_build_scripts,
            ),
            r matches Some(c) ==> (c@.build_script_attrs is Some <==> exists|x: RuleView|
                c@.targets.contains(x) && #[trigger] build_script_attrs_of(x) is Some),
            r matches Some(c) ==> rules_sorted(c.targets.elems()),
    {
        let package = match packages.get(&annotation.node.id) {
            Some(p) => p,
            None => {
                return None;
            },
        };
        let current_crate_id = CrateId::new(package.name.dup(), package.version.dup());

        // Convert the dependencies into renderable strings
        if !all_deps_known(&annotation.deps.normal_deps, packages) || !all_deps_known(
            &annotation.deps.normal_dev_deps,
            packages,
        ) || !all_deps_known(&annotation.deps.proc_macro_deps, packages) || !all_deps_known(
            &annotation.deps.proc_macro_dev_deps,
            packages,
        ) {
            return None;
        }
        let deps = map_deps(&annotation.deps.normal_deps, packages);
        let deps_dev = map_deps(&annotation.deps.normal_dev_deps, packages);
        let proc_macro_deps = map_deps(&annotation.deps.proc_macro_deps, packages);
        let proc_macro_deps_dev = map_deps(&annotation.deps.proc_macro_dev_deps, packages);

        // Gather all "common" attributes
        let mut common_attrs = CommonAttributes::default();
        common_attrs.crate_features = match crate_features.get(&current_crate_id) {
            Some(f) => f.dup(),
            None => SelectSet::new(),
        };
        common_attrs.deps = deps;
        common_attrs.deps_dev = deps_dev;
        common_attrs.edition = package.edition.dup();
        common_attrs.proc_macro_deps = proc_macro_deps;
        common_attrs.proc_macro_deps_dev = proc_macro_deps_dev;
        common_attrs.version = package.version.dup();

        // Locate extra settings for the current package.
        let package_extra = match find_package_extra(extras, &package.id) {
            Some(i) => Some((extras.key_at(i), extras.value_at(i))),
            None => None,
        };
        let ghost pe = package_extra_of(extras@, package.id@);
        proof {
            match package_extra {
                Some((k, v)) => {
                    let c = choose|id: CrateIdView| is_package_extra_key(extras@, package.id@, id);
                    lemma_package_extra_key_unique(extras@, package.id@, k@, c);
                    assert(pe == Some(*v));
                },
                None => {
                    assert(pe is None);
                },
            }
        }

        let include_build_scripts = Self::crate_includes_build_script(package_extra, include_build_scripts);

        let gen_none = GenBinaries::Listed(OrdSet::new());
        let gen_all = GenBinaries::All;
        let gen_default = if include_binaries {
            &gen_all
        } else {
            &gen_none
        };
        let gen_binaries = match package_extra {
            Some((_, settings)) => match &settings.crate_extra.gen_binaries {
                Some(g) => g,
                None => gen_default,
            },
            None => gen_default,
        };
        assert(gen_binaries@ == gen_binaries_of(pe, include_binaries));

        if path_parent(package.manifest_path.as_str()).is_none() {
            return None;
        }

        // Iterate over each target and produce a Bazel target for all supported "kinds"
        let targets = Self::collect_targets(&annotation.node, packages, gen_binaries, include_build_scripts);

        // Parse the library crate name from the set of included targets
        let library_target_name = match library_target_name_of(&targets) {
            Some(name) => name,
            None => {
                return None;
            },
        };

        // Gather any build-script related attributes
        proof {
            lemma_rules_srcs(*package, parent_dir(package.manifest_path@)->0, gen_binaries@, include_build_scripts);
        }
        let build_script_target = build_script_target(&targets);
        let ghost has_build_script = build_script_target is Some;
        let build_script_attrs = match build_script_target {
            Some(target) => {
                if !all_deps_known(&annotation.deps.build_deps, packages) || !all_deps_known(
                    &annotation.deps.build_link_deps,
                    packages,
                ) || !all_deps_known(&annotation.deps.build_proc_macro_deps, packages) {
                    return None;
                }
                // Track the build script dependency
                common_attrs.deps.insert(
                    CrateDependency { id: current_crate_id, target: target.crate_name.dup(), alias: None },
                    None,
                );
                let mut attrs = BuildScriptAttributes::default();
                attrs.deps = map_deps(&annotation.deps.build_deps, packages);
                attrs.link_deps = map_deps(&annotation.deps.build_link_deps, packages);
                attrs.proc_macro_deps = map_deps(&annotation.deps.build_proc_macro_deps, packages);
                attrs.links = dup_opt(&package.links);
                Some(attrs)
            },
            None => None,
        };

        // Save the repository information for the current crate
        let repository = match source_annotations.get(&package.id) {
            Some(s) => Some(s.dup()),
            None => None,
        };

        // Identify the license type
        let license = dup_opt(&package.license);

        // Create the crate's context and apply extra settings
        let context = CrateContext {
            name: package.name.dup(),
            version: package.version.dup(),
            repository,
            targets,
            library_target_name,
            common_attrs,
            build_script_attrs,
            license,
            additive_build_file_content: None,
            disable_pipelining: false,
            extra_aliased_targets: KeyMap::new(),
            alias_rule: None,
        };
        assert(context@ =~= base_context_view(
            *annotation,
            packages@,
            source_annotations@,
            extras@,
            crate_features@,
            include_binaries,
            include_build_scripts,
        ));
        proof {
            if has_build_script {
                let c = choose|b: TargetAttributesView| is_first_build_script(context@.targets, b);
                assert(is_first_build_script(context@.targets, c));
                assert(build_script_attrs_of(RuleView::BuildScript(c)) is Some);
                assert(context@.targets.contains(RuleView::BuildScript(c)));
            }
        }
        let result = context.with_overrides(extras);
        Some(result)
    }

    /// Makes the context of a crate from what the crate graph and the user's settings say
    /// of it.
    pub fn new(
        annotation: &CrateAnnotation,
        packages: &KeyMap<PackageId, Package>,
        source_annotations: &KeyMap<PackageId, SourceAnnotation>,
        extras: &KeyMap<CrateId, PairedExtras>,
        crate_features: &KeyMap<CrateId, SelectSet<String>>,
        include_binaries: bool,
        include_build_scripts: bool,
    ) -> (r: Self)
        requires
            context_defined(*annotation, packages@, extras@, include_binaries, include_build_scripts),
        ensures
            r@ == context_view(
                *annotation,
                packages@,
                source_annotations@,
                extras@,
                crate_features@,
                include_binaries,
                include_build_scripts,
            ),
            // Build script attributes are populated exactly where a build script target is rendered.
            r@.build_script_attrs is Some <==> exists|x: RuleView|
                r@.targets.contains(x) && #[trigger] build_script_attrs_of(x) is Some,
            // The targets come out in rule order: by kind, then crate name, then crate root.
            rules_sorted(r.targets.elems()),
    {
        match Self::try_new(
            annotation,
            packages,
            source_annotations,
            extras,
            crate_features,
            include_binaries,
            include_build_scripts,
        ) {
            Some(c) => c,
            None => {
                // Not reached: the context is defined.
                CrateContext::default()
            },
        }
    }
}

} // verus!
