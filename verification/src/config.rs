//! User settings that shape the rendered targets of a crate.
use vstd::prelude::*;
use crate::keyed::{Dup, Keyed};
use crate::keymap::KeyMap;
use crate::metadata::PackageId;
use crate::ordset::OrdSet;
use crate::select::{SelectList, SelectMap, SelectScalar, SelectSet};
use crate::starlark::Label;

verus! {

/// The view of a [`CrateId`].
pub struct CrateIdView {
    pub name: Seq<char>,
    pub version: Seq<char>,
}

/// A crate, named by its package name and version.
#[derive(Debug)]
pub struct CrateId {
    pub name: String,
    pub version: String,
}

impl View for CrateId {
    type V = CrateIdView;

    open spec fn view(&self) -> CrateIdView {
        CrateIdView { name: self.name@, version: self.version@ }
    }
}

impl CrateId {
    pub fn new(name: String, version: String) -> (id: CrateId)
        ensures
            id@ == (CrateIdView { name: name@, version: version@ }),
    {
        CrateId { name, version }
    }
}

impl Dup for CrateId {
    fn dup(&self) -> (r: Self) {
        CrateId { name: self.name.dup(), version: self.version.dup() }
    }
}

impl Keyed for CrateId {
    fn same(&self, other: &Self) -> (r: bool) {
        self.name.same(&other.name) && self.version.same(&other.version)
    }
}

/// The view of a [`GenBinaries`].
#[verifier::ext_equal]
pub enum GenBinariesView {
    All,
    Listed(Set<Seq<char>>),
}

/// Which binary targets of a package to render.
#[derive(Debug)]
pub enum GenBinaries {
    All,
    Listed(OrdSet<String>),
}

impl View for GenBinaries {
    type V = GenBinariesView;

    open spec fn view(&self) -> GenBinariesView {
        match self {
            GenBinaries::All => GenBinariesView::All,
            GenBinaries::Listed(s) => GenBinariesView::Listed(s@),
        }
    }
}

impl Dup for GenBinaries {
    fn dup(&self) -> (r: Self) {
        match self {
            GenBinaries::All => GenBinaries::All,
            GenBinaries::Listed(s) => GenBinaries::Listed(s.dup()),
        }
    }
}

/// The view of an [`AliasRule`].
pub enum AliasRuleView {
    Alias,
    Dbg,
    Fastbuild,
    Opt,
    Custom { bzl: Seq<char>, rule: Seq<char> },
}

/// The rule that aliases of a crate's targets are rendered with.
#[derive(Debug)]
pub enum AliasRule {
    Alias,
    Dbg,
    Fastbuild,
    Opt,
    Custom { bzl: String, rule: String },
}

impl View for AliasRule {
    type V = AliasRuleView;

    open spec fn view(&self) -> AliasRuleView {
        match self {
            AliasRule::Alias => AliasRuleView::Alias,
            AliasRule::Dbg => AliasRuleView::Dbg,
            AliasRule::Fastbuild => AliasRuleView::Fastbuild,
            AliasRule::Opt => AliasRuleView::Opt,
            AliasRule::Custom { bzl, rule } => AliasRuleView::Custom { bzl: bzl@, rule: rule@ },
        }
    }
}

impl Dup for AliasRule {
    fn dup(&self) -> (r: Self) {
        match self {
            AliasRule::Alias => AliasRule::Alias,
            AliasRule::Dbg => AliasRule::Dbg,
            AliasRule::Fastbuild => AliasRule::Fastbuild,
            AliasRule::Opt => AliasRule::Opt,
            AliasRule::Custom { bzl, rule } => AliasRule::Custom { bzl: bzl.dup(), rule: rule.dup() },
        }
    }
}

/// The settings that a user attached to one crate.
#[derive(Debug)]
pub struct CrateAnnotations {
    pub gen_binaries: Option<GenBinaries>,
    pub gen_build_script: Option<bool>,
    pub deps: Option<SelectSet<Label>>,
    pub proc_macro_deps: Option<SelectSet<Label>>,
    pub compile_data: Option<SelectSet<Label>>,
    pub compile_data_glob: Option<OrdSet<String>>,
    pub crate_features: Option<SelectSet<String>>,
    pub data: Option<SelectSet<Label>>,
    pub data_glob: Option<OrdSet<String>>,
    pub disable_pipelining: bool,
    pub rustc_flags: Option<SelectList>,
    pub rustc_env: Option<SelectMap>,
    pub rustc_env_files: Option<SelectSet<String>>,
    pub build_script_deps: Option<SelectSet<Label>>,
    pub build_script_proc_macro_deps: Option<SelectSet<Label>>,
    pub build_script_data: Option<SelectSet<Label>>,
    pub build_script_tools: Option<SelectSet<Label>>,
    pub build_script_toolchains: Option<OrdSet<Label>>,
    pub build_script_data_glob: Option<OrdSet<String>>,
    pub build_script_rustc_env: Option<SelectMap>,
    pub build_script_env: Option<SelectMap>,
    pub build_script_rundir: Option<SelectScalar>,
    pub additive_build_file_content: Option<String>,
    pub extra_aliased_targets: Option<KeyMap<String, String>>,
    pub alias_rule: Option<AliasRule>,
    pub shallow_since: Option<String>,
    pub patch_args: Option<Vec<String>>,
    pub patch_tool: Option<String>,
    pub patches: Option<OrdSet<String>>,
}

impl Default for CrateAnnotations {
    /// No setting at all.
    fn default() -> (a: Self)
        ensures
            a.gen_binaries is None,
            a.gen_build_script is None,
            a.deps is None,
            a.proc_macro_deps is None,
            a.compile_data is None,
            a.compile_data_glob is None,
            a.crate_features is None,
            a.data is None,
            a.data_glob is None,
            !a.disable_pipelining,
            a.rustc_flags is None,
            a.rustc_env is None,
            a.rustc_env_files is None,
            a.build_script_deps is None,
            a.build_script_proc_macro_deps is None,
            a.build_script_data is None,
            a.build_script_tools is None,
            a.build_script_toolchains is None,
            a.build_script_data_glob is None,
            a.build_script_rustc_env is None,
            a.build_script_env is None,
            a.build_script_rundir is None,
            a.additive_build_file_content is None,
            a.extra_aliased_targets is None,
            a.alias_rule is None,
            a.shallow_since is None,
            a.patch_args is None,
            a.patch_tool is None,
            a.patches is None,
    {
        CrateAnnotations {
            gen_binaries: None,
            gen_build_script: None,
            deps: None,
            proc_macro_deps: None,
            compile_data: None,
            compile_data_glob: None,
            crate_features: None,
            data: None,
            data_glob: None,
            disable_pipelining: false,
            rustc_flags: None,
            rustc_env: None,
            rustc_env_files: None,
            build_script_deps: None,
            build_script_proc_macro_deps: None,
            build_script_data: None,
            build_script_tools: None,
            build_script_toolchains: None,
            build_script_data_glob: None,
            build_script_rustc_env: None,
            build_script_env: None,
            build_script_rundir: None,
            additive_build_file_content: None,
            extra_aliased_targets: None,
            alias_rule: None,
            shallow_since: None,
            patch_args: None,
            patch_tool: None,
            patches: None,
        }
    }
}

/// A crate's settings, paired with the package they were matched to.
#[derive(Debug)]
pub struct PairedExtras {
    pub package_id: PackageId,
    pub crate_extra: CrateAnnotations,
}

impl View for PairedExtras {
    type V = PairedExtras;

    open spec fn view(&self) -> PairedExtras {
        *self
    }
}

} // verus!
