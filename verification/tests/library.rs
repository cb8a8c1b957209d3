use crate_context::config::{AliasRule, CrateAnnotations, CrateId, GenBinaries, PairedExtras};
use crate_context::crate_context::{CrateContext, CrateDependency, Rule, TargetAttributes};
use crate_context::keyed::Keyed;
use crate_context::keymap::KeyMap;
use crate_context::metadata::{
    Commitish, CrateAnnotation, Dependency, DependencySet, Node, Package, PackageId, SourceAnnotation, Target,
};
use crate_context::order::{text_eq, text_lt};
use crate_context::ordset::OrdSet;
use crate_context::select::{SelectList, SelectMap, SelectScalar, SelectSet};
use crate_context::starlark::{Glob, Label};
use crate_context::utils::{replace_char, sanitize_module_name};

fn pid(repr: &str) -> PackageId {
    PackageId { repr: repr.to_owned() }
}

fn target(name: &str, kinds: &[&str], src_path: &str) -> Target {
    Target {
        name: name.to_owned(),
        kind: kinds.iter().map(|k| k.to_string()).collect(),
        src_path: src_path.to_owned(),
    }
}

fn package(id: &str, name: &str, version: &str, manifest_path: &str, targets: Vec<Target>) -> Package {
    Package {
        id: pid(id),
        name: name.to_owned(),
        version: version.to_owned(),
        edition: "2021".to_owned(),
        links: Some("ssl".to_owned()),
        license: Some("MIT".to_owned()),
        manifest_path: manifest_path.to_owned(),
        targets,
    }
}

fn no_deps() -> DependencySet {
    DependencySet {
        normal_deps: SelectSet::new(),
        normal_dev_deps: SelectSet::new(),
        proc_macro_deps: SelectSet::new(),
        proc_macro_dev_deps: SelectSet::new(),
        build_deps: SelectSet::new(),
        build_link_deps: SelectSet::new(),
        build_proc_macro_deps: SelectSet::new(),
    }
}

fn attrs(crate_name: &str, crate_root: &str) -> TargetAttributes {
    TargetAttributes {
        crate_name: crate_name.to_owned(),
        crate_root: Some(crate_root.to_owned()),
        srcs: Glob::new_rust_srcs(),
    }
}

fn rule_set(rules: Vec<Rule>) -> OrdSet<Rule> {
    let mut s = OrdSet::new();
    for r in rules {
        s.insert(r);
    }
    s
}

fn string_set(items: &[&str]) -> OrdSet<String> {
    let mut s = OrdSet::new();
    for i in items {
        s.insert(i.to_string());
    }
    s
}

fn label_set(items: &[&str]) -> OrdSet<Label> {
    let mut s = OrdSet::new();
    for i in items {
        s.insert(Label { text: i.to_string() });
    }
    s
}

fn sorted(s: &OrdSet<String>) -> Vec<String> {
    let mut v = s.to_vec();
    v.sort();
    v
}

const ID: &str = "demo 1.2.3 (path+file:///work/demo)";

fn one_package(targets: Vec<Target>) -> KeyMap<PackageId, Package> {
    let mut packages = KeyMap::new();
    packages.insert(pid(ID), package(ID, "demo-crate", "1.2.3", "/work/demo/Cargo.toml", targets));
    packages
}

fn annotation(deps: DependencySet) -> CrateAnnotation {
    CrateAnnotation { node: Node { id: pid(ID) }, deps }
}

fn make(
    packages: &KeyMap<PackageId, Package>,
    extras: &KeyMap<CrateId, PairedExtras>,
    include_binaries: bool,
    include_build_scripts: bool,
) -> Option<CrateContext> {
    CrateContext::try_new(
        &annotation(no_deps()),
        packages,
        &KeyMap::new(),
        extras,
        &KeyMap::new(),
        include_binaries,
        include_build_scripts,
    )
}

fn demo_extras(crate_extra: CrateAnnotations) -> KeyMap<CrateId, PairedExtras> {
    let mut extras = KeyMap::new();
    extras.insert(
        CrateId::new("demo-crate".to_owned(), "1.2.3".to_owned()),
        PairedExtras { package_id: pid(ID), crate_extra },
    );
    extras
}

#[test]
fn module_names_replace_hyphens() {
    assert_eq!(sanitize_module_name("openssl-sys"), "openssl_sys");
    assert_eq!(sanitize_module_name("a-b-c"), "a_b_c");
    assert_eq!(sanitize_module_name("plain"), "plain");
    assert_eq!(replace_char("a\\b\\c", '\\', '/'), "a/b/c");
}

#[test]
fn text_order_is_by_code_point() {
    assert!(text_lt("abc", "abd"));
    assert!(text_lt("ab", "abc"));
    assert!(!text_lt("abc", "abc"));
    assert!(!text_lt("b", "abc"));
    assert!(text_lt("", "a"));
    assert!(text_eq("same", "same"));
    assert!(!text_eq("same", "sam"));
}

#[test]
fn binaries_keep_names_and_libraries_are_sanitized() {
    let packages = one_package(vec![
        target("demo-crate", &["lib"], "/work/demo/src/lib.rs"),
        target("demo-tool", &["bin"], "/work/demo/src/main.rs"),
    ]);
    let context = make(&packages, &KeyMap::new(), true, false).unwrap();
    assert!(context.targets.same(&rule_set(vec![
        Rule::Library(attrs("demo_crate", "src/lib.rs")),
        Rule::Binary(attrs("demo-tool", "src/main.rs")),
    ])));
    assert_eq!(context.library_target_name, Some("demo_crate".to_owned()));
    assert_eq!(context.common_attrs.edition, "2021");
    assert_eq!(context.common_attrs.version, "1.2.3");
    assert_eq!(context.license, Some("MIT".to_owned()));
    assert!(context.common_attrs.compile_data_glob.same(&string_set(&["**"])));
}

#[test]
fn crate_roots_use_forward_slashes() {
    let packages = one_package(vec![target("demo-crate", &["lib"], "/work/demo/src\\win\\lib.rs")]);
    let context = make(&packages, &KeyMap::new(), false, false).unwrap();
    assert!(context.targets.same(&rule_set(vec![Rule::Library(attrs("demo_crate", "src/win/lib.rs"))])));
}

#[test]
fn listed_binaries_only() {
    let packages = one_package(vec![
        target("first", &["bin"], "/work/demo/src/bin/first.rs"),
        target("second", &["bin"], "/work/demo/src/bin/second.rs"),
    ]);
    let extras = demo_extras(CrateAnnotations {
        gen_binaries: Some(GenBinaries::Listed(string_set(&["second"]))),
        ..CrateAnnotations::default()
    });
    let context = make(&packages, &extras, false, false).unwrap();
    assert!(context.targets.same(&rule_set(vec![Rule::Binary(attrs("second", "src/bin/second.rs"))])));
    assert_eq!(context.library_target_name, None);
}

#[test]
fn proc_macro_is_the_library_target() {
    let packages = one_package(vec![target("demo-derive", &["proc-macro"], "/work/demo/src/lib.rs")]);
    let context = make(&packages, &KeyMap::new(), false, false).unwrap();
    assert!(context.targets.same(&rule_set(vec![Rule::ProcMacro(attrs("demo_derive", "src/lib.rs"))])));
    assert_eq!(context.library_target_name, Some("demo_derive".to_owned()));
}

#[test]
fn two_library_targets_are_refused() {
    let packages = one_package(vec![
        target("demo-crate", &["lib"], "/work/demo/src/lib.rs"),
        target("demo-derive", &["proc-macro"], "/work/demo/derive/lib.rs"),
    ]);
    assert!(make(&packages, &KeyMap::new(), false, false).is_none());
}

#[test]
fn unknown_package_is_refused() {
    let packages: KeyMap<PackageId, Package> = KeyMap::new();
    assert!(make(&packages, &KeyMap::new(), false, false).is_none());
}

#[test]
fn manifest_without_directory_is_refused() {
    let mut packages = KeyMap::new();
    packages.insert(pid(ID), package(ID, "demo-crate", "1.2.3", "", vec![]));
    assert!(make(&packages, &KeyMap::new(), false, false).is_none());
}

#[test]
fn unknown_dependency_is_refused() {
    let packages = one_package(vec![target("demo-crate", &["lib"], "/work/demo/src/lib.rs")]);
    let mut deps = no_deps();
    deps.normal_deps.insert(
        Dependency { package_id: pid("missing 0.1.0"), target_name: "missing".to_owned(), alias: None },
        None,
    );
    let r = CrateContext::try_new(
        &CrateAnnotation { node: Node { id: pid(ID) }, deps },
        &packages,
        &KeyMap::new(),
        &KeyMap::new(),
        &KeyMap::new(),
        false,
        false,
    );
    assert!(r.is_none());
}

const DEP_ID: &str = "serde-json 1.0.0 (registry+https://github.com/rust-lang/crates.io-index)";

#[test]
fn dependencies_are_named_by_module() {
    let mut packages = one_package(vec![target("demo-crate", &["lib"], "/work/demo/src/lib.rs")]);
    packages.insert(pid(DEP_ID), package(DEP_ID, "serde-json", "1.0.0", "/reg/serde-json/Cargo.toml", vec![]));
    let mut deps = no_deps();
    deps.normal_deps.insert(
        Dependency { package_id: pid(DEP_ID), target_name: "serde-json".to_owned(), alias: Some("json".to_owned()) },
        None,
    );
    deps.normal_deps.insert(
        Dependency { package_id: pid(DEP_ID), target_name: "serde-json".to_owned(), alias: None },
        Some("linux".to_owned()),
    );
    let context = CrateContext::new(
        &CrateAnnotation { node: Node { id: pid(ID) }, deps },
        &packages,
        &KeyMap::new(),
        &KeyMap::new(),
        &KeyMap::new(),
        false,
        false,
    );
    let mut expected = SelectSet::new();
    expected.insert(
        CrateDependency {
            id: CrateId::new("serde-json".to_owned(), "1.0.0".to_owned()),
            target: "serde_json".to_owned(),
            alias: Some("json".to_owned()),
        },
        None,
    );
    expected.insert(
        CrateDependency {
            id: CrateId::new("serde-json".to_owned(), "1.0.0".to_owned()),
            target: "serde_json".to_owned(),
            alias: None,
        },
        Some("linux".to_owned()),
    );
    assert!(context.common_attrs.deps.common.same(&expected.common));
    assert_eq!(context.common_attrs.deps.selects.len(), 1);
    assert!(context.common_attrs.deps.selects.get(&"linux".to_owned()).unwrap().same(
        expected.selects.get(&"linux".to_owned()).unwrap()
    ));
}

#[test]
fn build_script_depends_on_itself_and_first_by_name() {
    let packages = one_package(vec![
        target("demo-crate", &["lib"], "/work/demo/src/lib.rs"),
        target("build-z", &["custom-build"], "/work/demo/build_z.rs"),
        target("build-a", &["custom-build"], "/work/demo/build_a.rs"),
    ]);
    let context = make(&packages, &KeyMap::new(), false, true).unwrap();
    let attrs = context.build_script_attrs.as_ref().unwrap();
    assert!(attrs.data_glob.same(&string_set(&["**"])));
    assert_eq!(attrs.links, Some("ssl".to_owned()));
    let own = CrateDependency {
        id: CrateId::new("demo-crate".to_owned(), "1.2.3".to_owned()),
        target: "build_a".to_owned(),
        alias: None,
    };
    assert!(context.common_attrs.deps.common.contains(&own));
    assert_eq!(context.common_attrs.deps.common.len(), 1);
}

#[test]
fn setting_can_enable_build_script() {
    let packages = one_package(vec![target("build-script-build", &["custom-build"], "/work/demo/build.rs")]);
    let extras = demo_extras(CrateAnnotations { gen_build_script: Some(true), ..CrateAnnotations::default() });
    let context = make(&packages, &extras, false, false).unwrap();
    assert!(context.build_script_attrs.is_some());
    let disabled = demo_extras(CrateAnnotations { gen_build_script: Some(false), ..CrateAnnotations::default() });
    let context = make(&packages, &disabled, false, true).unwrap();
    assert!(context.build_script_attrs.is_none());
    assert_eq!(context.targets.len(), 0);
}

#[test]
fn includes_build_script_prefers_setting() {
    let id = CrateId::new("demo-crate".to_owned(), "1.2.3".to_owned());
    let paired = PairedExtras {
        package_id: pid(ID),
        crate_extra: CrateAnnotations { gen_build_script: Some(false), ..CrateAnnotations::default() },
    };
    assert!(!CrateContext::crate_includes_build_script(Some((&id, &paired)), true));
    let unset = PairedExtras { package_id: pid(ID), crate_extra: CrateAnnotations::default() };
    assert!(CrateContext::crate_includes_build_script(Some((&id, &unset)), true));
    assert!(!CrateContext::crate_includes_build_script(None, false));
}

#[test]
fn first_matching_setting_by_name_wins() {
    let packages = one_package(vec![target("tool", &["bin"], "/work/demo/src/main.rs")]);
    let mut extras = KeyMap::new();
    extras.insert(
        CrateId::new("zzz".to_owned(), "1.0.0".to_owned()),
        PairedExtras {
            package_id: pid(ID),
            crate_extra: CrateAnnotations { gen_binaries: Some(GenBinaries::Listed(OrdSet::new())), ..CrateAnnotations::default() },
        },
    );
    extras.insert(
        CrateId::new("aaa".to_owned(), "1.0.0".to_owned()),
        PairedExtras {
            package_id: pid(ID),
            crate_extra: CrateAnnotations { gen_binaries: Some(GenBinaries::All), ..CrateAnnotations::default() },
        },
    );
    let context = make(&packages, &extras, false, false).unwrap();
    assert_eq!(context.targets.len(), 1);
}

fn base_context() -> CrateContext {
    let packages = one_package(vec![
        target("demo-crate", &["lib"], "/work/demo/src/lib.rs"),
        target("build-script-build", &["custom-build"], "/work/demo/build.rs"),
    ]);
    let mut sources = KeyMap::new();
    sources.insert(
        pid(ID),
        SourceAnnotation::Git {
            remote: "https://example.com/demo.git".to_owned(),
            commitish: Commitish::Rev("abc123".to_owned()),
            shallow_since: None,
            strip_prefix: None,
            patch_args: None,
            patch_tool: None,
            patches: None,
        },
    );
    CrateContext::new(&annotation(no_deps()), &packages, &sources, &KeyMap::new(), &KeyMap::new(), false, true)
}

#[test]
fn overrides_apply_settings() {
    let mut rustc_env = SelectMap::new();
    rustc_env.common.insert("KEY".to_owned(), "value".to_owned());
    let mut flags = SelectList::new();
    flags.common.push("--cfg=x".to_owned());
    let mut rundir = SelectScalar::new();
    rundir.common = Some("dir".to_owned());
    let mut extra_deps = SelectSet::new();
    extra_deps.insert(Label { text: "//extra:dep".to_owned() }, None);
    let mut aliased = KeyMap::new();
    aliased.insert("alias".to_owned(), "//x:y".to_owned());
    let extras = demo_extras(CrateAnnotations {
        deps: Some(extra_deps),
        rustc_env: Some(rustc_env),
        rustc_flags: Some(flags),
        build_script_rundir: Some(rundir),
        build_script_toolchains: Some(label_set(&["//tc:one"])),
        compile_data_glob: Some(string_set(&["data/**"])),
        disable_pipelining: true,
        additive_build_file_content: Some("    load(\"x\")\n    y()\n".to_owned()),
        extra_aliased_targets: Some(aliased),
        alias_rule: Some(AliasRule::Opt),
        shallow_since: Some("2023-01-01".to_owned()),
        patches: Some(string_set(&["fix.patch"])),
        ..CrateAnnotations::default()
    });
    let context = base_context().with_overrides(&extras);
    assert!(context.disable_pipelining);
    assert_eq!(context.additive_build_file_content, Some("load(\"x\")\ny()\n".to_owned()));
    assert_eq!(context.extra_aliased_targets.get(&"alias".to_owned()), Some(&"//x:y".to_owned()));
    assert!(matches!(context.alias_rule, Some(AliasRule::Opt)));
    assert_eq!(sorted(&context.common_attrs.compile_data_glob), vec!["**".to_owned(), "data/**".to_owned()]);
    assert!(context.common_attrs.extra_deps.common.same(&label_set(&["//extra:dep"])));
    assert_eq!(context.common_attrs.rustc_env.common.get(&"KEY".to_owned()), Some(&"value".to_owned()));
    assert_eq!(context.common_attrs.rustc_flags.common, vec!["--cfg=x".to_owned()]);
    let bs = context.build_script_attrs.as_ref().unwrap();
    assert_eq!(bs.rundir.common, Some("dir".to_owned()));
    assert!(bs.toolchains.same(&label_set(&["//tc:one"])));
    match &context.repository {
        Some(SourceAnnotation::Git { shallow_since, patches, remote, .. }) => {
            assert_eq!(shallow_since, &Some("2023-01-01".to_owned()));
            assert!(patches.as_ref().unwrap().same(&string_set(&["fix.patch"])));
            assert_eq!(remote, "https://example.com/demo.git");
        },
        _ => panic!("expected a git repository"),
    }
}

#[test]
fn overrides_without_matching_crate_change_nothing() {
    let mut extras = KeyMap::new();
    extras.insert(
        CrateId::new("demo-crate".to_owned(), "9.9.9".to_owned()),
        PairedExtras {
            package_id: pid(ID),
            crate_extra: CrateAnnotations { disable_pipelining: true, ..CrateAnnotations::default() },
        },
    );
    let context = base_context().with_overrides(&extras);
    assert!(!context.disable_pipelining);
    assert_eq!(context.additive_build_file_content, None);
    assert!(context.alias_rule.is_none());
}

#[test]
fn alias_rule_is_kept_once_set() {
    let first = demo_extras(CrateAnnotations { alias_rule: Some(AliasRule::Dbg), ..CrateAnnotations::default() });
    let second = demo_extras(CrateAnnotations { alias_rule: Some(AliasRule::Opt), ..CrateAnnotations::default() });
    let context = base_context().with_overrides(&first).with_overrides(&second);
    assert!(matches!(context.alias_rule, Some(AliasRule::Dbg)));
}

#[test]
fn set_merge_prunes_common_values() {
    let mut l: SelectSet<String> = SelectSet::new();
    l.insert("a".to_owned(), None);
    l.insert("b".to_owned(), Some("x".to_owned()));
    let mut r: SelectSet<String> = SelectSet::new();
    r.insert("b".to_owned(), None);
    r.insert("c".to_owned(), Some("x".to_owned()));
    r.insert("a".to_owned(), Some("y".to_owned()));
    let m = SelectSet::merge(l, r);
    assert_eq!(sorted(&m.common), vec!["a".to_owned(), "b".to_owned()]);
    assert_eq!(m.selects.len(), 1);
    assert_eq!(sorted(m.selects.get(&"x".to_owned()).unwrap()), vec!["c".to_owned()]);
}

#[test]
fn set_insert_common_removes_from_configurations() {
    let mut s: SelectSet<String> = SelectSet::new();
    s.insert("a".to_owned(), Some("x".to_owned()));
    s.insert("a".to_owned(), None);
    assert_eq!(s.selects.len(), 0);
    s.insert("a".to_owned(), Some("x".to_owned()));
    assert_eq!(s.selects.len(), 0);
    assert_eq!(sorted(&s.common), vec!["a".to_owned()]);
}

#[test]
fn map_merge_right_wins() {
    let mut l = SelectMap::new();
    l.common.insert("K".to_owned(), "l".to_owned());
    let mut lx = KeyMap::new();
    lx.insert("K".to_owned(), "lx".to_owned());
    lx.insert("J".to_owned(), "lj".to_owned());
    l.selects.insert("x".to_owned(), lx);
    let mut r = SelectMap::new();
    r.common.insert("K".to_owned(), "r".to_owned());
    let mut rx = KeyMap::new();
    rx.insert("J".to_owned(), "rj".to_owned());
    r.selects.insert("x".to_owned(), rx);
    let m = SelectMap::merge(l, r);
    assert_eq!(m.common.get(&"K".to_owned()), Some(&"r".to_owned()));
    let x = m.selects.get(&"x".to_owned()).unwrap();
    assert_eq!(x.len(), 1);
    assert_eq!(x.get(&"J".to_owned()), Some(&"rj".to_owned()));
}

#[test]
fn list_and_scalar_merges() {
    let mut l = SelectList::new();
    l.common.push("a".to_owned());
    let mut r = SelectList::new();
    r.common.push("b".to_owned());
    r.selects.insert("x".to_owned(), vec!["c".to_owned()]);
    let m = SelectList::merge(l, r);
    assert_eq!(m.common, vec!["a".to_owned(), "b".to_owned()]);
    assert_eq!(m.selects.get(&"x".to_owned()), Some(&vec!["c".to_owned()]));

    let mut ls = SelectScalar::new();
    ls.common = Some("l".to_owned());
    let rs = SelectScalar::new();
    let m = SelectScalar::merge(ls, rs);
    assert_eq!(m.common, Some("l".to_owned()));
}

#[test]
fn ordset_and_keymap_basics() {
    let mut s = string_set(&["a", "b"]);
    assert!(!s.insert("a".to_owned()));
    assert!(s.insert("c".to_owned()));
    assert!(s.remove(&"b".to_owned()));
    assert!(!s.remove(&"b".to_owned()));
    assert_eq!(sorted(&s), vec!["a".to_owned(), "c".to_owned()]);
    let mut m: KeyMap<String, String> = KeyMap::new();
    assert_eq!(m.insert("k".to_owned(), "1".to_owned()), None);
    assert_eq!(m.insert("k".to_owned(), "2".to_owned()), Some("1".to_owned()));
    assert_eq!(m.len(), 1);
    assert_eq!(m.remove(&"k".to_owned()), Some("2".to_owned()));
    assert!(m.is_empty());
}

#[test]
fn overrides_keep_identity_and_only_add() {
    let before = base_context();
    let extras = demo_extras(CrateAnnotations {
        data_glob: Some(string_set(&["extra/**"])),
        build_script_data_glob: Some(string_set(&["gen/**"])),
        ..CrateAnnotations::default()
    });
    let after = base_context().with_overrides(&extras);
    assert_eq!(after.name, before.name);
    assert_eq!(after.version, before.version);
    assert!(after.targets.same(&before.targets));
    assert_eq!(after.library_target_name, before.library_target_name);
    assert!(after.common_attrs.deps.common.same(&before.common_attrs.deps.common));
    assert!(before.common_attrs.data_glob.is_subset_of(&after.common_attrs.data_glob));
    assert_eq!(sorted(&after.common_attrs.data_glob), vec!["extra/**".to_owned()]);
    let bs = after.build_script_attrs.as_ref().unwrap();
    assert_eq!(sorted(&bs.data_glob), vec!["**".to_owned(), "gen/**".to_owned()]);
}

#[test]
fn unknown_build_dependency_matters_only_with_a_build_script() {
    let packages = one_package(vec![
        target("demo-crate", &["lib"], "/work/demo/src/lib.rs"),
        target("build-script-build", &["custom-build"], "/work/demo/build.rs"),
    ]);
    let deps = || {
        let mut deps = no_deps();
        deps.build_deps.insert(
            Dependency { package_id: pid("missing 0.1.0"), target_name: "missing".to_owned(), alias: None },
            None,
        );
        CrateAnnotation { node: Node { id: pid(ID) }, deps }
    };
    let with_script = CrateContext::try_new(&deps(), &packages, &KeyMap::new(), &KeyMap::new(), &KeyMap::new(), false, true);
    assert!(with_script.is_none());
    let without_script = CrateContext::try_new(&deps(), &packages, &KeyMap::new(), &KeyMap::new(), &KeyMap::new(), false, false);
    assert!(without_script.is_some());
}

fn rule_name(r: &Rule) -> (&'static str, String) {
    match r {
        Rule::Library(a) => ("lib", a.crate_name.clone()),
        Rule::ProcMacro(a) => ("proc-macro", a.crate_name.clone()),
        Rule::Binary(a) => ("bin", a.crate_name.clone()),
        Rule::BuildScript(a) => ("build", a.crate_name.clone()),
    }
}

#[test]
fn targets_come_out_in_rule_order() {
    let packages = one_package(vec![
        target("zeta", &["bin"], "/work/demo/src/bin/zeta.rs"),
        target("build-script-build", &["custom-build"], "/work/demo/build.rs"),
        target("alpha", &["bin"], "/work/demo/src/bin/alpha.rs"),
        target("demo-crate", &["lib"], "/work/demo/src/lib.rs"),
        target("mid", &["bin"], "/work/demo/src/bin/mid.rs"),
    ]);
    let context = make(&packages, &KeyMap::new(), true, true).unwrap();
    let order: Vec<(&str, String)> = (0..context.targets.len()).map(|i| rule_name(context.targets.get(i))).collect();
    assert_eq!(
        order,
        vec![
            ("lib", "demo_crate".to_owned()),
            ("bin", "alpha".to_owned()),
            ("bin", "mid".to_owned()),
            ("bin", "zeta".to_owned()),
            ("build", "build_script_build".to_owned()),
        ]
    );
}

#[test]
fn default_context_is_empty() {
    let c = CrateContext::default();
    assert_eq!(c.name, "");
    assert_eq!(c.targets.len(), 0);
    assert!(c.build_script_attrs.is_none());
    assert!(c.common_attrs.compile_data_glob.same(&string_set(&["**"])));
    assert!(!c.disable_pipelining);
}
