use crate_context::config::{CrateAnnotations, CrateId, GenBinaries, PairedExtras};
use crate_context::crate_context::{CrateContext, Rule, TargetAttributes};
use crate_context::keyed::Keyed;
use crate_context::keymap::KeyMap;
use crate_context::metadata::{
    CrateAnnotation, Dependency, DependencySet, Node, Package, PackageId, SourceAnnotation, Target,
};
use crate_context::ordset::OrdSet;
use crate_context::select::SelectSet;
use crate_context::starlark::Glob;

fn pid(repr: &str) -> PackageId {
    PackageId { repr: repr.to_owned() }
}

fn target(name: &str, kinds: &[&str], src_path: &str) -> Target {
    Target {
        name: name.to_owned(),
        kind: kinds.iter().map(|k| k.to_string()).collect(),
        src_path: src_path.to_owned(),
    }
}

fn package(id: &str, name: &str, version: &str, manifest_path: &str, targets: Vec<Target>) -> Package {
    Package {
        id: pid(id),
        name: name.to_owned(),
        version: version.to_owned(),
        edition: "2018".to_owned(),
        links: None,
        license: None,
        manifest_path: manifest_path.to_owned(),
        targets,
    }
}

fn no_deps() -> DependencySet {
    DependencySet {
        normal_deps: SelectSet::new(),
        normal_dev_deps: SelectSet::new(),
        proc_macro_deps: SelectSet::new(),
        proc_macro_dev_deps: SelectSet::new(),
        build_deps: SelectSet::new(),
        build_link_deps: SelectSet::new(),
        build_proc_macro_deps: SelectSet::new(),
    }
}

fn annotation(id: &str, deps: DependencySet) -> CrateAnnotation {
    CrateAnnotation { node: Node { id: pid(id) }, deps }
}

fn attrs(crate_name: &str, crate_root: &str) -> TargetAttributes {
    TargetAttributes {
        crate_name: crate_name.to_owned(),
        crate_root: Some(crate_root.to_owned()),
        srcs: Glob::new_rust_srcs(),
    }
}

fn rule_set(rules: Vec<Rule>) -> OrdSet<Rule> {
    let mut s = OrdSet::new();
    for r in rules {
        s.insert(r);
    }
    s
}

fn string_set(items: &[&str]) -> OrdSet<String> {
    let mut s = OrdSet::new();
    for i in items {
        s.insert(i.to_string());
    }
    s
}

const COMMON_ID: &str = "common 0.1.0 (path+file://{TEMP_DIR}/common)";

fn common_packages() -> KeyMap<PackageId, Package> {
    let mut packages = KeyMap::new();
    packages.insert(
        pid(COMMON_ID),
        package(
            COMMON_ID,
            "common",
            "0.1.0",
            "{TEMP_DIR}/common/Cargo.toml",
            vec![
                target("common", &["lib"], "{TEMP_DIR}/common/lib.rs"),
                target("common-bin", &["bin"], "{TEMP_DIR}/common/main.rs"),
            ],
        ),
    );
    packages
}

const OPENSSL_ID: &str = "openssl-sys 0.9.87 (registry+https://github.com/rust-lang/crates.io-index)";
const LIBC_ID: &str = "libc 0.2.144 (registry+https://github.com/rust-lang/crates.io-index)";
const CC_ID: &str = "cc 1.0.79 (registry+https://github.com/rust-lang/crates.io-index)";
const OPENSSL_DIR: &str = "{CARGO_HOME}/registry/src/index.crates.io-6f17d22bba15001f/openssl-sys-0.9.87";

fn build_script_packages() -> KeyMap<PackageId, Package> {
    let mut packages = KeyMap::new();
    packages.insert(
        pid(OPENSSL_ID),
        package(
            OPENSSL_ID,
            "openssl-sys",
            "0.9.87",
            &format!("{}/Cargo.toml", OPENSSL_DIR),
            vec![
                target("openssl-sys", &["lib"], &format!("{}/src/lib.rs", OPENSSL_DIR)),
                target("build-script-main", &["custom-build"], &format!("{}/build/main.rs", OPENSSL_DIR)),
            ],
        ),
    );
    packages.insert(
        pid(LIBC_ID),
        package(LIBC_ID, "libc", "0.2.144", "{CARGO_HOME}/libc-0.2.144/Cargo.toml", vec![]),
    );
    packages.insert(
        pid(CC_ID),
        package(CC_ID, "cc", "1.0.79", "{CARGO_HOME}/cc-1.0.79/Cargo.toml", vec![]),
    );
    packages
}

fn build_script_deps() -> DependencySet {
    let mut deps = no_deps();
    deps.normal_deps.insert(
        Dependency { package_id: pid(LIBC_ID), target_name: "libc".to_owned(), alias: None },
        None,
    );
    deps.build_deps.insert(
        Dependency { package_id: pid(CC_ID), target_name: "cc".to_owned(), alias: None },
        None,
    );
    deps
}

#[test]
fn new_context() {
    let packages = common_packages();
    let crate_annotation = annotation(COMMON_ID, no_deps());

    let include_binaries = false;
    let include_build_scripts = false;
    let context = CrateContext::new(
        &crate_annotation,
        &packages,
        &KeyMap::new(),
        &KeyMap::new(),
        &KeyMap::new(),
        include_binaries,
        include_build_scripts,
    );

    assert_eq!(context.name, "common");
    assert!(context.targets.same(&rule_set(vec![Rule::Library(attrs("common", "lib.rs"))])));
}

#[test]
fn context_with_overrides() {
    let packages = common_packages();
    let crate_annotation = annotation(COMMON_ID, no_deps());

    let mut pairred_extras = KeyMap::new();
    pairred_extras.insert(
        CrateId::new("common".to_owned(), "0.1.0".to_owned()),
        PairedExtras {
            package_id: pid(COMMON_ID),
            crate_extra: CrateAnnotations {
                gen_binaries: Some(GenBinaries::All),
                data_glob: Some(string_set(&["**/data_glob/**"])),
                ..CrateAnnotations::default()
            },
        },
    );

    let include_binaries = false;
    let include_build_scripts = false;
    let context = CrateContext::new(
        &crate_annotation,
        &packages,
        &KeyMap::new(),
        &pairred_extras,
        &KeyMap::new(),
        include_binaries,
        include_build_scripts,
    );

    assert_eq!(context.name, "common");
    assert!(context.targets.same(&rule_set(vec![
        Rule::Library(attrs("common", "lib.rs")),
        Rule::Binary(attrs("common-bin", "main.rs")),
    ])));
    assert!(context.common_attrs.data_glob.same(&string_set(&["**/data_glob/**"])));
}

#[test]
fn context_with_build_script() {
    let packages = build_script_packages();
    let crate_annotation = annotation(OPENSSL_ID, build_script_deps());

    let include_binaries = false;
    let include_build_scripts = true;
    let context = CrateContext::new(
        &crate_annotation,
        &packages,
        &KeyMap::<PackageId, SourceAnnotation>::new(),
        &KeyMap::new(),
        &KeyMap::new(),
        include_binaries,
        include_build_scripts,
    );

    assert_eq!(context.name, "openssl-sys");
    assert!(context.build_script_attrs.is_some());
    assert!(context.targets.same(&rule_set(vec![
        Rule::Library(attrs("openssl_sys", "src/lib.rs")),
        Rule::BuildScript(attrs("build_script_main", "build/main.rs")),
    ])));

    // Cargo build scripts should include all sources
    assert!(context.build_script_attrs.unwrap().data_glob.contains(&"**".to_owned()));
}

#[test]
fn context_disabled_build_script() {
    let packages = build_script_packages();
    let crate_annotation = annotation(OPENSSL_ID, build_script_deps());

    let include_binaries = false;
    let include_build_scripts = false;
    let context = CrateContext::new(
        &crate_annotation,
        &packages,
        &KeyMap::new(),
        &KeyMap::new(),
        &KeyMap::new(),
        include_binaries,
        include_build_scripts,
    );

    assert_eq!(context.name, "openssl-sys");
    assert!(context.build_script_attrs.is_none());
    assert!(context.targets.same(&rule_set(vec![Rule::Library(attrs("openssl_sys", "src/lib.rs"))])));
}

const SYSINFO_ID: &str = "sysinfo 0.22.5 (registry+https://github.com/rust-lang/crates.io-index)";

#[test]
fn context_rlib_crate_type() {
    let mut packages = KeyMap::new();
    let dir = "{CARGO_HOME}/registry/src/index.crates.io-6f17d22bba15001f/sysinfo-0.22.5";
    packages.insert(
        pid(SYSINFO_ID),
        package(
            SYSINFO_ID,
            "sysinfo",
            "0.22.5",
            &format!("{}/Cargo.toml", dir),
            vec![target("sysinfo", &["rlib", "cdylib"], &format!("{}/src/lib.rs", dir))],
        ),
    );
    let crate_annotation = annotation(SYSINFO_ID, no_deps());

    let include_binaries = false;
    let include_build_scripts = false;
    let context = CrateContext::new(
        &crate_annotation,
        &packages,
        &KeyMap::new(),
        &KeyMap::new(),
        &KeyMap::new(),
        include_binaries,
        include_build_scripts,
    );

    assert_eq!(context.name, "sysinfo");
    assert!(context.build_script_attrs.is_none());
    assert!(context.targets.same(&rule_set(vec![Rule::Library(attrs("sysinfo", "src/lib.rs"))])));
}
