// Plugin manifests and the compiler registry, the legacy manifest, the
// UCSL library registry.

use utencore::ccis::{CcisManifest, CcisManifestError, CompileError, CompilerOptions, ErrorLevel};
use utencore::plugin::{
    BytecodeVersionRange, PluginError, PluginManager, PluginManifest, PluginManifestError,
    PluginType,
};
use utencore::py2uc::registration::{ccis_manifest, plugin_manifest};
use utencore::ucsl::{
    library_name, manifest_path_for, UcslDep, UcslManifest, UcslRegistry, UCSL_DEPS_KEY,
    UCSL_VERSION,
};

fn compiler(name: &str, exts: &[&str]) -> PluginManifest {
    let exts: Vec<String> = exts.iter().map(|e| e.to_string()).collect();
    PluginManifest::new_compiler(name, "1.0", "Lang", &exts)
}

#[test]
fn py2uc_manifest_registers() {
    let m = plugin_manifest();
    assert_eq!(m.name, "py2uc");
    assert_eq!(m.plugin_type, PluginType::Compiler);
    assert!(m.validate().is_ok());
    assert!(m.is_bytecode_compatible());
    let mut pm = PluginManager::new();
    assert_eq!(pm.register_compiler_from_manifest(m).unwrap(), 0);
    assert!(pm.can_compile("py"));
    assert!(!pm.can_compile("rb"));
    assert_eq!(pm.get_compiler("py").unwrap().name(), "py2uc");
    assert_eq!(pm.get_compiler("py").unwrap().default_gc(), "generational");
    assert_eq!(pm.list_plugins().len(), 1);
}

#[test]
fn py2uc_legacy_manifest() {
    let m = ccis_manifest();
    assert_eq!(m.name, "py2uc");
    assert_eq!(m.extensions, vec!["py".to_string()]);
    assert_eq!(m.default_gc, "generational");
    assert!(m.validate().is_ok());
}

#[test]
fn later_registration_takes_over_extensions() {
    let mut pm = PluginManager::new();
    assert_eq!(pm.register_compiler_from_manifest(compiler("a", &["x", "y"])).unwrap(), 0);
    assert_eq!(pm.register_compiler_from_manifest(compiler("b", &["y", "z"])).unwrap(), 1);
    assert_eq!(pm.get_compiler("x").unwrap().name(), "a");
    assert_eq!(pm.get_compiler("y").unwrap().name(), "b");
    assert_eq!(pm.get_compiler("z").unwrap().name(), "b");
    assert!(pm.get_compiler("w").is_none());
    let mut exts = pm.extension_list();
    exts.sort();
    assert_eq!(exts, vec!["x".to_string(), "y".to_string(), "z".to_string()]);
}

#[test]
fn refused_manifest_changes_nothing() {
    let mut pm = PluginManager::new();
    let mut bad = compiler("", &["q"]);
    bad.version = String::new();
    match pm.register_compiler_from_manifest(bad) {
        Err(PluginError::InvalidManifest { name, errors }) => {
            assert_eq!(name, "");
            assert_eq!(errors, vec![PluginManifestError::EmptyName, PluginManifestError::EmptyVersion]);
        }
        other => panic!("unexpected {other:?}"),
    }
    assert!(!pm.can_compile("q"));
    assert!(pm.list_plugins().is_empty());
}

#[test]
fn refuses_incompatible_bytecode() {
    let mut pm = PluginManager::new();
    let mut m = compiler("future", &["f"]);
    m.bytecode_version = BytecodeVersionRange { min: 90, max: 99 };
    assert!(matches!(
        pm.register_compiler_from_manifest(m),
        Err(PluginError::IncompatibleBytecode { min: 90, max: 99, .. })
    ));
}

#[test]
fn refuses_non_compiler() {
    let mut pm = PluginManager::new();
    let mut m = compiler("dbg", &["d"]);
    m.plugin_type = PluginType::Debugger;
    m.ccis = None;
    assert!(matches!(
        pm.register_compiler_from_manifest(m),
        Err(PluginError::NotACompiler { name }) if name == "dbg"
    ));
}

#[test]
fn manifest_errors_in_order() {
    let mut m = compiler("n", &[]);
    m.manifest_version = 7;
    m.bytecode_version = BytecodeVersionRange { min: 0, max: 5 };
    assert_eq!(
        m.validate().unwrap_err(),
        vec![
            PluginManifestError::ManifestVersion(7),
            PluginManifestError::InvalidVersionRange { min: 0, max: 5 },
            PluginManifestError::NoExtensions,
        ]
    );
    let mut c = compiler("n", &["e"]);
    c.ccis = None;
    assert_eq!(c.validate().unwrap_err(), vec![PluginManifestError::MissingCcisInfo]);
}

#[test]
fn legacy_manifest_round_trip() {
    let m = compiler("lang", &["l"]);
    let c = m.to_ccis_manifest().unwrap();
    assert_eq!(c.name, "lang");
    assert_eq!(c.extensions, vec!["l".to_string()]);
    let back = PluginManifest::from_ccis(c);
    assert_eq!(back.name, "lang");
    assert!(back.validate().is_ok());
}

#[test]
fn legacy_registration() {
    let mut pm = PluginManager::new();
    let c = CcisManifest::new("old", "Old", &["o"]);
    assert_eq!(pm.register_compiler(c).unwrap(), 0);
    assert!(pm.can_compile("o"));
    let empty = CcisManifest::new("", "Old", &[]);
    assert!(matches!(pm.register_compiler(empty), Err(PluginError::InvalidManifest { .. })));
}

#[test]
fn ccis_manifest_errors() {
    let mut m = CcisManifest::new("", "L", &[]);
    m.ccis_version = 4;
    m.abi_version = 9;
    m.default_gc = "magic".to_string();
    let errs = m.validate().unwrap_err();
    assert_eq!(errs.len(), 5);
    assert!(matches!(errs[0], CcisManifestError::UnsupportedManifestVersion(4)));
    assert!(matches!(errs[1], CcisManifestError::EmptyName));
    assert!(matches!(errs[2], CcisManifestError::NoExtensions));
    assert!(matches!(errs[3], CcisManifestError::UnsupportedAbiVersion(9)));
    assert!(matches!(&errs[4], CcisManifestError::UnknownGcStrategy(g) if g == "magic"));
    assert!(CcisManifest::new("ok", "L", &["x"]).validate().is_ok());
}

#[test]
fn compile_errors_and_options() {
    let e = CompileError::error("bad", "f.py", 3, 4);
    assert_eq!(e.level, ErrorLevel::Error);
    assert_eq!((e.message.as_str(), e.file.as_str(), e.line, e.col), ("bad", "f.py", 3, 4));
    let w = CompileError::warning("meh", "f.py", 1, 0);
    assert_eq!(w.level, ErrorLevel::Warning);
    let o = CompilerOptions::default();
    assert_eq!((o.optimize, o.emit_debug, o.emit_line_map), (0, false, false));
}

// ── UCSL ──

#[test]
fn ucsl_default_search_paths() {
    let r = UcslRegistry::new(Some("/home/u"), Some("/opt/bin"));
    assert_eq!(
        r.search_paths,
        vec![
            "./ucsl".to_string(),
            "/home/u/.utencore/ucsl".to_string(),
            "/usr/share/utencore/ucsl".to_string(),
            "/opt/bin/ucsl".to_string(),
            "/opt/bin/../ucsl".to_string(),
        ]
    );
    let bare = UcslRegistry::new(None, None);
    assert_eq!(bare.search_paths, vec!["./ucsl".to_string(), "/usr/share/utencore/ucsl".to_string()]);
    assert!(bare.list().is_empty());
}

#[test]
fn ucsl_library_names() {
    assert_eq!(library_name("libs/math.uclib").as_deref(), Some("math"));
    assert_eq!(library_name("a/b/x.tar.ucch").as_deref(), Some("x.tar"));
    assert_eq!(library_name("notes.txt"), None);
    assert_eq!(library_name("dir/.uclib"), None);
    assert_eq!(library_name("noext"), None);
    assert_eq!(manifest_path_for("dir/math.uclib"), "dir/math.ucsl");
    assert_eq!(manifest_path_for("x.y/lib.ucch"), "x.y/lib.ucsl");
}

#[test]
fn ucsl_first_file_wins() {
    let mut r = UcslRegistry::new(None, None);
    let mut custom = UcslManifest::new("math");
    custom.version = "2.0".to_string();
    r.discover(vec![
        ("p1/math.uclib".to_string(), Some(custom)),
        ("p1/readme.md".to_string(), None),
        ("p2/math.ucch".to_string(), None),
        ("p2/io.ucch".to_string(), None),
    ]);
    assert_eq!(r.list(), vec!["io".to_string(), "math".to_string()]);
    let math = r.find("math").unwrap();
    assert_eq!(math.path, "p1/math.uclib");
    assert_eq!(math.manifest.version, "2.0");
    let io = r.find("io").unwrap();
    assert_eq!(io.manifest.version, "0.1.0");
    assert_eq!(io.manifest.ucsl_version, UCSL_VERSION);
    assert!(r.find("readme").is_none());
    assert!(!r.add_library("p3/io.uclib", None));
}

#[test]
fn ucsl_resolution_order() {
    let mut r = UcslRegistry::new(None, None);
    r.search_paths = vec!["lib".to_string()];
    r.add_path("/usr/lib/ucsl/");
    assert!(r.add_library("lib/core.uclib", None));
    assert_eq!(
        r.resolve_candidates("core"),
        vec![
            "lib/core.uclib".to_string(),
            "lib/core.uclib".to_string(),
            "lib/core.ucch".to_string(),
            "ucsl/core.uclib".to_string(),
            "ucsl/core.ucch".to_string(),
            "/usr/lib/ucsl/core.uclib".to_string(),
            "/usr/lib/ucsl/core.ucch".to_string(),
            "ucsl/core.uclib".to_string(),
            "ucsl/core.ucch".to_string(),
        ]
    );
    assert_eq!(r.resolve_candidates("x").len(), 8);
}

#[test]
fn ucsl_manifest_and_deps() {
    let m = UcslManifest::new("geo");
    assert_eq!(m.name, "geo");
    assert_eq!(m.version, "0.1.0");
    assert!(m.exports.is_empty() && m.dependencies.is_empty() && m.description.is_empty());
    let d = UcslDep::new("stdlib");
    assert_eq!(d.name, "stdlib");
    assert!(d.version.is_none());
    assert_eq!(UCSL_DEPS_KEY, "ucsl_deps");
}

#[test]
fn extensions_are_listed_in_order() {
    let mut pm = PluginManager::new();
    pm.register_compiler_from_manifest(compiler("a", &["zz", "b"])).unwrap();
    pm.register_compiler_from_manifest(compiler("c", &["m"])).unwrap();
    assert_eq!(pm.extension_list(), vec!["b".to_string(), "m".to_string(), "zz".to_string()]);
}

#[test]
fn manifest_problems_have_messages() {
    assert_eq!(PluginManifestError::ManifestVersion(7).to_text(), "manifest_version 7 != current 1");
    assert_eq!(PluginManifestError::EmptyName.to_text(), "plugin name is empty");
    assert_eq!(PluginManifestError::EmptyVersion.to_text(), "plugin version is empty");
    assert_eq!(
        PluginManifestError::InvalidVersionRange { min: 3, max: 2 }.to_text(),
        "invalid bytecode version range: 3..2"
    );
    assert_eq!(PluginManifestError::MissingCcisInfo.to_text(), "compiler plugins must provide CCIS info");
    assert_eq!(PluginManifestError::NoExtensions.to_text(), "CCIS: at least one file extension required");
    assert_eq!(CcisManifestError::UnsupportedManifestVersion(2).to_text(), "Unsupported CCIS manifest version: 2");
    assert_eq!(CcisManifestError::EmptyName.to_text(), "Plugin name is empty");
    assert_eq!(CcisManifestError::NoExtensions.to_text(), "No source extensions declared");
    assert_eq!(CcisManifestError::UnsupportedAbiVersion(9).to_text(), "Unsupported CCIS ABI version: 9");
    assert_eq!(CcisManifestError::UnknownGcStrategy("arc".to_string()).to_text(), "Unknown GC strategy: arc");
}

#[test]
fn unknown_extensions_list_the_supported_ones() {
    let mut pm = PluginManager::new();
    let err = pm.compiler_for("py").err().unwrap();
    assert_eq!(err, "No compiler plugin registered for '.py' files.\nSupported extensions: ");
    pm.register_compiler_from_manifest(compiler("b", &["zz", "c"])).unwrap();
    pm.register_compiler_from_manifest(plugin_manifest()).unwrap();
    assert_eq!(pm.compiler_for("py").ok().unwrap().name(), "py2uc");
    assert_eq!(pm.compiler_for("c").ok().unwrap().name(), "b");
    let err = pm.compiler_for("rs").err().unwrap();
    assert_eq!(err, "No compiler plugin registered for '.rs' files.\nSupported extensions: c, py, zz");
}

#[test]
fn refused_registrations_have_messages() {
    let mut pm = PluginManager::new();
    let mut bad = compiler("", &["q"]);
    bad.version = String::new();
    let e = pm.register_compiler_from_manifest(bad).unwrap_err();
    assert_eq!(e.to_text(), "Plugin '' manifest invalid: plugin name is empty; plugin version is empty");
    let mut m = compiler("future", &["f"]);
    m.bytecode_version = BytecodeVersionRange { min: 90, max: 99 };
    let e = pm.register_compiler_from_manifest(m).unwrap_err();
    assert_eq!(
        e.to_text(),
        "Plugin 'future' targets bytecode v90-v99, but VM supports v3. Please use a compatible plugin version."
    );
    let mut m = compiler("dbg", &["d"]);
    m.plugin_type = PluginType::Debugger;
    m.ccis = None;
    let e = pm.register_compiler_from_manifest(m).unwrap_err();
    assert_eq!(e.to_text(), "Plugin 'dbg' is not a compiler plugin (missing CCIS info)");
}
