//! Plugin manifests and the registry of compiler plugins.
//!
//! Every plugin ships a manifest that says who it is and which range of
//! bytecode versions it targets; compiler plugins add the language, the
//! source-file extensions they handle and the GC strategy of the modules
//! they produce. Registration checks the manifest and the bytecode-version
//! range, then maps each extension to the plugin.
use vstd::prelude::*;

use crate::bytecode::module::BYTECODE_VERSION;
use crate::ccis::{CcisManifest, CCIS_ABI_VERSION};
use crate::names::{string_views, NameMap};
use crate::text::{decimal, sort_strings, strictly_sorted, u32_to_decimal};

verus! {

/// Current plugin manifest format version.
pub const PLUGIN_MANIFEST_VERSION: u32 = 1;

/// Kind of plugin.
#[derive(Clone, Copy, Debug, PartialEq, Eq, Structural)]
pub enum PluginType {
    Compiler,
    Runtime,
    Debugger,
}

/// Inclusive range of bytecode versions a plugin targets.
#[derive(Clone, Copy, Debug, PartialEq, Eq, Structural)]
pub struct BytecodeVersionRange {
    pub min: u32,
    pub max: u32,
}

impl Default for BytecodeVersionRange {
    fn default() -> (r: Self)
        ensures
            r == (BytecodeVersionRange { min: 1, max: BYTECODE_VERSION }),
    {
        BytecodeVersionRange { min: 1, max: BYTECODE_VERSION }
    }
}

/// The compiler-specific part of a manifest.
#[derive(Clone, Debug)]
pub struct CcisPluginInfo {
    /// Source language name (e.g. "Python 3").
    pub language: String,
    /// File extensions handled (e.g. ["py"]).
    pub extensions: Vec<String>,
    /// Default GC strategy of compiled modules.
    pub default_gc: String,
}

/// A plugin's self-description.
#[derive(Clone, Debug)]
pub struct PluginManifest {
    /// Manifest format version (must equal `PLUGIN_MANIFEST_VERSION`).
    pub manifest_version: u32,
    pub name: String,
    pub version: String,
    pub plugin_type: PluginType,
    pub description: String,
    pub author: String,
    /// Bytecode versions the plugin targets.
    pub bytecode_version: BytecodeVersionRange,
    /// Compiler information (required for compiler plugins).
    pub ccis: Option<CcisPluginInfo>,
}

/// A problem found by `PluginManifest::validate`.
#[derive(Clone, Copy, Debug, PartialEq, Eq, Structural)]
pub enum PluginManifestError {
    ManifestVersion(u32),
    EmptyName,
    EmptyVersion,
    InvalidVersionRange { min: u32, max: u32 },
    MissingCcisInfo,
    NoExtensions,
}

/// The message a manifest problem is reported with.
pub open spec fn plugin_error_text(e: PluginManifestError) -> Seq<char> {
    match e {
        PluginManifestError::ManifestVersion(v) => "manifest_version "@ + decimal(v as nat) + " != current "@
            + decimal(PLUGIN_MANIFEST_VERSION as nat),
        PluginManifestError::EmptyName => "plugin name is empty"@,
        PluginManifestError::EmptyVersion => "plugin version is empty"@,
        PluginManifestError::InvalidVersionRange { min, max } => "invalid bytecode version range: "@
            + decimal(min as nat) + ".."@ + decimal(max as nat),
        PluginManifestError::MissingCcisInfo => "compiler plugins must provide CCIS info"@,
        PluginManifestError::NoExtensions => "CCIS: at least one file extension required"@,
    }
}

impl PluginManifestError {
    /// The message this problem is reported with.
    pub fn to_text(&self) -> (r: String)
        ensures
            r@ == plugin_error_text(*self),
    {
        match *self {
            PluginManifestError::ManifestVersion(v) => {
                let mut r = "manifest_version ".to_owned();
                r.append(u32_to_decimal(v).as_str());
                r.append(" != current ");
                r.append(u32_to_decimal(PLUGIN_MANIFEST_VERSION).as_str());
                r
            },
            PluginManifestError::EmptyName => "plugin name is empty".to_owned(),
            PluginManifestError::EmptyVersion => "plugin version is empty".to_owned(),
            PluginManifestError::InvalidVersionRange { min, max } => {
                let mut r = "invalid bytecode version range: ".to_owned();
                r.append(u32_to_decimal(min).as_str());
                r.append("..");
                r.append(u32_to_decimal(max).as_str());
                r
            },
            PluginManifestError::MissingCcisInfo => "compiler plugins must provide CCIS info".to_owned(),
            PluginManifestError::NoExtensions => "CCIS: at least one file extension required".to_owned(),
        }
    }
}

/// The problems of a manifest, in the order `validate` reports them.
pub open spec fn plugin_manifest_errors(m: PluginManifest) -> Seq<PluginManifestError> {
    (if m.manifest_version != PLUGIN_MANIFEST_VERSION {
        seq![PluginManifestError::ManifestVersion(m.manifest_version)]
    } else {
        Seq::empty()
    }) + (if m.name@.len() == 0 {
        seq![PluginManifestError::EmptyName]
    } else {
        Seq::empty()
    }) + (if m.version@.len() == 0 {
        seq![PluginManifestError::EmptyVersion]
    } else {
        Seq::empty()
    }) + (if m.bytecode_version.min == 0 || m.bytecode_version.min > m.bytecode_version.max {
        seq![
            PluginManifestError::InvalidVersionRange {
                min: m.bytecode_version.min,
                max: m.bytecode_version.max,
            },
        ]
    } else {
        Seq::empty()
    }) + (if m.plugin_type == PluginType::Compiler && m.ccis is None {
        seq![PluginManifestError::MissingCcisInfo]
    } else {
        Seq::empty()
    }) + (if m.ccis matches Some(info) && info.extensions@.len() == 0 {
        seq![PluginManifestError::NoExtensions]
    } else {
        Seq::empty()
    })
}

/// Whether the range of a manifest contains the VM's bytecode version.
pub open spec fn bytecode_compatible(m: PluginManifest) -> bool {
    m.bytecode_version.min <= BYTECODE_VERSION <= m.bytecode_version.max
}

/// Copies a list of strings.
pub fn clone_list(items: &[String]) -> (r: Vec<String>)
    ensures
        r@ == items@,
{
    let mut out: Vec<String> = Vec::new();
    let mut i: usize = 0;
    while i < items.len()
        invariant
            i <= items@.len(),
            out@ == items@.subrange(0, i as int),
        decreases items@.len() - i,
    {
        out.push(items[i].clone());
        i = i + 1;
        assert(out@ =~= items@.subrange(0, i as int));
    }
    assert(items@.subrange(0, items@.len() as int) =~= items@);
    out
}

impl PluginManifest {
    /// A manifest for a compiler plugin, targeting bytecode versions
    /// `1..=BYTECODE_VERSION`, with the "generational" GC strategy.
    pub fn new_compiler(name: &str, version: &str, language: &str, extensions: &[String]) -> (m:
        Self)
        ensures
            m.manifest_version == PLUGIN_MANIFEST_VERSION,
            m.name@ == name@,
            m.version@ == version@,
            m.plugin_type == PluginType::Compiler,
            m.description@.len() == 0,
            m.author@.len() == 0,
            m.bytecode_version == (BytecodeVersionRange { min: 1, max: BYTECODE_VERSION }),
            m.ccis matches Some(info) && info.language@ == language@ && info.extensions@
                == extensions@ && info.default_gc@ == "generational"@,
    {
        PluginManifest {
            manifest_version: PLUGIN_MANIFEST_VERSION,
            name: name.to_owned(),
            version: version.to_owned(),
            plugin_type: PluginType::Compiler,
            description: String::new(),
            author: String::new(),
            bytecode_version: BytecodeVersionRange::default(),
            ccis: Some(
                CcisPluginInfo {
                    language: language.to_owned(),
                    extensions: clone_list(extensions),
                    default_gc: "generational".to_owned(),
                },
            ),
        }
    }

    /// Checks the manifest; lists every problem found.
    pub fn validate(&self) -> (r: Result<(), Vec<PluginManifestError>>)
        ensures
            r is Ok <==> plugin_manifest_errors(*self).len() == 0,
            r matches Err(errs) ==> errs@ == plugin_manifest_errors(*self),
    {
        let mut errs: Vec<PluginManifestError> = Vec::new();
        if self.manifest_version != PLUGIN_MANIFEST_VERSION {
            errs.push(PluginManifestError::ManifestVersion(self.manifest_version));
        }
        if self.name.as_str().is_empty() {
            errs.push(PluginManifestError::EmptyName);
        }
        if self.version.as_str().is_empty() {
            errs.push(PluginManifestError::EmptyVersion);
        }
        if self.bytecode_version.min == 0 || self.bytecode_version.min > self.bytecode_version.max {
            errs.push(
                PluginManifestError::InvalidVersionRange {
                    min: self.bytecode_version.min,
                    max: self.bytecode_version.max,
                },
            );
        }
        if self.plugin_type == PluginType::Compiler && self.ccis.is_none() {
            errs.push(PluginManifestError::MissingCcisInfo);
        }
        if let Some(info) = &self.ccis {
            if info.extensions.len() == 0 {
                errs.push(PluginManifestError::NoExtensions);
            }
        }
        assert(errs@ =~= plugin_manifest_errors(*self));
        if errs.len() == 0 {
            Ok(())
        } else {
            Err(errs)
        }
    }

    /// Whether the plugin's bytecode-version range contains the VM's
    /// bytecode version.
    pub fn is_bytecode_compatible(&self) -> (r: bool)
        ensures
            r == bytecode_compatible(*self),
    {
        self.bytecode_version.min <= BYTECODE_VERSION && self.bytecode_version.max
            >= BYTECODE_VERSION
    }

    /// The legacy manifest of a compiler plugin (`None` without compiler
    /// information).
    pub fn to_ccis_manifest(&self) -> (r: Option<CcisManifest>)
        ensures
            self.ccis is None ==> r is None,
            self.ccis matches Some(info) ==> r matches Some(c) && c.name@ == self.name@
                && c.version@ == self.version@ && c.description@ == self.description@
                && c.language@ == info.language@ && string_views(c.extensions@)
                == string_views(info.extensions@) && c.default_gc@ == info.default_gc@
                && c.ccis_version == crate::ccis::CCIS_MANIFEST_VERSION && c.abi_version
                == CCIS_ABI_VERSION && !c.jit_recommended && c.cib_interfaces@.len() == 0
                && c.metadata@.len() == 0,
    {
        match &self.ccis {
            None => None,
            Some(info) => {
                let mut m = CcisManifest {
                    ccis_version: crate::ccis::CCIS_MANIFEST_VERSION,
                    name: self.name.clone(),
                    version: self.version.clone(),
                    description: self.description.clone(),
                    language: info.language.clone(),
                    extensions: clone_list(info.extensions.as_slice()),
                    default_gc: info.default_gc.clone(),
                    jit_recommended: false,
                    cib_interfaces: Vec::new(),
                    abi_version: CCIS_ABI_VERSION,
                    metadata: Vec::new(),
                };
                assert(string_views(m.extensions@) =~= string_views(info.extensions@));
                Some(m)
            },
        }
    }

    /// The manifest equivalent to a legacy one: a compiler plugin targeting
    /// bytecode versions `1..=BYTECODE_VERSION`.
    pub fn from_ccis(ccis: CcisManifest) -> (m: Self)
        ensures
            m.manifest_version == PLUGIN_MANIFEST_VERSION,
            m.name == ccis.name,
            m.version == ccis.version,
            m.plugin_type == PluginType::Compiler,
            m.description == ccis.description,
            m.author@.len() == 0,
            m.bytecode_version == (BytecodeVersionRange { min: 1, max: BYTECODE_VERSION }),
            m.ccis matches Some(info) && info.language == ccis.language && info.extensions
                == ccis.extensions && info.default_gc == ccis.default_gc,
    {
        PluginManifest {
            manifest_version: PLUGIN_MANIFEST_VERSION,
            name: ccis.name,
            version: ccis.version,
            plugin_type: PluginType::Compiler,
            description: ccis.description,
            author: String::new(),
            bytecode_version: BytecodeVersionRange::default(),
            ccis: Some(
                CcisPluginInfo {
                    language: ccis.language,
                    extensions: ccis.extensions,
                    default_gc: ccis.default_gc,
                },
            ),
        }
    }
}

/// A registered plugin with its manifest.
#[derive(Clone, Debug)]
pub struct PluginInfo {
    pub manifest: PluginManifest,
    pub plugin_type: PluginType,
}

impl PluginInfo {
    pub fn name(&self) -> (r: &str)
        ensures
            r@ == self.manifest.name@,
    {
        self.manifest.name.as_str()
    }

    pub fn version(&self) -> (r: &str)
        ensures
            r@ == self.manifest.version@,
    {
        self.manifest.version.as_str()
    }

    pub fn description(&self) -> (r: &str)
        ensures
            r@ == self.manifest.description@,
    {
        self.manifest.description.as_str()
    }

    /// Extensions the compiler handles (empty for non-compiler plugins).
    pub fn extensions(&self) -> (r: &[String])
        ensures
            self.manifest.ccis is Some ==> r@ == self.manifest.ccis->0.extensions@,
            self.manifest.ccis is None ==> r@.len() == 0,
    {
        match &self.manifest.ccis {
            Some(info) => info.extensions.as_slice(),
            None => &[],
        }
    }

    /// The GC strategy of compiled modules ("generational" without compiler
    /// information).
    pub fn default_gc(&self) -> (r: &str)
        ensures
            r@ == plugin_default_gc(*self),
    {
        match &self.manifest.ccis {
            Some(info) => info.default_gc.as_str(),
            None => "generational",
        }
    }

    /// CIB interface dependencies (none are recorded per plugin).
    pub fn cib_interfaces(&self) -> (r: &[String])
        ensures
            r@.len() == 0,
    {
        &[]
    }
}

/// The GC strategy a plugin gives the modules it compiles.
pub open spec fn plugin_default_gc(p: PluginInfo) -> Seq<char> {
    match p.manifest.ccis {
        Some(info) => info.default_gc@,
        None => "generational"@,
    }
}

/// Why a plugin could not be registered, or a compiler not be found.
#[derive(Clone, Debug)]
pub enum PluginError {
    /// The manifest failed validation.
    InvalidManifest { name: String, errors: Vec<PluginManifestError> },
    /// The plugin's bytecode range does not contain `BYTECODE_VERSION`.
    IncompatibleBytecode { name: String, min: u32, max: u32 },
    /// The manifest carries no compiler information.
    NotACompiler { name: String },
}

/// Whether a manifest can be registered: it is valid, its bytecode range
/// contains `BYTECODE_VERSION`, and it carries compiler information.
pub open spec fn registrable(m: PluginManifest) -> bool {
    plugin_manifest_errors(m).len() == 0 && bytecode_compatible(m) && m.ccis is Some
}

/// Whether `e` is the error with which registering `m` is refused: the
/// validation problems if there are any, else the bytecode range, else the
/// missing compiler information.
pub open spec fn refusal(m: PluginManifest, e: PluginError) -> bool {
    if plugin_manifest_errors(m).len() != 0 {
        e matches PluginError::InvalidManifest { name, errors } && name == m.name && errors@
            == plugin_manifest_errors(m)
    } else if !bytecode_compatible(m) {
        e matches PluginError::IncompatibleBytecode { name, min, max } && name == m.name && min
            == m.bytecode_version.min && max == m.bytecode_version.max
    } else if m.ccis is None {
        e matches PluginError::NotACompiler { name } && name == m.name
    } else {
        false
    }
}

/// The messages of manifest problems, in order.
pub open spec fn manifest_error_texts(es: Seq<PluginManifestError>) -> Seq<Seq<char>> {
    es.map_values(|e: PluginManifestError| plugin_error_text(e))
}

/// The message a refused registration is reported with.
pub open spec fn registration_error_text(e: PluginError) -> Seq<char> {
    match e {
        PluginError::InvalidManifest { name, errors } => "Plugin '"@ + name@ + "' manifest invalid: "@
            + join_with(manifest_error_texts(errors@), "; "@),
        PluginError::IncompatibleBytecode { name, min, max } => "Plugin '"@ + name@
            + "' targets bytecode v"@ + decimal(min as nat) + "-v"@ + decimal(max as nat)
            + ", but VM supports v"@ + decimal(BYTECODE_VERSION as nat)
            + ". Please use a compatible plugin version."@,
        PluginError::NotACompiler { name } => "Plugin '"@ + name@
            + "' is not a compiler plugin (missing CCIS info)"@,
    }
}

impl PluginError {
    /// The message this refusal is reported with.
    pub fn to_text(&self) -> (r: String)
        ensures
            r@ == registration_error_text(*self),
    {
        proof {
            reveal_strlit("Plugin '");
            reveal_strlit("' manifest invalid: ");
            reveal_strlit("; ");
            reveal_strlit("' targets bytecode v");
            reveal_strlit("-v");
            reveal_strlit(", but VM supports v");
            reveal_strlit(". Please use a compatible plugin version.");
            reveal_strlit("' is not a compiler plugin (missing CCIS info)");
        }
        match self {
            PluginError::InvalidManifest { name, errors } => {
                let mut texts: Vec<String> = Vec::new();
                let mut i: usize = 0;
                while i < errors.len()
                    invariant
                        i <= errors@.len(),
                        string_views(texts@) == manifest_error_texts(errors@.take(i as int)),
                    decreases errors@.len() - i,
                {
                    let t = errors[i].to_text();
                    let ghost before = texts@;
                    texts.push(t);
                    assert(string_views(texts@) =~= string_views(before).push(t@));
                    assert(errors@.take(i + 1) =~= errors@.take(i as int).push(errors@[i as int]));
                    assert(manifest_error_texts(errors@.take(i + 1)) =~= manifest_error_texts(
                        errors@.take(i as int),
                    ).push(plugin_error_text(errors@[i as int])));
                    i = i + 1;
                }
                assert(errors@.take(errors@.len() as int) =~= errors@);
                let mut r = "Plugin '".to_owned();
                r.append(name.as_str());
                r.append("' manifest invalid: ");
                r.append(join_strings(&texts, "; ").as_str());
                r
            },
            PluginError::IncompatibleBytecode { name, min, max } => {
                let mut r = "Plugin '".to_owned();
                r.append(name.as_str());
                r.append("' targets bytecode v");
                r.append(u32_to_decimal(*min).as_str());
                r.append("-v");
                r.append(u32_to_decimal(*max).as_str());
                r.append(", but VM supports v");
                r.append(u32_to_decimal(BYTECODE_VERSION).as_str());
                r.append(". Please use a compatible plugin version.");
                r
            },
            PluginError::NotACompiler { name } => {
                let mut r = "Plugin '".to_owned();
                r.append(name.as_str());
                r.append("' is not a compiler plugin (missing CCIS info)");
                r
            },
        }
    }
}

/// Checks a manifest for registration: valid, bytecode-compatible and a
/// compiler.
pub fn check_registration(manifest: &PluginManifest) -> (r: Result<(), PluginError>)
    ensures
        r is Ok <==> registrable(*manifest),
        r matches Err(e) ==> refusal(*manifest, e),
{
    match manifest.validate() {
        Err(errors) => {
            return Err(PluginError::InvalidManifest { name: manifest.name.clone(), errors });
        },
        Ok(()) => {},
    }
    if !manifest.is_bytecode_compatible() {
        return Err(
            PluginError::IncompatibleBytecode {
                name: manifest.name.clone(),
                min: manifest.bytecode_version.min,
                max: manifest.bytecode_version.max,
            },
        );
    }
    if manifest.ccis.is_none() {
        return Err(PluginError::NotACompiler { name: manifest.name.clone() });
    }
    Ok(())
}

/// Maps each of `exts` to `idx` in `compilers`, leaving other names as
/// they were.
fn map_extensions(compilers: &mut NameMap<usize>, exts: &Vec<String>, idx: usize)
    ensures
        forall|k: Seq<char>|
            #![trigger final(compilers).view().contains_key(k)]
            string_views(exts@).contains(k) ==> final(compilers).view().contains_key(k)
                && final(compilers).view()[k] == idx,
        forall|k: Seq<char>|
            #![trigger final(compilers).view().contains_key(k)]
            #![trigger final(compilers).view()[k]]
            !string_views(exts@).contains(k) ==> (final(compilers).view().contains_key(k)
                == old(compilers).view().contains_key(k)) && (old(compilers).view().contains_key(k)
                ==> final(compilers).view()[k] == old(compilers).view()[k]),
{
    let ghost ext_views = string_views(exts@);
    let ghost start = compilers.view();
    let mut i: usize = 0;
    while i < exts.len()
        invariant
            i <= exts@.len(),
            start == old(compilers).view(),
            ext_views == string_views(exts@),
            forall|k: Seq<char>|
                #![trigger compilers.view().contains_key(k)]
                ext_views.subrange(0, i as int).contains(k) ==> compilers.view().contains_key(k)
                    && compilers.view()[k] == idx,
            forall|k: Seq<char>|
                #![trigger compilers.view().contains_key(k)]
                !ext_views.subrange(0, i as int).contains(k) ==> (compilers.view().contains_key(k)
                    == start.contains_key(k)) && (start.contains_key(k) ==> compilers.view()[k]
                    == start[k]),
        decreases exts@.len() - i,
    {
        compilers.insert(exts[i].as_str(), idx);
        proof {
            let sub = ext_views.subrange(0, i as int);
            let sub2 = ext_views.subrange(0, i + 1);
            assert(sub2 =~= sub.push(exts@[i as int]@));
            assert forall|k: Seq<char>| sub2.contains(k) implies compilers.view().contains_key(k)
                && compilers.view()[k] == idx by {
                if k != exts@[i as int]@ {
                    let j = choose|j: int| 0 <= j < sub2.len() && sub2[j] == k;
                    assert(sub[j] == k);
                }
            }
            assert forall|k: Seq<char>| !sub2.contains(k) implies (compilers.view().contains_key(k)
                == start.contains_key(k)) && (start.contains_key(k) ==> compilers.view()[k]
                == start[k]) by {
                assert(k != exts@[i as int]@ ==> !sub.contains(k) || sub2.contains(k)) by {
                    if sub.contains(k) {
                        let j = choose|j: int| 0 <= j < sub.len() && sub[j] == k;
                        assert(sub2[j] == k);
                    }
                }
                assert(sub2[i as int] == exts@[i as int]@);
            }
        }
        i = i + 1;
    }
    assert(ext_views.subrange(0, exts@.len() as int) =~= ext_views);
}

/// The items of `xs`, `sep` between each two.
pub open spec fn join_with(xs: Seq<Seq<char>>, sep: Seq<char>) -> Seq<char>
    decreases xs.len(),
{
    if xs.len() == 0 {
        Seq::empty()
    } else if xs.len() == 1 {
        xs[0]
    } else {
        join_with(xs.drop_last(), sep) + sep + xs.last()
    }
}

/// The strings of `xs` joined with `sep`.
pub fn join_strings(xs: &Vec<String>, sep: &str) -> (r: String)
    ensures
        r@ == join_with(string_views(xs@), sep@),
{
    let mut out = String::new();
    let mut i: usize = 0;
    assert(string_views(xs@).take(0) =~= Seq::<Seq<char>>::empty());
    while i < xs.len()
        invariant
            i <= xs@.len(),
            out@ == join_with(string_views(xs@).take(i as int), sep@),
        decreases xs@.len() - i,
    {
        proof {
            assert(string_views(xs@).take(i + 1).drop_last() =~= string_views(xs@).take(i as int));
        }
        if i > 0 {
            out.append(sep);
        }
        out.append(xs[i].as_str());
        proof {
            if i == 0 {
                assert(out@ =~= join_with(string_views(xs@).take(1), sep@));
            }
        }
        i = i + 1;
    }
    assert(string_views(xs@).take(xs@.len() as int) =~= string_views(xs@));
    out
}

/// The message for a file whose extension `ext` no plugin compiles, given
/// the supported extensions `exts`.
pub open spec fn no_compiler_message(ext: Seq<char>, exts: Seq<Seq<char>>) -> Seq<char> {
    "No compiler plugin registered for '."@ + ext + "' files.\nSupported extensions: "@ + join_with(
        exts,
        ", "@,
    )
}

/// The registry of compiler plugins: the registered plugins, and for each
/// source-file extension the plugin that compiles it.
pub struct PluginManager {
    plugins: Vec<PluginInfo>,
    compilers: NameMap<usize>,
    /// CIB interface dependencies, loaded at VM start.
    pub cib_dependencies: Vec<String>,
}

impl PluginManager {
    /// The registered plugins, in registration order.
    pub closed spec fn plugin_seq(&self) -> Seq<PluginInfo> {
        self.plugins@
    }

    /// For each extension, the index of the plugin that compiles it.
    pub closed spec fn compiler_map(&self) -> Map<Seq<char>, usize> {
        self.compilers.view()
    }

    /// The CIB interface dependencies.
    pub closed spec fn cib_deps(&self) -> Seq<String> {
        self.cib_dependencies@
    }

    /// Every extension names a registered plugin.
    pub closed spec fn well_formed(&self) -> bool {
        forall|k: Seq<char>|
            #[trigger] self.compilers.view().contains_key(k) ==> self.compilers.view()[k]
                < self.plugins@.len()
    }

    pub fn new() -> (pm: Self)
        ensures
            pm.plugin_seq().len() == 0,
            pm.compiler_map() == Map::<Seq<char>, usize>::empty(),
            pm.cib_deps().len() == 0,
            pm.well_formed(),
    {
        PluginManager { plugins: Vec::new(), compilers: NameMap::new(), cib_dependencies: Vec::new() }
    }

    /// Registers a compiler plugin: checks the manifest (`validate`), its
    /// bytecode-version range and that it is a compiler, then records it
    /// and maps each of its extensions to it. Returns the plugin's index.
    pub fn register_compiler_from_manifest(&mut self, manifest: PluginManifest) -> (r: Result<
        usize,
        PluginError,
    >)
        requires
            old(self).well_formed(),
        ensures
            final(self).well_formed(),
            final(self).cib_deps() == old(self).cib_deps(),
            !registrable(manifest) ==> (r matches Err(e) && refusal(manifest, e)
                && final(self).plugin_seq() == old(self).plugin_seq() && final(self).compiler_map()
                == old(self).compiler_map()),
            registrable(manifest) ==> r == Ok::<usize, PluginError>(
                old(self).plugin_seq().len() as usize,
            ),
            registrable(manifest) ==> final(self).plugin_seq() == old(self).plugin_seq().push(
                PluginInfo { manifest, plugin_type: PluginType::Compiler },
            ),
            registrable(manifest) ==> forall|k: Seq<char>|
                #![trigger final(self).compiler_map().contains_key(k)]
                string_views(manifest.ccis->0.extensions@).contains(k) ==> final(self).compiler_map().contains_key(k) && final(self).compiler_map()[k] == old(self).plugin_seq().len(),
            registrable(manifest) ==> forall|k: Seq<char>|
                #![trigger final(self).compiler_map().contains_key(k)]
                !string_views(manifest.ccis->0.extensions@).contains(k) ==> final(
                    self).compiler_map().contains_key(k) == old(self).compiler_map().contains_key(k),
            registrable(manifest) ==> forall|k: Seq<char>|
                #![trigger final(self).compiler_map()[k]]
                !string_views(manifest.ccis->0.extensions@).contains(k) && old(
                    self).compiler_map().contains_key(k) ==> final(self).compiler_map()[k] == old(
                    self).compiler_map()[k],
    {
        match check_registration(&manifest) {
            Err(e) => {
                return Err(e);
            },
            Ok(()) => {},
        }
        let idx = self.plugins.len();
        let exts = clone_list(manifest.ccis.as_ref().unwrap().extensions.as_slice());
        map_extensions(&mut self.compilers, &exts, idx);
        self.plugins.push(PluginInfo { manifest, plugin_type: PluginType::Compiler });
        proof {
            assert forall|k: Seq<char>| #[trigger]
                self.compilers.view().contains_key(k) implies self.compilers.view()[k]
                < self.plugins@.len() by {
                if !string_views(exts@).contains(k) {
                    assert(old(self).compilers.view().contains_key(k));
                }
            }
        }
        Ok(idx)
    }

    /// Registers a compiler plugin described by a legacy manifest.
    pub fn register_compiler(&mut self, manifest: CcisManifest) -> (r: Result<usize, PluginError>)
        requires
            old(self).well_formed(),
        ensures
            final(self).well_formed(),
            ccis_registration_errors(manifest).len() == 0 ==> r == Ok::<usize, PluginError>(
                old(self).plugin_seq().len() as usize,
            ),
            ccis_registration_errors(manifest).len() != 0 ==> (r matches Err(
                PluginError::InvalidManifest { name, errors },
            ) && name == manifest.name && errors@ == ccis_registration_errors(manifest)),
    {
        let m = PluginManifest::from_ccis(manifest);
        proof {
            assert(plugin_manifest_errors(m) =~= ccis_registration_errors(manifest));
        }
        self.register_compiler_from_manifest(m)
    }

    /// The plugin that compiles files with extension `extension`.
    pub fn get_compiler(&self, extension: &str) -> (r: Option<&PluginInfo>)
        requires
            self.well_formed(),
        ensures
            self.compiler_map().contains_key(extension@) ==> r == Some(
                &self.plugin_seq()[self.compiler_map()[extension@] as int],
            ),
            !self.compiler_map().contains_key(extension@) ==> r is None,
    {
        match self.compilers.get(extension) {
            Some(idx) => Some(&self.plugins[*idx]),
            None => None,
        }
    }

    /// Whether some plugin compiles files with extension `ext`.
    pub fn can_compile(&self, ext: &str) -> (r: bool)
        ensures
            r == self.compiler_map().contains_key(ext@),
    {
        self.compilers.contains_key(ext)
    }

    /// The registered plugins.
    pub fn list_plugins(&self) -> (r: Vec<&PluginInfo>)
        ensures
            r@.len() == self.plugin_seq().len(),
            forall|i: int| 0 <= i < r@.len() ==> *r@[i] == self.plugin_seq()[i],
    {
        let mut out: Vec<&PluginInfo> = Vec::new();
        let mut i: usize = 0;
        while i < self.plugins.len()
            invariant
                i <= self.plugins@.len(),
                out@.len() == i,
                forall|j: int| 0 <= j < i ==> *out@[j] == self.plugins@[j],
            decreases self.plugins@.len() - i,
        {
            out.push(&self.plugins[i]);
            i = i + 1;
        }
        out
    }

    /// The extensions for which a compiler is registered, in increasing
    /// order.
    pub fn extension_list(&self) -> (r: Vec<String>)
        ensures
            string_views(r@).to_set() == self.compiler_map().dom(),
            string_views(r@).no_duplicates(),
            strictly_sorted(string_views(r@)),
    {
        sort_strings(self.compilers.keys())
    }

    /// The plugin that compiles files with extension `ext`; where there is
    /// none, the message naming the supported extensions in order.
    pub fn compiler_for(&self, ext: &str) -> (r: Result<&PluginInfo, String>)
        requires
            self.well_formed(),
        ensures
            self.compiler_map().contains_key(ext@) ==> r == Ok::<&PluginInfo, String>(
                &self.plugin_seq()[self.compiler_map()[ext@] as int],
            ),
            !self.compiler_map().contains_key(ext@) ==> (r matches Err(m) && exists|l: Seq<Seq<char>>|
                #![trigger no_compiler_message(ext@, l)]
                l.to_set() == self.compiler_map().dom() && l.no_duplicates() && strictly_sorted(l)
                    && m@ == no_compiler_message(ext@, l)),
    {
        match self.get_compiler(ext) {
            Some(info) => Ok(info),
            None => {
                let exts = self.extension_list();
                proof {
                    reveal_strlit("No compiler plugin registered for '.");
                    reveal_strlit("' files.\nSupported extensions: ");
                    reveal_strlit(", ");
                }
                let mut m = "No compiler plugin registered for '.".to_owned();
                m.append(ext);
                m.append("' files.\nSupported extensions: ");
                let list = join_strings(&exts, ", ");
                m.append(list.as_str());
                assert(m@ == no_compiler_message(ext@, string_views(exts@)));
                Err(m)
            },
        }
    }
}

/// The validation problems of the manifest `from_ccis` builds from `c`:
/// it targets bytecode versions `1..=BYTECODE_VERSION` and carries compiler
/// information, so only its name, version and extensions can fail.
pub open spec fn ccis_registration_errors(c: CcisManifest) -> Seq<PluginManifestError> {
    (if c.name@.len() == 0 {
        seq![PluginManifestError::EmptyName]
    } else {
        Seq::empty()
    }) + (if c.version@.len() == 0 {
        seq![PluginManifestError::EmptyVersion]
    } else {
        Seq::empty()
    }) + (if c.extensions@.len() == 0 {
        seq![PluginManifestError::NoExtensions]
    } else {
        Seq::empty()
    })
}

} // verus!
