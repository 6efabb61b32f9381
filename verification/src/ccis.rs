//! CCIS — the common compiler interface: the legacy compiler-plugin
//! manifest, compiler options and structured compile errors.
use vstd::prelude::*;

use crate::bytecode::builder::ModuleBuilder;
use crate::text::{decimal, u32_to_decimal, usize_to_decimal};

verus! {

/// Current CCIS ABI version.
pub const CCIS_ABI_VERSION: u32 = 1;

/// Current CCIS manifest format version.
pub const CCIS_MANIFEST_VERSION: u32 = 1;

/// Whether `gc` names one of the GC strategies a module may request.
pub open spec fn known_gc_strategy(gc: Seq<char>) -> bool {
    gc == "generational"@ || gc == "mark-sweep"@ || gc == "refcount"@ || gc == "none"@
}

/// Whether `gc` names a known GC strategy.
pub fn is_known_gc_strategy(gc: &String) -> (r: bool)
    ensures
        r == known_gc_strategy(gc@),
{
    *gc == "generational".to_owned() || *gc == "mark-sweep".to_owned() || *gc
        == "refcount".to_owned() || *gc == "none".to_owned()
}

/// Copies a list of names into owned strings.
pub fn to_owned_list(items: &[&str]) -> (r: Vec<String>)
    ensures
        r@.len() == items@.len(),
        forall|i: int| 0 <= i < items@.len() ==> r@[i]@ == items@[i]@,
{
    let mut out: Vec<String> = Vec::new();
    let mut i: usize = 0;
    while i < items.len()
        invariant
            i <= items@.len(),
            out@.len() == i,
            forall|j: int| 0 <= j < i ==> out@[j]@ == items@[j]@,
        decreases items@.len() - i,
    {
        out.push(items[i].to_owned());
        i = i + 1;
    }
    out
}

/// A compiler plugin manifest in the legacy (C ABI) format.
#[derive(Clone, Debug)]
pub struct CcisManifest {
    /// Manifest format version (must equal `CCIS_MANIFEST_VERSION`).
    pub ccis_version: u32,
    /// Plugin name (e.g. "py2uc").
    pub name: String,
    /// Plugin version.
    pub version: String,
    /// Human-readable description.
    pub description: String,
    /// Source language name (e.g. "Python 3").
    pub language: String,
    /// File extensions this compiler handles (e.g. ["py"]).
    pub extensions: Vec<String>,
    /// Default GC strategy written to module headers.
    pub default_gc: String,
    /// Whether JIT is recommended for this language.
    pub jit_recommended: bool,
    /// CIB interface names this compiler needs.
    pub cib_interfaces: Vec<String>,
    /// Plugin ABI version.
    pub abi_version: u32,
    /// Compiler-specific key/value metadata.
    pub metadata: Vec<(String, String)>,
}

/// A problem found by `CcisManifest::validate`.
#[derive(Clone, Debug)]
pub enum CcisManifestError {
    UnsupportedManifestVersion(u32),
    EmptyName,
    NoExtensions,
    UnsupportedAbiVersion(u32),
    UnknownGcStrategy(String),
}

/// The message a manifest problem is reported with.
pub open spec fn ccis_error_text(e: CcisManifestError) -> Seq<char> {
    match e {
        CcisManifestError::UnsupportedManifestVersion(v) => "Unsupported CCIS manifest version: "@ + decimal(
            v as nat,
        ),
        CcisManifestError::EmptyName => "Plugin name is empty"@,
        CcisManifestError::NoExtensions => "No source extensions declared"@,
        CcisManifestError::UnsupportedAbiVersion(v) => "Unsupported CCIS ABI version: "@ + decimal(v as nat),
        CcisManifestError::UnknownGcStrategy(g) => "Unknown GC strategy: "@ + g@,
    }
}

impl CcisManifestError {
    /// The message this problem is reported with.
    pub fn to_text(&self) -> (r: String)
        ensures
            r@ == ccis_error_text(*self),
    {
        match self {
            CcisManifestError::UnsupportedManifestVersion(v) => {
                let mut r = "Unsupported CCIS manifest version: ".to_owned();
                r.append(u32_to_decimal(*v).as_str());
                r
            },
            CcisManifestError::EmptyName => "Plugin name is empty".to_owned(),
            CcisManifestError::NoExtensions => "No source extensions declared".to_owned(),
            CcisManifestError::UnsupportedAbiVersion(v) => {
                let mut r = "Unsupported CCIS ABI version: ".to_owned();
                r.append(u32_to_decimal(*v).as_str());
                r
            },
            CcisManifestError::UnknownGcStrategy(g) => {
                let mut r = "Unknown GC strategy: ".to_owned();
                r.append(g.as_str());
                r
            },
        }
    }
}

/// The problems of a manifest, in the order `validate` reports them.
pub open spec fn ccis_manifest_errors(m: CcisManifest) -> Seq<CcisManifestError> {
    (if m.ccis_version != CCIS_MANIFEST_VERSION {
        seq![CcisManifestError::UnsupportedManifestVersion(m.ccis_version)]
    } else {
        Seq::empty()
    }) + (if m.name@.len() == 0 {
        seq![CcisManifestError::EmptyName]
    } else {
        Seq::empty()
    }) + (if m.extensions@.len() == 0 {
        seq![CcisManifestError::NoExtensions]
    } else {
        Seq::empty()
    }) + (if m.abi_version != CCIS_ABI_VERSION {
        seq![CcisManifestError::UnsupportedAbiVersion(m.abi_version)]
    } else {
        Seq::empty()
    }) + (if !known_gc_strategy(m.default_gc@) {
        seq![CcisManifestError::UnknownGcStrategy(m.default_gc)]
    } else {
        Seq::empty()
    })
}

impl CcisManifest {
    pub fn new(name: &str, language: &str, extensions: &[&str]) -> (m: Self)
        ensures
            m.ccis_version == CCIS_MANIFEST_VERSION,
            m.name@ == name@,
            m.version@ == "0.0.5"@,
            m.description@.len() == 0,
            m.language@ == language@,
            m.extensions@.len() == extensions@.len(),
            forall|i: int| 0 <= i < extensions@.len() ==> m.extensions@[i]@ == extensions@[i]@,
            m.default_gc@ == "generational"@,
            !m.jit_recommended,
            m.cib_interfaces@.len() == 0,
            m.abi_version == CCIS_ABI_VERSION,
            m.metadata@.len() == 0,
    {
        CcisManifest {
            ccis_version: CCIS_MANIFEST_VERSION,
            name: name.to_owned(),
            version: "0.0.5".to_owned(),
            description: String::new(),
            language: language.to_owned(),
            extensions: to_owned_list(extensions),
            default_gc: "generational".to_owned(),
            jit_recommended: false,
            cib_interfaces: Vec::new(),
            abi_version: CCIS_ABI_VERSION,
            metadata: Vec::new(),
        }
    }

    /// Checks the required fields; lists every problem found.
    pub fn validate(&self) -> (r: Result<(), Vec<CcisManifestError>>)
        ensures
            r is Ok <==> ccis_manifest_errors(*self).len() == 0,
            r matches Err(errs) ==> errs@ == ccis_manifest_errors(*self),
    {
        let mut errs: Vec<CcisManifestError> = Vec::new();
        if self.ccis_version != CCIS_MANIFEST_VERSION {
            errs.push(CcisManifestError::UnsupportedManifestVersion(self.ccis_version));
        }
        if self.name.as_str().is_empty() {
            errs.push(CcisManifestError::EmptyName);
        }
        if self.extensions.len() == 0 {
            errs.push(CcisManifestError::NoExtensions);
        }
        if self.abi_version != CCIS_ABI_VERSION {
            errs.push(CcisManifestError::UnsupportedAbiVersion(self.abi_version));
        }
        if !is_known_gc_strategy(&self.default_gc) {
            errs.push(CcisManifestError::UnknownGcStrategy(self.default_gc.clone()));
        }
        assert(errs@ =~= ccis_manifest_errors(*self));
        if errs.len() == 0 {
            Ok(())
        } else {
            Err(errs)
        }
    }
}

/// Per-invocation compiler options. The GC strategy comes from the plugin
/// manifest, not from here.
#[derive(Clone, Copy, Debug, PartialEq, Eq, Structural)]
pub struct CompilerOptions {
    /// Optimization level (0 = none, 1 = basic, 2 = aggressive).
    pub optimize: u8,
    /// Whether to emit debug info.
    pub emit_debug: bool,
    /// Whether to emit line-number mappings in the module header.
    pub emit_line_map: bool,
}

impl Default for CompilerOptions {
    fn default() -> (r: Self)
        ensures
            r == (CompilerOptions { optimize: 0, emit_debug: false, emit_line_map: false }),
    {
        CompilerOptions { optimize: 0, emit_debug: false, emit_line_map: false }
    }
}

/// What a compiler is handed for one source file: the text, the file's
/// name (for diagnostics and the module name), the builder it emits into
/// and the options.
pub struct CompileContext<'a, 'b> {
    pub source: &'a str,
    pub filename: &'a str,
    pub builder: &'b mut ModuleBuilder<'a>,
    pub options: &'a CompilerOptions,
}

/// Severity of a compiler diagnostic.
#[derive(Clone, Copy, Debug, PartialEq, Eq, Structural)]
pub enum ErrorLevel {
    Error,
    Warning,
    Note,
}

/// The word that names a diagnostic's level.
/// A diagnostic as it is printed: `file:line:col: level: message`.
pub open spec fn compile_error_text(e: CompileError) -> Seq<char> {
    e.file@ + ":"@ + decimal(e.line as nat) + ":"@ + decimal(e.col as nat) + ": "@ + level_tag(e.level)
        + ": "@ + e.message@
}

pub open spec fn level_tag(l: ErrorLevel) -> Seq<char> {
    match l {
        ErrorLevel::Error => "error"@,
        ErrorLevel::Warning => "warning"@,
        ErrorLevel::Note => "note"@,
    }
}

/// A compiler diagnostic with its source location.
#[derive(Clone, Debug)]
pub struct CompileError {
    pub message: String,
    pub file: String,
    pub line: usize,
    pub col: usize,
    pub level: ErrorLevel,
}

impl CompileError {
    pub fn error(msg: &str, file: &str, line: usize, col: usize) -> (e: Self)
        ensures
            e.message@ == msg@,
            e.file@ == file@,
            e.line == line,
            e.col == col,
            e.level == ErrorLevel::Error,
    {
        CompileError {
            message: msg.to_owned(),
            file: file.to_owned(),
            line,
            col,
            level: ErrorLevel::Error,
        }
    }

    /// `file:line:col: level: message`, the text a diagnostic is shown as.
    pub fn to_text(&self) -> (r: String)
        ensures
            r@ == compile_error_text(*self),
    {
        proof {
            reveal_strlit(":");
            reveal_strlit(": ");
            reveal_strlit("error");
            reveal_strlit("warning");
            reveal_strlit("note");
        }
        let tag = match self.level {
            ErrorLevel::Error => "error",
            ErrorLevel::Warning => "warning",
            ErrorLevel::Note => "note",
        };
        let mut r = self.file.clone();
        r.append(":");
        r.append(usize_to_decimal(self.line).as_str());
        r.append(":");
        r.append(usize_to_decimal(self.col).as_str());
        r.append(": ");
        r.append(tag);
        r.append(": ");
        r.append(self.message.as_str());
        r
    }

    pub fn warning(msg: &str, file: &str, line: usize, col: usize) -> (e: Self)
        ensures
            e.message@ == msg@,
            e.file@ == file@,
            e.line == line,
            e.col == col,
            e.level == ErrorLevel::Warning,
    {
        CompileError {
            message: msg.to_owned(),
            file: file.to_owned(),
            line,
            col,
            level: ErrorLevel::Warning,
        }
    }
}

/// A string passed across the plugin boundary by reference to a module's
/// string table.
#[derive(Clone, Copy, Debug, PartialEq, Eq, Structural)]
pub struct BorrowedStr {
    pub module_id: u16,
    pub string_id: u32,
}

} // verus!
