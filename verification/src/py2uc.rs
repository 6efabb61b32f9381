//! py2uc: the Python 3 to UtenCore bytecode compiler.
pub mod ast;
pub mod codegen;
pub mod grammar;
pub mod parser;
pub mod registration;
pub mod tokenizer;

use vstd::prelude::*;

use crate::bytecode::module::UtenModule;
use crate::bytecode::module::{uclib_magic, VmVersion, BYTECODE_VERSION};
use crate::ccis::{compile_error_text, level_tag, CompileError, CompilerOptions, ErrorLevel};
use crate::names::string_views;
use crate::plugin::{join_strings, no_compiler_message, plugin_default_gc, PluginManager};
use crate::text::{decimal, strictly_sorted};
use crate::py2uc::ast::{Stmt, StmtV, stmts_view};
use crate::py2uc::codegen::{
    compile_into_finalized, fn_models, gen_program, limit_message, plain_fn, python_header,
    same_tables, start_state,
};
use crate::py2uc::grammar::{program, Floats};
use crate::py2uc::parser::{floats_view, Parser};
use crate::py2uc::tokenizer::{start_view, token_stream};
use crate::text::split_ext;

verus! {

/// The stem of the last component of a path, as std's `Path::file_stem`
/// gives it.
pub uninterp spec fn path_file_stem(path: Seq<char>) -> Option<Seq<char>>;

/// Whether `p` is a bare file name: not empty, not `.` or `..`, with no
/// `/`, `\\` or `:` in it, so that as a path it is this one plain
/// component on every platform.
pub open spec fn bare_file_name(p: Seq<char>) -> bool {
    &&& p.len() > 0
    &&& !(p.len() == 1 && p[0] == '.')
    &&& !(p.len() == 2 && p[0] == '.' && p[1] == '.')
    &&& !p.contains('/')
    &&& !p.contains('\\')
    &&& !p.contains(':')
}

/// std `Path::file_stem` on `path`, as text. The contract names the
/// result; of a bare file name it states what std documents (the whole
/// name where it has no `.` past its first character, else the part
/// before its last `.`), and of other paths nothing of how components and
/// extensions are split.
#[verifier::external_body]
fn file_stem(path: &str) -> (r: Option<String>)
    ensures
        match r {
            Some(s) => path_file_stem(path@) == Some(s@),
            None => path_file_stem(path@) is None,
        },
        match r {
            Some(s) => bare_file_name(path@) ==> s@ == split_ext(path@).0,
            None => !bare_file_name(path@),
        },
{
    match std::path::Path::new(path).file_stem() {
        Some(s) => match s.to_str() {
            Some(t) => Some(t.to_owned()),
            None => None,
        },
        None => None,
    }
}

/// The extension of the last component of a path, as std's
/// `Path::extension` gives it.
pub uninterp spec fn path_extension(path: Seq<char>) -> Option<Seq<char>>;

/// std `Path::extension` on `path`, as text. The contract names the
/// result; of a bare file name it states what std documents (none where
/// it has no `.` past its first character, else the part after its last
/// `.`), and of other paths nothing.
#[verifier::external_body]
fn file_extension(path: &str) -> (r: Option<String>)
    ensures
        match r {
            Some(s) => path_extension(path@) == Some(s@),
            None => path_extension(path@) is None,
        },
        match r {
            Some(s) => bare_file_name(path@) ==> split_ext(path@).1 == Some(s@),
            None => bare_file_name(path@) ==> split_ext(path@).1 is None,
        },
{
    match std::path::Path::new(path).extension() {
        Some(s) => match s.to_str() {
            Some(t) => Some(t.to_owned()),
            None => None,
        },
        None => None,
    }
}

/// The lowercase form of a text, as std's `str::to_lowercase` gives it.
pub uninterp spec fn str_lowercase(s: Seq<char>) -> Seq<char>;

/// An ASCII character lowered: `A`..`Z` become `a`..`z`.
pub open spec fn ascii_lower(c: char) -> char {
    if 'A' <= c && c <= 'Z' {
        ((c as u32) + 32) as char
    } else {
        c
    }
}

/// std `str::to_lowercase`. The contract names the result and states what
/// std documents of an all-ASCII text: each letter lowered, the rest kept;
/// it says nothing of Unicode's other case mappings.
#[verifier::external_body]
fn lowercase(s: &str) -> (r: String)
    ensures
        r@ == str_lowercase(s@),
        r@ == s@.map_values(|c: char| ascii_lower(c)) || exists|i: int|
            0 <= i < s@.len() && s@[i] > '\x7f',
{
    s.to_lowercase()
}

/// The name a module compiled from `filename` takes: the file's stem, or
/// `py` where it has none.
pub open spec fn python_module_name(filename: Seq<char>) -> Seq<char> {
    match path_file_stem(filename) {
        Some(s) => s,
        None => "py"@,
    }
}

/// What parsing `source` gives, with float literals read by `fl`: the
/// statements or the message, and the token where the parser stopped.
pub open spec fn parse_outcome(source: Seq<char>, fl: Floats) -> (Result<Seq<StmtV>, Seq<char>>, int) {
    program(token_stream(source, start_view()), fl, source.len() as int, 0, Seq::empty())
}

/// The token at which parsing `source` stopped.
pub open spec fn stop_token(source: Seq<char>, fl: Floats) -> crate::py2uc::tokenizer::TokenView {
    token_stream(source, start_view())[parse_outcome(source, fl).1]
}

/// Whether `after` is `before` with the statements `ss` compiled into it as
/// the module `name` and the builder finalized: the generated functions,
/// the string pool and a Python header, the other tables kept.
pub open spec fn compiled_module(ss: Seq<Stmt>, name: Seq<char>, before: UtenModule, after: UtenModule) -> bool {
    let g = gen_program(ss, start_state())->0;
    &&& fn_models(after.functions@) == g.funcs
    &&& forall|i: int| 0 <= i < after.functions@.len() ==> plain_fn(#[trigger] after.functions@[i])
    &&& after.pool() == g.pool
    &&& python_header(after.header, name)
    &&& same_tables(before, after)
}

/// Compiles Python `source` into `module`: parses it (float literals take
/// their values from `floats`, by their text) and generates its code into
/// the module, as a builder over it that is then finalized would. A parse
/// error is reported at the token where parsing stopped; a program whose
/// code overruns a limit of the bytecode format at line 0, column 0. On an
/// error the module is left as it was.
pub fn compile_python(
    source: &str,
    filename: &str,
    floats: Vec<(String, u64)>,
    module: &mut UtenModule,
) -> (r: Result<(), Vec<CompileError>>)
    requires
        source@.len() < usize::MAX / 8,
    ensures
        ({
            let (res, _) = parse_outcome(source@, floats_view(floats@));
            match res {
                Err(msg) => {
                    &&& r matches Err(es) && es@.len() == 1 && es@[0].message@ == msg
                        && es@[0].file@ == filename@
                        && es@[0].line == stop_token(source@, floats_view(floats@)).line
                        && es@[0].col == stop_token(source@, floats_view(floats@)).col
                        && es@[0].level == ErrorLevel::Error
                    &&& *final(module) == *old(module)
                },
                Ok(parsed) => exists|ss: Seq<Stmt>|
                    #![trigger stmts_view(ss)]
                    stmts_view(ss) == parsed && if gen_program(ss, start_state()) is Some {
                        &&& r is Ok
                        &&& compiled_module(ss, python_module_name(filename@), *old(module), *final(module))
                    } else {
                        &&& r matches Err(es) && es@.len() == 1 && es@[0].message@ == limit_message()
                            && es@[0].file@ == filename@ && es@[0].line == 0 && es@[0].col == 0
                            && es@[0].level == ErrorLevel::Error
                        &&& *final(module) == *old(module)
                    },
            }
        }),
{
    proof {
        reveal_strlit("py");
    }
    let name = match file_stem(filename) {
        Some(s) => s,
        None => "py".to_owned(),
    };
    let mut p = Parser::new(source, floats);
    match p.parse() {
        Ok(prog) => {
            let ghost ss = prog.stmts@;
            assert(stmts_view(ss) == parse_outcome(source@, floats_view(floats@)).0->Ok_0);
            match compile_into_finalized(&prog, name.as_str(), module) {
                Ok(()) => Ok(()),
                Err(e) => {
                    let es = vec![CompileError::error(e.as_str(), filename, 0, 0)];
                    assert(es@.len() == 1 && es@[0].message@ == limit_message());
                    Err(es)
                },
            }
        },
        Err(e) => {
            let (line, col) = p.current_pos();
            assert(line == stop_token(source@, floats_view(floats@)).line);
            let es = vec![CompileError::error(e.as_str(), filename, line, col)];
            assert(es@.len() == 1);
            Err(es)
        },
    }
}

/// The extension by which a file is compiled: its extension, lowercased
/// (empty where it has none).
pub open spec fn compile_ext(filename: Seq<char>) -> Seq<char> {
    str_lowercase(
        match path_extension(filename) {
            Some(e) => e,
            None => Seq::empty(),
        },
    )
}

/// An error diagnostic, as `CompileError::to_text` writes it.
pub open spec fn error_line(file: Seq<char>, line: nat, col: nat, msg: Seq<char>) -> Seq<char> {
    file + ":"@ + decimal(line) + ":"@ + decimal(col) + ": "@ + level_tag(ErrorLevel::Error) + ": "@
        + msg
}

/// The message for a registered plugin whose compile function this
/// library does not hold.
pub open spec fn no_builtin_message(name: Seq<char>) -> Seq<char> {
    "Plugin '"@ + name + "' has no built-in compile function"@
}

/// Whether `m` is a new module into which the statements `ss` were compiled
/// as the module `name`, given the GC strategy `gc`.
pub open spec fn compiled_fresh(ss: Seq<Stmt>, name: Seq<char>, gc: Seq<char>, m: UtenModule) -> bool {
    let g = gen_program(ss, start_state())->0;
    &&& fn_models(m.functions@) == g.funcs
    &&& forall|i: int| 0 <= i < m.functions@.len() ==> plain_fn(#[trigger] m.functions@[i])
    &&& m.pool() == g.pool
    &&& m.header.name@ == name
    &&& m.header.source_lang@ == "python"@
    &&& m.header.compiler@ == "utencore"@
    &&& m.header.compiler_version@ == "0.0.5"@
    &&& m.header.gc_strategy@ == gc
    &&& !m.header.jit_recommended
    &&& m.header.metadata@.len() == 0
    &&& m.header.line_map@.len() == 0
    &&& m.magic@ == uclib_magic()
    &&& m.version == (VmVersion { major: 0, minor: 1 })
    &&& m.bytecode_version == BYTECODE_VERSION
    &&& m.constants@.len() == 0
    &&& m.structs@.len() == 0
    &&& m.globals@.len() == 0
    &&& m.exports@.len() == 0
    &&& m.imports@.len() == 0
    &&& m.exceptions@.len() == 0
}

impl PluginManager {
    /// Compiles `source` from the file `filename` (float literals valued by
    /// `floats`) with the compiler registered for the file's lowercased
    /// extension: the built-in Python compiler `py2uc` compiles it into a
    /// new module, which takes the plugin's GC strategy. Where no plugin is
    /// registered for the extension, the message lists the supported ones;
    /// the errors of a failed compilation come one per line. The options
    /// change nothing of the result.
    pub fn compile_with_options(
        &self,
        source: &str,
        filename: &str,
        _options: &CompilerOptions,
        floats: Vec<(String, u64)>,
    ) -> (r: Result<UtenModule, String>)
        requires
            self.well_formed(),
            source@.len() < usize::MAX / 8,
        ensures
            ({
                let ext = compile_ext(filename@);
                if !self.compiler_map().contains_key(ext) {
                    r matches Err(m) && exists|l: Seq<Seq<char>>|
                        #![trigger no_compiler_message(ext, l)]
                        l.to_set() == self.compiler_map().dom() && l.no_duplicates() && strictly_sorted(l)
                            && m@ == no_compiler_message(ext, l)
                } else {
                    let info = self.plugin_seq()[self.compiler_map()[ext] as int];
                    if info.manifest.name@ != "py2uc"@ {
                        r matches Err(m) && m@ == no_builtin_message(info.manifest.name@)
                    } else {
                        let (res, _) = parse_outcome(source@, floats_view(floats@));
                        match res {
                            Err(msg) => r matches Err(m) && m@ == error_line(
                                filename@,
                                stop_token(source@, floats_view(floats@)).line as nat,
                                stop_token(source@, floats_view(floats@)).col as nat,
                                msg,
                            ),
                            Ok(parsed) => exists|ss: Seq<Stmt>|
                                #![trigger stmts_view(ss)]
                                stmts_view(ss) == parsed && if gen_program(ss, start_state()) is Some {
                                    r matches Ok(m) && compiled_fresh(
                                        ss,
                                        python_module_name(filename@),
                                        plugin_default_gc(info),
                                        m,
                                    )
                                } else {
                                    r matches Err(m) && m@ == error_line(filename@, 0, 0, limit_message())
                                },
                        }
                    }
                }
            }),
    {
        proof {
            reveal_strlit("");
            reveal_strlit("module");
            reveal_strlit("py2uc");
            reveal_strlit("Plugin '");
            reveal_strlit("' has no built-in compile function");
            reveal_strlit("\n");
        }
        let raw = match file_extension(filename) {
            Some(e) => e,
            None => "".to_owned(),
        };
        assert(""@ =~= Seq::<char>::empty());
        assert(raw@ == match path_extension(filename@) {
            Some(e) => e,
            None => Seq::<char>::empty(),
        });
        let ext = lowercase(raw.as_str());
        assert(ext@ == compile_ext(filename@));
        let info = match self.compiler_for(ext.as_str()) {
            Ok(info) => info,
            Err(m) => {
                return Err(m);
            },
        };
        let is_py = info.name().to_owned() == "py2uc".to_owned();
        assert(is_py == (info.manifest.name@ == "py2uc"@));
        if !is_py {
            let mut m = "Plugin '".to_owned();
            m.append(info.name());
            m.append("' has no built-in compile function");
            return Err(m);
        }
        let stem = match file_stem(filename) {
            Some(s) => s,
            None => "module".to_owned(),
        };
        let mut module = UtenModule::new(stem.as_str());
        let ghost before = module;
        match compile_python(source, filename, floats, &mut module) {
            Ok(()) => {},
            Err(errors) => {
                let mut texts: Vec<String> = Vec::new();
                let mut i: usize = 0;
                while i < errors.len()
                    invariant
                        i <= errors@.len(),
                        texts@.len() == i,
                        forall|j: int| 0 <= j < i ==> texts@[j]@ == error_texts(errors@)[j],
                    decreases errors@.len() - i,
                {
                    texts.push(errors[i].to_text());
                    i = i + 1;
                }
                assert(string_views(texts@) =~= error_texts(errors@));
                return Err(join_strings(&texts, "\n"));
            },
        }
        module.header.gc_strategy = info.default_gc().to_owned();
        Ok(module)
    }
}

/// The diagnostics of compile errors, in order.
pub open spec fn error_texts(es: Seq<CompileError>) -> Seq<Seq<char>> {
    es.map_values(|e: CompileError| compile_error_text(e))
}

} // verus!
