//! The interface compiler: an interface written in YAML, read into the
//! plain model below, becomes the interface file that is written out.
//! C types are written by name (`Int`, `Pointer(Char)`, `Struct(tm)`).
use vstd::prelude::*;

use crate::cib::marshal::{copy_ctype, ctype_view, CType, CTypeView};
use crate::cib::structs::{CField, CStructLayout};
use crate::cib::ucif::{ucif_magic, CallingConvention, ParamDef};
use crate::names::string_views;
use crate::text::{chars_of, starts_with_str, string_of_chars};

verus! {

// ── C type names ──

/// Whether `s` is `prefix`, then at least one more character, and ends
/// with `)`.
pub open spec fn wraps(s: Seq<char>, prefix: Seq<char>) -> bool {
    s.len() > prefix.len() && s.subrange(0, prefix.len() as int) == prefix && s.last() == ')'
}

/// What is inside `prefix(...)`.
pub open spec fn wrapped(s: Seq<char>, prefix: Seq<char>) -> Seq<char> {
    s.subrange(prefix.len() as int, s.len() - 1)
}

/// The C type named `s`: a basic type by its name, or `Pointer(T)`,
/// `ConstPointer(T)` or `Struct(name)`.
pub open spec fn ctype_named(s: Seq<char>) -> Result<CTypeView, Seq<char>>
    decreases s.len(),
{
    if s == "Void"@ {
        Ok(CTypeView::Void)
    } else if s == "Bool"@ {
        Ok(CTypeView::Bool)
    } else if s == "Char"@ {
        Ok(CTypeView::Char)
    } else if s == "UChar"@ {
        Ok(CTypeView::UChar)
    } else if s == "Short"@ {
        Ok(CTypeView::Short)
    } else if s == "UShort"@ {
        Ok(CTypeView::UShort)
    } else if s == "Int"@ {
        Ok(CTypeView::Int)
    } else if s == "UInt"@ {
        Ok(CTypeView::UInt)
    } else if s == "Long"@ {
        Ok(CTypeView::Long)
    } else if s == "ULong"@ {
        Ok(CTypeView::ULong)
    } else if s == "LongLong"@ {
        Ok(CTypeView::LongLong)
    } else if s == "ULongLong"@ {
        Ok(CTypeView::ULongLong)
    } else if s == "Float"@ {
        Ok(CTypeView::Float)
    } else if s == "Double"@ {
        Ok(CTypeView::Double)
    } else if s == "VarArg"@ {
        Ok(CTypeView::VarArg)
    } else if wraps(s, "Pointer("@) {
        match ctype_named(wrapped(s, "Pointer("@)) {
            Ok(t) => Ok(CTypeView::Pointer(Box::new(t))),
            Err(e) => Err(e),
        }
    } else if wraps(s, "ConstPointer("@) {
        match ctype_named(wrapped(s, "ConstPointer("@)) {
            Ok(t) => Ok(CTypeView::ConstPointer(Box::new(t))),
            Err(e) => Err(e),
        }
    } else if wraps(s, "Struct("@) {
        Ok(CTypeView::Struct(wrapped(s, "Struct("@)))
    } else {
        Err("Unknown C type: '"@ + s + "'"@)
    }
}

/// Whether `a` holds the characters of `b`.
fn same(a: &String, b: &str) -> (r: bool)
    ensures
        r == (a@ == b@),
{
    *a == b.to_owned()
}

/// The length of `s` in characters.
fn char_len(s: &str) -> (r: usize)
    ensures
        r == s@.len(),
{
    chars_of(s).len()
}

/// Whether `cs` wraps its contents in `prefix(...)`.
fn wraps_in(cs: &Vec<char>, prefix: &str) -> (r: bool)
    ensures
        r == wraps(cs@, prefix@),
{
    let n = char_len(prefix);
    n < cs.len() && starts_with_str(cs, prefix) && cs[cs.len() - 1] == ')'
}

/// The C type named `s`.
pub fn parse_ctype(s: &str) -> (r: Result<CType, String>)
    ensures
        match (r, ctype_named(s@)) {
            (Ok(t), Ok(v)) => ctype_view(t) == v,
            (Err(e), Err(m)) => e@ == m,
            _ => false,
        },
    decreases s@.len(),
{
    let owned = s.to_owned();
    if same(&owned, "Void") {
        return Ok(CType::Void);
    } else if same(&owned, "Bool") {
        return Ok(CType::Bool);
    } else if same(&owned, "Char") {
        return Ok(CType::Char);
    } else if same(&owned, "UChar") {
        return Ok(CType::UChar);
    } else if same(&owned, "Short") {
        return Ok(CType::Short);
    } else if same(&owned, "UShort") {
        return Ok(CType::UShort);
    } else if same(&owned, "Int") {
        return Ok(CType::Int);
    } else if same(&owned, "UInt") {
        return Ok(CType::UInt);
    } else if same(&owned, "Long") {
        return Ok(CType::Long);
    } else if same(&owned, "ULong") {
        return Ok(CType::ULong);
    } else if same(&owned, "LongLong") {
        return Ok(CType::LongLong);
    } else if same(&owned, "ULongLong") {
        return Ok(CType::ULongLong);
    } else if same(&owned, "Float") {
        return Ok(CType::Float);
    } else if same(&owned, "Double") {
        return Ok(CType::Double);
    } else if same(&owned, "VarArg") {
        return Ok(CType::VarArg);
    }
    let cs = chars_of(s);
    if wraps_in(&cs, "Pointer(") {
        let inner = string_of_chars(&cs, char_len("Pointer("), cs.len() - 1);
        return match parse_ctype(inner.as_str()) {
            Ok(t) => Ok(CType::Pointer(Box::new(t))),
            Err(e) => Err(e),
        };
    }
    if wraps_in(&cs, "ConstPointer(") {
        let inner = string_of_chars(&cs, char_len("ConstPointer("), cs.len() - 1);
        return match parse_ctype(inner.as_str()) {
            Ok(t) => Ok(CType::ConstPointer(Box::new(t))),
            Err(e) => Err(e),
        };
    }
    if wraps_in(&cs, "Struct(") {
        let inner = string_of_chars(&cs, char_len("Struct("), cs.len() - 1);
        return Ok(CType::Struct(inner));
    }
    let mut m = "Unknown C type: '".to_owned();
    m.append(s);
    m.append("'");
    Err(m)
}

// ── The YAML model ──

/// An interface as written in YAML; what is left out takes a default.
#[derive(Debug)]
pub struct YamlUcif {
    pub name: String,
    pub description: Option<String>,
    pub version: Option<(u16, u16)>,
    pub libraries: Option<Vec<String>>,
    pub functions: Option<Vec<YamlFunc>>,
    pub structs: Option<Vec<YamlStruct>>,
    pub constants: Option<Vec<YamlConstant>>,
    pub typedefs: Option<Vec<YamlTypedef>>,
}

/// A function: its return and parameter types by name.
#[derive(Debug)]
pub struct YamlFunc {
    pub name: String,
    pub ret: String,
    pub params: Option<Vec<YamlParam>>,
    pub is_variadic: Option<bool>,
    pub library: Option<String>,
    pub convention: Option<String>,
}

/// A parameter.
#[derive(Debug)]
pub struct YamlParam {
    pub name: String,
    pub ctype: String,
}

/// A struct with its fields at given offsets.
#[derive(Debug)]
pub struct YamlStruct {
    pub name: String,
    pub fields: Vec<YamlField>,
    pub size: Option<usize>,
    pub alignment: Option<usize>,
}

/// A struct field.
#[derive(Debug)]
pub struct YamlField {
    pub name: String,
    pub ctype: String,
    pub offset: usize,
}

/// Constants sharing one type and value under several names.
#[derive(Debug)]
pub struct YamlConstant {
    pub names: Vec<String>,
    pub ctype: String,
    pub value: YamlValue,
}

/// A YAML value as it reads as each kind the compiler asks for: a signed
/// or an unsigned integer, a float (by its IEEE-754 bit pattern) or a
/// string; `None` where it does not read as that kind.
#[derive(Debug)]
pub struct YamlValue {
    pub as_i64: Option<i64>,
    pub as_u64: Option<u64>,
    pub as_f64_bits: Option<u64>,
    pub as_str: Option<String>,
}

/// A type alias.
#[derive(Debug)]
pub struct YamlTypedef {
    pub alias: String,
    pub ctype: String,
}

// ── The compiled interface ──

/// A compiled interface.
#[derive(Debug)]
pub struct UcifFile {
    pub magic: [u8; 4],
    pub version: (u16, u16),
    pub name: String,
    pub description: String,
    pub libraries: Vec<String>,
    pub functions: Vec<CFuncProto>,
    pub structs: Vec<CStructLayout>,
    pub constants: Vec<(String, CConstant)>,
    pub typedefs: Vec<(String, CType)>,
}

/// A compiled function prototype.
#[derive(Debug)]
pub struct CFuncProto {
    pub name: String,
    pub ret: CType,
    pub params: Vec<ParamDef>,
    pub is_variadic: bool,
    pub library: Option<String>,
    pub convention: CallingConvention,
}

/// A compiled constant; a float by its IEEE-754 bit pattern.
#[derive(Debug)]
pub enum CConstant {
    Int(i64),
    UInt(u64),
    Float(u64),
    String(String),
    Pointer(usize),
}

/// A compiled function prototype as a value.
#[verifier::ext_equal]
pub struct FuncView {
    pub name: Seq<char>,
    pub ret: CTypeView,
    pub params: Seq<(Seq<char>, CTypeView)>,
    pub is_variadic: bool,
    pub library: Option<Seq<char>>,
    pub convention: CallingConvention,
}

/// A struct layout as a value.
#[verifier::ext_equal]
pub struct StructView {
    pub name: Seq<char>,
    pub fields: Seq<(Seq<char>, CTypeView, usize)>,
    pub size: usize,
    pub alignment: usize,
}

/// A constant as a value.
pub enum ConstView {
    Int(i64),
    UInt(u64),
    Float(u64),
    String(Seq<char>),
    Pointer(usize),
}

/// A compiled interface as a value.
#[verifier::ext_equal]
pub struct UcifFileView {
    pub magic: Seq<u8>,
    pub version: (u16, u16),
    pub name: Seq<char>,
    pub description: Seq<char>,
    pub libraries: Seq<Seq<char>>,
    pub functions: Seq<FuncView>,
    pub structs: Seq<StructView>,
    pub constants: Seq<(Seq<char>, ConstView)>,
    pub typedefs: Seq<(Seq<char>, CTypeView)>,
}

pub open spec fn opt_view(o: Option<String>) -> Option<Seq<char>> {
    match o {
        Some(s) => Some(s@),
        None => None,
    }
}

pub open spec fn param_view(p: ParamDef) -> (Seq<char>, CTypeView) {
    (p.name@, ctype_view(p.ctype))
}

pub open spec fn func_view(f: CFuncProto) -> FuncView {
    FuncView {
        name: f.name@,
        ret: ctype_view(f.ret),
        params: f.params@.map_values(|p: ParamDef| param_view(p)),
        is_variadic: f.is_variadic,
        library: opt_view(f.library),
        convention: f.convention,
    }
}

pub open spec fn field_view(f: CField) -> (Seq<char>, CTypeView, usize) {
    (f.name@, ctype_view(f.ctype), f.offset)
}

pub open spec fn layout_view(l: CStructLayout) -> StructView {
    StructView {
        name: l.name@,
        fields: l.fields@.map_values(|f: CField| field_view(f)),
        size: l.size,
        alignment: l.alignment,
    }
}

pub open spec fn const_view(c: CConstant) -> ConstView {
    match c {
        CConstant::Int(v) => ConstView::Int(v),
        CConstant::UInt(v) => ConstView::UInt(v),
        CConstant::Float(b) => ConstView::Float(b),
        CConstant::String(s) => ConstView::String(s@),
        CConstant::Pointer(p) => ConstView::Pointer(p),
    }
}

pub open spec fn named_const_view(p: (String, CConstant)) -> (Seq<char>, ConstView) {
    (p.0@, const_view(p.1))
}

pub open spec fn typedef_view(p: (String, CType)) -> (Seq<char>, CTypeView) {
    (p.0@, ctype_view(p.1))
}

pub open spec fn file_view(f: UcifFile) -> UcifFileView {
    UcifFileView {
        magic: f.magic@,
        version: f.version,
        name: f.name@,
        description: f.description@,
        libraries: string_views(f.libraries@),
        functions: f.functions@.map_values(|p: CFuncProto| func_view(p)),
        structs: f.structs@.map_values(|l: CStructLayout| layout_view(l)),
        constants: f.constants@.map_values(|p: (String, CConstant)| named_const_view(p)),
        typedefs: f.typedefs@.map_values(|p: (String, CType)| typedef_view(p)),
    }
}

// ── What compiling gives ──

/// The parameters with their types, or the first unknown type name.
pub open spec fn params_compiled(ps: Seq<YamlParam>) -> Result<Seq<(Seq<char>, CTypeView)>, Seq<char>>
    decreases ps.len(),
{
    if ps.len() == 0 {
        Ok(Seq::empty())
    } else {
        match params_compiled(ps.drop_last()) {
            Err(e) => Err(e),
            Ok(done) => match ctype_named(ps.last().ctype@) {
                Err(e) => Err(e),
                Ok(t) => Ok(done.push((ps.last().name@, t))),
            },
        }
    }
}

/// A function: the return type is read first, then the parameters; it is
/// variadic only where it says so, and stdcall only where its convention
/// is `stdcall`.
pub open spec fn func_compiled(f: YamlFunc) -> Result<FuncView, Seq<char>> {
    match ctype_named(f.ret@) {
        Err(e) => Err(e),
        Ok(ret) => match (match f.params {
            Some(ps) => params_compiled(ps@),
            None => Ok(Seq::empty()),
        }) {
            Err(e) => Err(e),
            Ok(params) => Ok(
                FuncView {
                    name: f.name@,
                    ret,
                    params,
                    is_variadic: match f.is_variadic {
                        Some(b) => b,
                        None => false,
                    },
                    library: opt_view(f.library),
                    convention: match f.convention {
                        Some(c) => if c@ == "stdcall"@ {
                            CallingConvention::StdCall
                        } else {
                            CallingConvention::Cdecl
                        },
                        None => CallingConvention::Cdecl,
                    },
                },
            ),
        },
    }
}

/// The functions in order, or the first error.
pub open spec fn funcs_compiled(fs: Seq<YamlFunc>) -> Result<Seq<FuncView>, Seq<char>>
    decreases fs.len(),
{
    if fs.len() == 0 {
        Ok(Seq::empty())
    } else {
        match funcs_compiled(fs.drop_last()) {
            Err(e) => Err(e),
            Ok(done) => match func_compiled(fs.last()) {
                Err(e) => Err(e),
                Ok(f) => Ok(done.push(f)),
            },
        }
    }
}

/// The fields of a struct, at the offsets given.
pub open spec fn fields_compiled(fs: Seq<YamlField>) -> Result<Seq<(Seq<char>, CTypeView, usize)>, Seq<char>>
    decreases fs.len(),
{
    if fs.len() == 0 {
        Ok(Seq::empty())
    } else {
        match fields_compiled(fs.drop_last()) {
            Err(e) => Err(e),
            Ok(done) => match ctype_named(fs.last().ctype@) {
                Err(e) => Err(e),
                Ok(t) => Ok(done.push((fs.last().name@, t, fs.last().offset))),
            },
        }
    }
}

/// A struct: its size is 0 and its alignment 8 unless given.
pub open spec fn struct_compiled(s: YamlStruct) -> Result<StructView, Seq<char>> {
    match fields_compiled(s.fields@) {
        Err(e) => Err(e),
        Ok(fields) => Ok(
            StructView {
                name: s.name@,
                fields,
                size: match s.size {
                    Some(n) => n,
                    None => 0,
                },
                alignment: match s.alignment {
                    Some(n) => n,
                    None => 8,
                },
            },
        ),
    }
}

/// The structs in order, or the first error.
pub open spec fn structs_compiled(ss: Seq<YamlStruct>) -> Result<Seq<StructView>, Seq<char>>
    decreases ss.len(),
{
    if ss.len() == 0 {
        Ok(Seq::empty())
    } else {
        match structs_compiled(ss.drop_last()) {
            Err(e) => Err(e),
            Ok(done) => match struct_compiled(ss.last()) {
                Err(e) => Err(e),
                Ok(s) => Ok(done.push(s)),
            },
        }
    }
}

/// The value of a constant of type `ctype`: `Int`/`Long` read as a signed
/// integer, `UInt`/`ULong` as an unsigned one, `Float`/`Double` as a float,
/// `String` as a string, `Pointer` as an unsigned integer taken as an
/// address.
pub open spec fn const_value(ctype: Seq<char>, v: YamlValue) -> Result<ConstView, Seq<char>> {
    if ctype == "Int"@ || ctype == "Long"@ {
        match v.as_i64 {
            Some(x) => Ok(ConstView::Int(x)),
            None => Err("expected integer"@),
        }
    } else if ctype == "UInt"@ || ctype == "ULong"@ {
        match v.as_u64 {
            Some(x) => Ok(ConstView::UInt(x)),
            None => Err("expected unsigned"@),
        }
    } else if ctype == "Float"@ || ctype == "Double"@ {
        match v.as_f64_bits {
            Some(x) => Ok(ConstView::Float(x)),
            None => Err("expected float"@),
        }
    } else if ctype == "String"@ {
        match v.as_str {
            Some(x) => Ok(ConstView::String(x@)),
            None => Err("expected string"@),
        }
    } else if ctype == "Pointer"@ {
        match v.as_u64 {
            Some(x) => Ok(ConstView::Pointer(x as usize)),
            None => Err("expected usize"@),
        }
    } else {
        Err("Unknown constant type: "@ + ctype)
    }
}

/// One entry per name, each with the value `v`.
pub open spec fn const_entries(names: Seq<String>, v: ConstView) -> Seq<(Seq<char>, ConstView)> {
    names.map_values(|n: String| (n@, v))
}

/// The constants in order, one entry per name; a constant without names
/// gives nothing and its value is not read.
pub open spec fn consts_compiled(cs: Seq<YamlConstant>) -> Result<Seq<(Seq<char>, ConstView)>, Seq<char>>
    decreases cs.len(),
{
    if cs.len() == 0 {
        Ok(Seq::empty())
    } else {
        match consts_compiled(cs.drop_last()) {
            Err(e) => Err(e),
            Ok(done) => if cs.last().names@.len() == 0 {
                Ok(done)
            } else {
                match const_value(cs.last().ctype@, cs.last().value) {
                    Err(e) => Err(e),
                    Ok(v) => Ok(done + const_entries(cs.last().names@, v)),
                }
            },
        }
    }
}

/// The type aliases in order, or the first error.
pub open spec fn typedefs_compiled(ts: Seq<YamlTypedef>) -> Result<Seq<(Seq<char>, CTypeView)>, Seq<char>>
    decreases ts.len(),
{
    if ts.len() == 0 {
        Ok(Seq::empty())
    } else {
        match typedefs_compiled(ts.drop_last()) {
            Err(e) => Err(e),
            Ok(done) => match ctype_named(ts.last().ctype@) {
                Err(e) => Err(e),
                Ok(t) => Ok(done.push((ts.last().alias@, t))),
            },
        }
    }
}

/// The contents of an optional list.
pub open spec fn listed<T>(o: Option<Vec<T>>) -> Seq<T> {
    match o {
        Some(v) => v@,
        None => Seq::empty(),
    }
}

/// The compiled interface: functions, structs, constants and type aliases
/// are compiled in that order and the first error ends it; the version is
/// 0.1 unless given, the description and library list empty unless given.
pub open spec fn compiled(y: YamlUcif) -> Result<UcifFileView, Seq<char>> {
    match funcs_compiled(listed(y.functions)) {
        Err(e) => Err(e),
        Ok(functions) => match structs_compiled(listed(y.structs)) {
            Err(e) => Err(e),
            Ok(structs) => match consts_compiled(listed(y.constants)) {
                Err(e) => Err(e),
                Ok(constants) => match typedefs_compiled(listed(y.typedefs)) {
                    Err(e) => Err(e),
                    Ok(typedefs) => Ok(
                        UcifFileView {
                            magic: ucif_magic(),
                            version: match y.version {
                                Some(v) => v,
                                None => (0, 1),
                            },
                            name: y.name@,
                            description: match y.description {
                                Some(d) => d@,
                                None => Seq::empty(),
                            },
                            libraries: string_views(listed(y.libraries)),
                            functions,
                            structs,
                            constants,
                            typedefs,
                        },
                    ),
                },
            },
        },
    }
}

// ── Compiling ──

fn clone_opt(o: &Option<String>) -> (r: Option<String>)
    ensures
        opt_view(r) == opt_view(*o),
{
    match o {
        Some(s) => Some(s.clone()),
        None => None,
    }
}

fn compile_params(ps: &Vec<YamlParam>) -> (r: Result<Vec<ParamDef>, String>)
    ensures
        match (r, params_compiled(ps@)) {
            (Ok(v), Ok(e)) => v@.map_values(|p: ParamDef| param_view(p)) == e,
            (Err(m), Err(e)) => m@ == e,
            _ => false,
        },
{
    let mut out: Vec<ParamDef> = Vec::new();
    let mut i: usize = 0;
    assert(ps@.take(0) =~= Seq::<YamlParam>::empty());
    assert(out@.map_values(|p: ParamDef| param_view(p)) =~= Seq::empty());
    while i < ps.len()
        invariant
            i <= ps@.len(),
            params_compiled(ps@.take(i as int)) == Ok::<Seq<(Seq<char>, CTypeView)>, Seq<char>>(
                out@.map_values(|p: ParamDef| param_view(p)),
            ),
        decreases ps@.len() - i,
    {
        let ghost t = ps@.take(i + 1);
        assert(t.drop_last() =~= ps@.take(i as int));
        assert(t.last() == ps@[i as int]);
        let ctype = match parse_ctype(ps[i].ctype.as_str()) {
            Ok(c) => c,
            Err(e) => {
                proof {
                    lemma_err_stays_params(ps@, i as int + 1);
                }
                return Err(e);
            },
        };
        let ghost before = out@;
        out.push(ParamDef { name: ps[i].name.clone(), ctype });
        i = i + 1;
        assert(out@.map_values(|p: ParamDef| param_view(p)) =~= before.map_values(
            |p: ParamDef| param_view(p),
        ).push((ps@[i - 1].name@, ctype_view(ctype))));
    }
    assert(ps@.take(ps@.len() as int) =~= ps@);
    Ok(out)
}

/// Once a prefix fails, every longer prefix fails the same way.
proof fn lemma_err_stays_params(ps: Seq<YamlParam>, k: int)
    requires
        0 <= k <= ps.len(),
        params_compiled(ps.take(k)) is Err,
    ensures
        params_compiled(ps) == params_compiled(ps.take(k)),
    decreases ps.len() - k,
{
    if k < ps.len() {
        let t = ps.take(k + 1);
        assert(t.drop_last() =~= ps.take(k));
        lemma_err_stays_params(ps, k + 1);
    } else {
        assert(ps.take(k) =~= ps);
    }
}

/// Once a prefix fails, every longer prefix fails the same way.
proof fn lemma_err_stays_funcs(xs: Seq<YamlFunc>, k: int)
    requires
        0 <= k <= xs.len(),
        funcs_compiled(xs.take(k)) is Err,
    ensures
        funcs_compiled(xs) == funcs_compiled(xs.take(k)),
    decreases xs.len() - k,
{
    if k < xs.len() {
        let t = xs.take(k + 1);
        assert(t.drop_last() =~= xs.take(k));
        lemma_err_stays_funcs(xs, k + 1);
    } else {
        assert(xs.take(k) =~= xs);
    }
}

/// Once a prefix fails, every longer prefix fails the same way.
proof fn lemma_err_stays_fields(xs: Seq<YamlField>, k: int)
    requires
        0 <= k <= xs.len(),
        fields_compiled(xs.take(k)) is Err,
    ensures
        fields_compiled(xs) == fields_compiled(xs.take(k)),
    decreases xs.len() - k,
{
    if k < xs.len() {
        let t = xs.take(k + 1);
        assert(t.drop_last() =~= xs.take(k));
        lemma_err_stays_fields(xs, k + 1);
    } else {
        assert(xs.take(k) =~= xs);
    }
}

/// Once a prefix fails, every longer prefix fails the same way.
proof fn lemma_err_stays_structs(xs: Seq<YamlStruct>, k: int)
    requires
        0 <= k <= xs.len(),
        structs_compiled(xs.take(k)) is Err,
    ensures
        structs_compiled(xs) == structs_compiled(xs.take(k)),
    decreases xs.len() - k,
{
    if k < xs.len() {
        let t = xs.take(k + 1);
        assert(t.drop_last() =~= xs.take(k));
        lemma_err_stays_structs(xs, k + 1);
    } else {
        assert(xs.take(k) =~= xs);
    }
}

/// Once a prefix fails, every longer prefix fails the same way.
proof fn lemma_err_stays_consts(xs: Seq<YamlConstant>, k: int)
    requires
        0 <= k <= xs.len(),
        consts_compiled(xs.take(k)) is Err,
    ensures
        consts_compiled(xs) == consts_compiled(xs.take(k)),
    decreases xs.len() - k,
{
    if k < xs.len() {
        let t = xs.take(k + 1);
        assert(t.drop_last() =~= xs.take(k));
        lemma_err_stays_consts(xs, k + 1);
    } else {
        assert(xs.take(k) =~= xs);
    }
}

/// Once a prefix fails, every longer prefix fails the same way.
proof fn lemma_err_stays_typedefs(xs: Seq<YamlTypedef>, k: int)
    requires
        0 <= k <= xs.len(),
        typedefs_compiled(xs.take(k)) is Err,
    ensures
        typedefs_compiled(xs) == typedefs_compiled(xs.take(k)),
    decreases xs.len() - k,
{
    if k < xs.len() {
        let t = xs.take(k + 1);
        assert(t.drop_last() =~= xs.take(k));
        lemma_err_stays_typedefs(xs, k + 1);
    } else {
        assert(xs.take(k) =~= xs);
    }
}

fn compile_func(f: &YamlFunc) -> (r: Result<CFuncProto, String>)
    ensures
        match (r, func_compiled(*f)) {
            (Ok(p), Ok(e)) => func_view(p) == e,
            (Err(m), Err(e)) => m@ == e,
            _ => false,
        },
{
    let ret = parse_ctype(f.ret.as_str())?;
    let params = match &f.params {
        Some(ps) => compile_params(ps)?,
        None => Vec::new(),
    };
    let convention = match &f.convention {
        Some(c) => if same(c, "stdcall") {
            CallingConvention::StdCall
        } else {
            CallingConvention::Cdecl
        },
        None => CallingConvention::Cdecl,
    };
    let is_variadic = match f.is_variadic {
        Some(b) => b,
        None => false,
    };
    let p = CFuncProto {
        name: f.name.clone(),
        ret,
        params,
        is_variadic,
        library: clone_opt(&f.library),
        convention,
    };
    assert(f.params is None ==> p.params@.map_values(|q: ParamDef| param_view(q)) =~= Seq::empty());
    assert(func_view(p) =~= func_compiled(*f)->Ok_0);
    Ok(p)
}

fn compile_funcs(fs: &Vec<YamlFunc>) -> (r: Result<Vec<CFuncProto>, String>)
    ensures
        match (r, funcs_compiled(fs@)) {
            (Ok(v), Ok(e)) => v@.map_values(|p: CFuncProto| func_view(p)) == e,
            (Err(m), Err(e)) => m@ == e,
            _ => false,
        },
{
    let mut out: Vec<CFuncProto> = Vec::new();
    let mut i: usize = 0;
    assert(fs@.take(0) =~= Seq::<YamlFunc>::empty());
    assert(out@.map_values(|p: CFuncProto| func_view(p)) =~= Seq::empty());
    while i < fs.len()
        invariant
            i <= fs@.len(),
            funcs_compiled(fs@.take(i as int)) == Ok::<Seq<FuncView>, Seq<char>>(
                out@.map_values(|p: CFuncProto| func_view(p)),
            ),
        decreases fs@.len() - i,
    {
        let ghost t = fs@.take(i + 1);
        assert(t.drop_last() =~= fs@.take(i as int));
        assert(t.last() == fs@[i as int]);
        let p = match compile_func(&fs[i]) {
            Ok(p) => p,
            Err(e) => {
                proof {
                    lemma_err_stays_funcs(fs@, i as int + 1);
                }
                return Err(e);
            },
        };
        let ghost before = out@;
        out.push(p);
        i = i + 1;
        assert(out@.map_values(|p: CFuncProto| func_view(p)) =~= before.map_values(
            |p: CFuncProto| func_view(p),
        ).push(func_view(p)));
    }
    assert(fs@.take(fs@.len() as int) =~= fs@);
    Ok(out)
}

fn compile_fields(fs: &Vec<YamlField>) -> (r: Result<Vec<CField>, String>)
    ensures
        match (r, fields_compiled(fs@)) {
            (Ok(v), Ok(e)) => v@.map_values(|f: CField| field_view(f)) == e,
            (Err(m), Err(e)) => m@ == e,
            _ => false,
        },
{
    let mut out: Vec<CField> = Vec::new();
    let mut i: usize = 0;
    assert(fs@.take(0) =~= Seq::<YamlField>::empty());
    assert(out@.map_values(|f: CField| field_view(f)) =~= Seq::empty());
    while i < fs.len()
        invariant
            i <= fs@.len(),
            fields_compiled(fs@.take(i as int)) == Ok::<Seq<(Seq<char>, CTypeView, usize)>, Seq<char>>(
                out@.map_values(|f: CField| field_view(f)),
            ),
        decreases fs@.len() - i,
    {
        let ghost t = fs@.take(i + 1);
        assert(t.drop_last() =~= fs@.take(i as int));
        assert(t.last() == fs@[i as int]);
        let ctype = match parse_ctype(fs[i].ctype.as_str()) {
            Ok(c) => c,
            Err(e) => {
                proof {
                    lemma_err_stays_fields(fs@, i as int + 1);
                }
                return Err(e);
            },
        };
        let ghost before = out@;
        let f = CField { name: fs[i].name.clone(), ctype, offset: fs[i].offset };
        out.push(f);
        i = i + 1;
        assert(out@.map_values(|f: CField| field_view(f)) =~= before.map_values(
            |f: CField| field_view(f),
        ).push(field_view(f)));
    }
    assert(fs@.take(fs@.len() as int) =~= fs@);
    Ok(out)
}

fn compile_struct(s: &YamlStruct) -> (r: Result<CStructLayout, String>)
    ensures
        match (r, struct_compiled(*s)) {
            (Ok(l), Ok(e)) => layout_view(l) == e,
            (Err(m), Err(e)) => m@ == e,
            _ => false,
        },
{
    let fields = compile_fields(&s.fields)?;
    let l = CStructLayout {
        name: s.name.clone(),
        fields,
        size: match s.size {
            Some(n) => n,
            None => 0,
        },
        alignment: match s.alignment {
            Some(n) => n,
            None => 8,
        },
    };
    assert(layout_view(l) =~= struct_compiled(*s)->Ok_0);
    Ok(l)
}

fn compile_structs(ss: &Vec<YamlStruct>) -> (r: Result<Vec<CStructLayout>, String>)
    ensures
        match (r, structs_compiled(ss@)) {
            (Ok(v), Ok(e)) => v@.map_values(|l: CStructLayout| layout_view(l)) == e,
            (Err(m), Err(e)) => m@ == e,
            _ => false,
        },
{
    let mut out: Vec<CStructLayout> = Vec::new();
    let mut i: usize = 0;
    assert(ss@.take(0) =~= Seq::<YamlStruct>::empty());
    assert(out@.map_values(|l: CStructLayout| layout_view(l)) =~= Seq::empty());
    while i < ss.len()
        invariant
            i <= ss@.len(),
            structs_compiled(ss@.take(i as int)) == Ok::<Seq<StructView>, Seq<char>>(
                out@.map_values(|l: CStructLayout| layout_view(l)),
            ),
        decreases ss@.len() - i,
    {
        let ghost t = ss@.take(i + 1);
        assert(t.drop_last() =~= ss@.take(i as int));
        assert(t.last() == ss@[i as int]);
        let l = match compile_struct(&ss[i]) {
            Ok(l) => l,
            Err(e) => {
                proof {
                    lemma_err_stays_structs(ss@, i as int + 1);
                }
                return Err(e);
            },
        };
        let ghost before = out@;
        out.push(l);
        i = i + 1;
        assert(out@.map_values(|l: CStructLayout| layout_view(l)) =~= before.map_values(
            |l: CStructLayout| layout_view(l),
        ).push(layout_view(l)));
    }
    assert(ss@.take(ss@.len() as int) =~= ss@);
    Ok(out)
}

fn compile_const_value(ctype: &String, v: &YamlValue) -> (r: Result<CConstant, String>)
    ensures
        match (r, const_value(ctype@, *v)) {
            (Ok(c), Ok(e)) => const_view(c) == e,
            (Err(m), Err(e)) => m@ == e,
            _ => false,
        },
{
    if same(ctype, "Int") || same(ctype, "Long") {
        match v.as_i64 {
            Some(x) => Ok(CConstant::Int(x)),
            None => Err("expected integer".to_owned()),
        }
    } else if same(ctype, "UInt") || same(ctype, "ULong") {
        match v.as_u64 {
            Some(x) => Ok(CConstant::UInt(x)),
            None => Err("expected unsigned".to_owned()),
        }
    } else if same(ctype, "Float") || same(ctype, "Double") {
        match v.as_f64_bits {
            Some(x) => Ok(CConstant::Float(x)),
            None => Err("expected float".to_owned()),
        }
    } else if same(ctype, "String") {
        match &v.as_str {
            Some(x) => Ok(CConstant::String(x.clone())),
            None => Err("expected string".to_owned()),
        }
    } else if same(ctype, "Pointer") {
        match v.as_u64 {
            Some(x) => Ok(CConstant::Pointer(x as usize)),
            None => Err("expected usize".to_owned()),
        }
    } else {
        let mut m = "Unknown constant type: ".to_owned();
        m.append(ctype.as_str());
        Err(m)
    }
}

fn copy_constant(c: &CConstant) -> (r: CConstant)
    ensures
        const_view(r) == const_view(*c),
{
    match c {
        CConstant::Int(v) => CConstant::Int(*v),
        CConstant::UInt(v) => CConstant::UInt(*v),
        CConstant::Float(b) => CConstant::Float(*b),
        CConstant::String(s) => CConstant::String(s.clone()),
        CConstant::Pointer(p) => CConstant::Pointer(*p),
    }
}

fn compile_consts(cs: &Vec<YamlConstant>) -> (r: Result<Vec<(String, CConstant)>, String>)
    ensures
        match (r, consts_compiled(cs@)) {
            (Ok(v), Ok(e)) => v@.map_values(|p: (String, CConstant)| named_const_view(p)) == e,
            (Err(m), Err(e)) => m@ == e,
            _ => false,
        },
{
    let mut out: Vec<(String, CConstant)> = Vec::new();
    let mut i: usize = 0;
    assert(cs@.take(0) =~= Seq::<YamlConstant>::empty());
    assert(out@.map_values(|p: (String, CConstant)| named_const_view(p)) =~= Seq::empty());
    while i < cs.len()
        invariant
            i <= cs@.len(),
            consts_compiled(cs@.take(i as int)) == Ok::<Seq<(Seq<char>, ConstView)>, Seq<char>>(
                out@.map_values(|p: (String, CConstant)| named_const_view(p)),
            ),
        decreases cs@.len() - i,
    {
        let ghost t = cs@.take(i + 1);
        assert(t.drop_last() =~= cs@.take(i as int));
        assert(t.last() == cs@[i as int]);
        let c = &cs[i];
        if c.names.len() > 0 {
            let value = match compile_const_value(&c.ctype, &c.value) {
                Ok(v) => v,
                Err(e) => {
                    proof {
                        lemma_err_stays_consts(cs@, i as int + 1);
                    }
                    return Err(e);
                },
            };
            let ghost before = out@.map_values(|p: (String, CConstant)| named_const_view(p));
            let mut j: usize = 0;
            while j < c.names.len()
                invariant
                    j <= c.names@.len(),
                    c == &cs@[i as int],
                    out@.map_values(|p: (String, CConstant)| named_const_view(p)) == before
                        + const_entries(c.names@.take(j as int), const_view(value)),
                decreases c.names@.len() - j,
            {
                let ghost mid = out@;
                let entry = (c.names[j].clone(), copy_constant(&value));
                out.push(entry);
                j = j + 1;
                assert(out@.map_values(|p: (String, CConstant)| named_const_view(p)) =~= mid.map_values(
                    |p: (String, CConstant)| named_const_view(p),
                ).push(named_const_view(entry)));
                assert(const_entries(c.names@.take(j as int), const_view(value)) =~= const_entries(
                    c.names@.take(j - 1),
                    const_view(value),
                ).push((c.names@[j - 1]@, const_view(value))));
                assert(out@.map_values(|p: (String, CConstant)| named_const_view(p)) =~= before
                    + const_entries(c.names@.take(j as int), const_view(value)));
            }
            assert(c.names@.take(c.names@.len() as int) =~= c.names@);
        }
        i = i + 1;
    }
    assert(cs@.take(cs@.len() as int) =~= cs@);
    Ok(out)
}

fn compile_typedefs(ts: &Vec<YamlTypedef>) -> (r: Result<Vec<(String, CType)>, String>)
    ensures
        match (r, typedefs_compiled(ts@)) {
            (Ok(v), Ok(e)) => v@.map_values(|p: (String, CType)| typedef_view(p)) == e,
            (Err(m), Err(e)) => m@ == e,
            _ => false,
        },
{
    let mut out: Vec<(String, CType)> = Vec::new();
    let mut i: usize = 0;
    assert(ts@.take(0) =~= Seq::<YamlTypedef>::empty());
    assert(out@.map_values(|p: (String, CType)| typedef_view(p)) =~= Seq::empty());
    while i < ts.len()
        invariant
            i <= ts@.len(),
            typedefs_compiled(ts@.take(i as int)) == Ok::<Seq<(Seq<char>, CTypeView)>, Seq<char>>(
                out@.map_values(|p: (String, CType)| typedef_view(p)),
            ),
        decreases ts@.len() - i,
    {
        let ghost t = ts@.take(i + 1);
        assert(t.drop_last() =~= ts@.take(i as int));
        assert(t.last() == ts@[i as int]);
        let ctype = match parse_ctype(ts[i].ctype.as_str()) {
            Ok(c) => c,
            Err(e) => {
                proof {
                    lemma_err_stays_typedefs(ts@, i as int + 1);
                }
                return Err(e);
            },
        };
        let ghost before = out@;
        let entry = (ts[i].alias.clone(), ctype);
        out.push(entry);
        i = i + 1;
        assert(out@.map_values(|p: (String, CType)| typedef_view(p)) =~= before.map_values(
            |p: (String, CType)| typedef_view(p),
        ).push(typedef_view(entry)));
    }
    assert(ts@.take(ts@.len() as int) =~= ts@);
    Ok(out)
}

impl YamlUcif {
    /// The compiled interface, or the first error met: an unknown type
    /// name, a constant whose value does not read as its type, or an
    /// unknown constant type.
    pub fn to_ucif(&self) -> (r: Result<UcifFile, String>)
        ensures
            match (r, compiled(*self)) {
                (Ok(f), Ok(e)) => file_view(f) == e,
                (Err(m), Err(e)) => m@ == e,
                _ => false,
            },
    {
        let functions = match &self.functions {
            Some(fs) => compile_funcs(fs)?,
            None => Vec::new(),
        };
        let structs = match &self.structs {
            Some(ss) => compile_structs(ss)?,
            None => Vec::new(),
        };
        let constants = match &self.constants {
            Some(cs) => compile_consts(cs)?,
            None => Vec::new(),
        };
        let typedefs = match &self.typedefs {
            Some(ts) => compile_typedefs(ts)?,
            None => Vec::new(),
        };
        let libraries = match &self.libraries {
            Some(ls) => ls.clone(),
            None => Vec::new(),
        };
        let magic: [u8; 4] = [0x55u8, 0x43u8, 0x49u8, 0x46u8];
        let f = UcifFile {
            magic,
            version: match self.version {
                Some(v) => v,
                None => (0, 1),
            },
            name: self.name.clone(),
            description: match &self.description {
                Some(d) => d.clone(),
                None => String::new(),
            },
            libraries,
            functions,
            structs,
            constants,
            typedefs,
        };
        assert(f.magic@ =~= ucif_magic());
        assert(file_view(f) =~= compiled(*self)->Ok_0);
        Ok(f)
    }
}

} // verus!
