//! UCIF interface descriptors: the C libraries, function prototypes,
//! structs, constants and type aliases that a compiler needs; their
//! validation, and the binary frame they are stored in.
use vstd::prelude::*;

use crate::bytecode::le::{le_bytes, le_value, lemma_le_bytes_len, lemma_le_roundtrip, lemma_pow256_values};
use crate::bytecode::writer::push_le;
use crate::cib::marshal::CType;
use crate::names::string_views;
use crate::text::{decimal, usize_to_decimal, u32_to_decimal};

verus! {

/// The version of the UCIF format.
pub const UCIF_VERSION: u32 = 1;

/// The magic bytes that open a UCIF file: `UCIF`.
pub open spec fn ucif_magic() -> Seq<u8> {
    seq![0x55u8, 0x43u8, 0x49u8, 0x46u8]
}

/// A C interface.
#[derive(Debug)]
pub struct UcifInterface {
    pub version: u32,
    pub name: String,
    pub description: String,
    pub libraries: Vec<String>,
    pub functions: Vec<FuncProto>,
    pub structs: Vec<StructDef>,
    pub constants: Vec<ConstDef>,
    pub typedefs: Vec<(String, CType)>,
}

/// A C function prototype.
#[derive(Debug)]
pub struct FuncProto {
    pub name: String,
    pub ret: CType,
    pub params: Vec<ParamDef>,
    pub variadic: bool,
    pub abi: CallingConvention,
}

/// A function parameter.
#[derive(Debug)]
pub struct ParamDef {
    pub name: String,
    pub ctype: CType,
}

/// A calling convention.
#[derive(Clone, Copy, Debug, PartialEq, Eq, Structural)]
pub enum CallingConvention {
    Cdecl,
    StdCall,
}

impl Default for CallingConvention {
    fn default() -> (r: Self)
        ensures
            r == CallingConvention::Cdecl,
    {
        CallingConvention::Cdecl
    }
}

/// A struct field before layout.
#[derive(Debug)]
pub struct StructFieldDef {
    pub name: String,
    pub ctype: CType,
}

/// A struct before layout.
#[derive(Debug)]
pub struct StructDef {
    pub name: String,
    pub fields: Vec<StructFieldDef>,
}

/// A named constant; a float is held by its IEEE-754 bit pattern.
#[derive(Debug)]
pub enum ConstDef {
    Int(i64),
    UInt(u64),
    Float(u64),
    Str(String),
    Ptr(String),
}

impl ConstDef {
    /// The name a constant is registered under when its interface is
    /// loaded: its kind for numbers, its text or symbol otherwise.
    pub fn registered_name(&self) -> (r: String)
        ensures
            r@ == match *self {
                ConstDef::Int(_) => "int"@,
                ConstDef::UInt(_) => "uint"@,
                ConstDef::Float(_) => "float"@,
                ConstDef::Str(s) => s@,
                ConstDef::Ptr(s) => s@,
            },
    {
        match self {
            ConstDef::Int(_) => "int".to_owned(),
            ConstDef::UInt(_) => "uint".to_owned(),
            ConstDef::Float(_) => "float".to_owned(),
            ConstDef::Str(s) => s.clone(),
            ConstDef::Ptr(s) => s.clone(),
        }
    }
}

impl FuncProto {
    /// Whether a call with `n` arguments has the right count: any count
    /// for a variadic function, else exactly one per parameter.
    pub fn accepts_arg_count(&self, n: usize) -> (r: bool)
        ensures
            r == (self.variadic || n == self.params@.len()),
    {
        self.variadic || n == self.params.len()
    }
}

// ── Validation ──

/// The errors about the parameters of function `fname`.
pub open spec fn param_errors(fname: Seq<char>, ps: Seq<ParamDef>) -> Seq<Seq<char>>
    decreases ps.len(),
{
    if ps.len() == 0 {
        Seq::empty()
    } else {
        param_errors(fname, ps.drop_last()) + if ps.last().name@.len() == 0 {
            seq!["Function '"@ + fname + "': param "@ + decimal((ps.len() - 1) as nat) + " has empty name"@]
        } else {
            Seq::empty()
        }
    }
}

/// The errors about function `f`, the `i`-th.
pub open spec fn one_function_errors(f: FuncProto, i: nat) -> Seq<Seq<char>> {
    (if f.name@.len() == 0 {
        seq!["Function "@ + decimal(i) + ": empty name"@]
    } else {
        Seq::<Seq<char>>::empty()
    }) + param_errors(f.name@, f.params@)
}

/// The errors about the functions `fs`, in order.
pub open spec fn function_errors(fs: Seq<FuncProto>) -> Seq<Seq<char>>
    decreases fs.len(),
{
    if fs.len() == 0 {
        Seq::empty()
    } else {
        function_errors(fs.drop_last()) + one_function_errors(fs.last(), (fs.len() - 1) as nat)
    }
}

/// The errors about the fields of struct `sname`.
pub open spec fn field_errors(sname: Seq<char>, fs: Seq<StructFieldDef>) -> Seq<Seq<char>>
    decreases fs.len(),
{
    if fs.len() == 0 {
        Seq::empty()
    } else {
        field_errors(sname, fs.drop_last()) + if fs.last().name@.len() == 0 {
            seq!["Struct '"@ + sname + "': field has empty name"@]
        } else {
            Seq::empty()
        }
    }
}

/// The errors about struct `s`.
pub open spec fn one_struct_errors(s: StructDef) -> Seq<Seq<char>> {
    (if s.name@.len() == 0 {
        seq!["Struct has empty name"@]
    } else {
        Seq::<Seq<char>>::empty()
    }) + field_errors(s.name@, s.fields@)
}

/// The errors about the structs `ss`, in order.
pub open spec fn struct_errors(ss: Seq<StructDef>) -> Seq<Seq<char>>
    decreases ss.len(),
{
    if ss.len() == 0 {
        Seq::empty()
    } else {
        struct_errors(ss.drop_last()) + one_struct_errors(ss.last())
    }
}

/// Everything wrong with an interface, in the order it is reported: an
/// empty name, no libraries, another format version, then unnamed
/// functions, parameters, structs and fields.
pub open spec fn interface_errors(u: UcifInterface) -> Seq<Seq<char>> {
    (if u.name@.len() == 0 {
        seq!["Interface name is empty"@]
    } else {
        Seq::<Seq<char>>::empty()
    }) + (if u.libraries@.len() == 0 {
        seq!["No libraries specified"@]
    } else {
        Seq::<Seq<char>>::empty()
    }) + (if u.version != UCIF_VERSION {
        seq!["Unsupported version: "@ + decimal(u.version as nat)]
    } else {
        Seq::<Seq<char>>::empty()
    }) + function_errors(u.functions@) + struct_errors(u.structs@)
}

/// `a` followed by `b`.
fn concat(a: &str, b: &str) -> (r: String)
    ensures
        r@ == a@ + b@,
{
    let mut s = a.to_owned();
    s.append(b);
    s
}

fn push_function_errors(errors: &mut Vec<String>, f: &FuncProto, i: usize)
    ensures
        string_views(final(errors)@) == string_views(old(errors)@) + one_function_errors(*f, i as nat),
{
    let ghost start = string_views(errors@);
    if f.name.as_str().is_empty() {
        let mut m = concat("Function ", usize_to_decimal(i).as_str());
        m.append(": empty name");
        errors.push(m);
    }
    assert(string_views(errors@) =~= start + (if f.name@.len() == 0 {
        seq!["Function "@ + decimal(i as nat) + ": empty name"@]
    } else {
        Seq::<Seq<char>>::empty()
    }));
    let ghost mid = string_views(errors@);
    let mut j: usize = 0;
    while j < f.params.len()
        invariant
            j <= f.params@.len(),
            string_views(errors@) == mid + param_errors(f.name@, f.params@.take(j as int)),
        decreases f.params@.len() - j,
    {
        let ghost before = string_views(errors@);
        let ghost ps = f.params@.take(j + 1);
        assert(ps.drop_last() =~= f.params@.take(j as int));
        assert(ps.last() == f.params@[j as int]);
        if f.params[j].name.as_str().is_empty() {
            let mut m = concat("Function '", f.name.as_str());
            m.append("': param ");
            m.append(usize_to_decimal(j).as_str());
            m.append(" has empty name");
            errors.push(m);
            assert(string_views(errors@) =~= before.push(m@));
        } else {
            assert(string_views(errors@) =~= before);
        }
        j = j + 1;
        assert(string_views(errors@) =~= mid + param_errors(f.name@, f.params@.take(j as int)));
    }
    assert(f.params@.take(f.params@.len() as int) =~= f.params@);
    assert(string_views(errors@) =~= start + one_function_errors(*f, i as nat));
}

fn push_struct_errors(errors: &mut Vec<String>, s: &StructDef)
    ensures
        string_views(final(errors)@) == string_views(old(errors)@) + one_struct_errors(*s),
{
    let ghost start = string_views(errors@);
    if s.name.as_str().is_empty() {
        errors.push("Struct has empty name".to_owned());
    }
    assert(string_views(errors@) =~= start + (if s.name@.len() == 0 {
        seq!["Struct has empty name"@]
    } else {
        Seq::<Seq<char>>::empty()
    }));
    let ghost mid = string_views(errors@);
    let mut j: usize = 0;
    while j < s.fields.len()
        invariant
            j <= s.fields@.len(),
            string_views(errors@) == mid + field_errors(s.name@, s.fields@.take(j as int)),
        decreases s.fields@.len() - j,
    {
        let ghost before = string_views(errors@);
        let ghost fs = s.fields@.take(j + 1);
        assert(fs.drop_last() =~= s.fields@.take(j as int));
        assert(fs.last() == s.fields@[j as int]);
        if s.fields[j].name.as_str().is_empty() {
            let mut m = concat("Struct '", s.name.as_str());
            m.append("': field has empty name");
            errors.push(m);
            assert(string_views(errors@) =~= before.push(m@));
        } else {
            assert(string_views(errors@) =~= before);
        }
        j = j + 1;
        assert(string_views(errors@) =~= mid + field_errors(s.name@, s.fields@.take(j as int)));
    }
    assert(s.fields@.take(s.fields@.len() as int) =~= s.fields@);
    assert(string_views(errors@) =~= start + one_struct_errors(*s));
}

impl UcifInterface {
    /// An interface of the current format version called `name`, with
    /// nothing in it.
    pub fn new(name: &str) -> (r: Self)
        ensures
            r.version == UCIF_VERSION,
            r.name@ == name@,
            r.description@ == Seq::<char>::empty(),
            r.libraries@.len() == 0,
            r.functions@.len() == 0,
            r.structs@.len() == 0,
            r.constants@.len() == 0,
            r.typedefs@.len() == 0,
    {
        UcifInterface {
            version: UCIF_VERSION,
            name: name.to_owned(),
            description: String::new(),
            libraries: Vec::new(),
            functions: Vec::new(),
            structs: Vec::new(),
            constants: Vec::new(),
            typedefs: Vec::new(),
        }
    }

    /// The interface with library `lib` added.
    pub fn with_library(self, lib: &str) -> (r: Self)
        ensures
            string_views(r.libraries@) == string_views(self.libraries@).push(lib@),
            r.version == self.version,
            r.name == self.name,
            r.description == self.description,
            r.functions == self.functions,
            r.structs == self.structs,
            r.constants == self.constants,
            r.typedefs == self.typedefs,
    {
        let mut r = self;
        let ghost before = r.libraries@;
        r.libraries.push(lib.to_owned());
        assert(string_views(r.libraries@) =~= string_views(before).push(lib@));
        r
    }

    /// The interface with a cdecl, non-variadic function added.
    pub fn with_function(self, name: &str, ret: CType, params: Vec<ParamDef>) -> (r: Self)
        ensures
            r.functions@.len() == self.functions@.len() + 1,
            r.functions@.drop_last() == self.functions@,
            r.functions@.last().name@ == name@,
            r.functions@.last().ret == ret,
            r.functions@.last().params == params,
            !r.functions@.last().variadic,
            r.functions@.last().abi == CallingConvention::Cdecl,
            r.version == self.version,
            r.name == self.name,
            r.description == self.description,
            r.libraries == self.libraries,
            r.structs == self.structs,
            r.constants == self.constants,
            r.typedefs == self.typedefs,
    {
        let mut r = self;
        r.functions.push(
            FuncProto {
                name: name.to_owned(),
                ret,
                params,
                variadic: false,
                abi: CallingConvention::Cdecl,
            },
        );
        assert(r.functions@.drop_last() =~= self.functions@);
        r
    }

    /// The interface with a struct added.
    pub fn with_struct(self, name: &str, fields: Vec<StructFieldDef>) -> (r: Self)
        ensures
            r.structs@.len() == self.structs@.len() + 1,
            r.structs@.drop_last() == self.structs@,
            r.structs@.last().name@ == name@,
            r.structs@.last().fields == fields,
            r.version == self.version,
            r.name == self.name,
            r.description == self.description,
            r.libraries == self.libraries,
            r.functions == self.functions,
            r.constants == self.constants,
            r.typedefs == self.typedefs,
    {
        let mut r = self;
        r.structs.push(StructDef { name: name.to_owned(), fields });
        assert(r.structs@.drop_last() =~= self.structs@);
        r
    }

    /// `Ok` when nothing is wrong with the interface, else every problem
    /// found, in order.
    pub fn validate(&self) -> (r: Result<(), Vec<String>>)
        ensures
            match r {
                Ok(()) => interface_errors(*self).len() == 0,
                Err(es) => string_views(es@) == interface_errors(*self) && es@.len() > 0,
            },
    {
        let mut errors: Vec<String> = Vec::new();
        if self.name.as_str().is_empty() {
            errors.push("Interface name is empty".to_owned());
        }
        if self.libraries.len() == 0 {
            errors.push("No libraries specified".to_owned());
        }
        if self.version != UCIF_VERSION {
            errors.push(concat("Unsupported version: ", u32_to_decimal(self.version).as_str()));
        }
        let ghost head = string_views(errors@);
        assert(head =~= (if self.name@.len() == 0 {
            seq!["Interface name is empty"@]
        } else {
            Seq::<Seq<char>>::empty()
        }) + (if self.libraries@.len() == 0 {
            seq!["No libraries specified"@]
        } else {
            Seq::<Seq<char>>::empty()
        }) + (if self.version != UCIF_VERSION {
            seq!["Unsupported version: "@ + decimal(self.version as nat)]
        } else {
            Seq::<Seq<char>>::empty()
        }));
        let mut i: usize = 0;
        while i < self.functions.len()
            invariant
                i <= self.functions@.len(),
                string_views(errors@) == head + function_errors(self.functions@.take(i as int)),
            decreases self.functions@.len() - i,
        {
            let ghost fs = self.functions@.take(i + 1);
            assert(fs.drop_last() =~= self.functions@.take(i as int));
            push_function_errors(&mut errors, &self.functions[i], i);
            i = i + 1;
            assert(string_views(errors@) =~= head + function_errors(self.functions@.take(i as int)));
        }
        assert(self.functions@.take(self.functions@.len() as int) =~= self.functions@);
        let ghost mid = string_views(errors@);
        let mut k: usize = 0;
        while k < self.structs.len()
            invariant
                k <= self.structs@.len(),
                string_views(errors@) == mid + struct_errors(self.structs@.take(k as int)),
            decreases self.structs@.len() - k,
        {
            let ghost ss = self.structs@.take(k + 1);
            assert(ss.drop_last() =~= self.structs@.take(k as int));
            push_struct_errors(&mut errors, &self.structs[k]);
            k = k + 1;
            assert(string_views(errors@) =~= mid + struct_errors(self.structs@.take(k as int)));
        }
        assert(self.structs@.take(self.structs@.len() as int) =~= self.structs@);
        assert(string_views(errors@) =~= interface_errors(*self));
        if errors.len() == 0 {
            Ok(())
        } else {
            Err(errors)
        }
    }
}

// ── The binary frame ──

/// A UCIF file around its encoded body: the magic bytes, the format
/// version and the body's length (4 bytes each, little-endian), then the
/// body.
pub open spec fn framed(body: Seq<u8>) -> Seq<u8> {
    ucif_magic() + le_bytes(UCIF_VERSION as nat, 4) + le_bytes(body.len(), 4) + body
}

/// Frames an encoded interface body.
pub fn frame(body: &Vec<u8>) -> (r: Vec<u8>)
    requires
        body@.len() <= u32::MAX,
    ensures
        r@ == framed(body@),
{
    let mut out: Vec<u8> = Vec::new();
    out.push(0x55u8);
    out.push(0x43u8);
    out.push(0x49u8);
    out.push(0x46u8);
    assert(out@ =~= ucif_magic());
    push_le(&mut out, UCIF_VERSION as u64, 4);
    push_le(&mut out, body.len() as u64, 4);
    let mut i: usize = 0;
    let ghost head = out@;
    while i < body.len()
        invariant
            i <= body@.len(),
            out@ == head + body@.take(i as int),
        decreases body@.len() - i,
    {
        out.push(body[i]);
        i = i + 1;
        assert(out@ =~= head + body@.take(i as int));
    }
    assert(body@.take(body@.len() as int) =~= body@);
    out
}

/// The little-endian value of four bytes of `b` from `at`.
fn le_u32_at(b: &[u8], at: usize) -> (r: u32)
    requires
        at + 4 <= b@.len(),
    ensures
        r as nat == le_value(b@.subrange(at as int, at + 4)),
{
    proof {
        let s = b@.subrange(at as int, at + 4);
        let s1 = s.drop_first();
        let s2 = s1.drop_first();
        let s3 = s2.drop_first();
        let s4 = s3.drop_first();
        assert(s4.len() == 0);
        assert(le_value(s4) == 0);
        assert(le_value(s3) == s3[0] as nat + 256 * le_value(s4));
        assert(le_value(s2) == s2[0] as nat + 256 * le_value(s3));
        assert(le_value(s1) == s1[0] as nat + 256 * le_value(s2));
        assert(le_value(s) == s[0] as nat + 256 * le_value(s1));
    }
    (b[at] as u32) + 256 * ((b[at + 1] as u32) + 256 * ((b[at + 2] as u32) + 256 * (b[at + 3] as u32)))
}

/// The text `{:?}` gives for four bytes: `[a, b, c, d]`.
pub open spec fn bytes_debug(b: Seq<u8>) -> Seq<char> {
    "["@ + decimal(b[0] as nat) + ", "@ + decimal(b[1] as nat) + ", "@ + decimal(b[2] as nat) + ", "@
        + decimal(b[3] as nat) + "]"@
}

/// Where a UCIF file's header is read: the file is at least 10 bytes, a
/// header whose magic and version check out is read in full.
pub open spec fn header_readable(b: Seq<u8>) -> bool {
    b.len() < 10 || b.subrange(0, 4) != ucif_magic() || le_value(b.subrange(4, 8)) != UCIF_VERSION
        || b.len() >= 12
}

/// The body of a UCIF file, or what is wrong with its frame: too short,
/// the wrong magic, another version, or a body cut off.
pub open spec fn unframed(b: Seq<u8>) -> Result<Seq<u8>, Seq<char>> {
    if b.len() < 10 {
        Err("UCIF too short"@)
    } else if b.subrange(0, 4) != ucif_magic() {
        Err("Invalid UCIF magic: expected UCIF, got "@ + bytes_debug(b))
    } else if le_value(b.subrange(4, 8)) != UCIF_VERSION {
        Err("Unsupported UCIF version: "@ + decimal(le_value(b.subrange(4, 8))))
    } else if 12 + le_value(b.subrange(8, 12)) > b.len() {
        Err("UCIF truncated"@)
    } else {
        Ok(b.subrange(12, 12 + le_value(b.subrange(8, 12)) as int))
    }
}

/// Unframing a framed body gives the body back.
pub proof fn lemma_unframe_frame(body: Seq<u8>)
    requires
        body.len() <= u32::MAX,
    ensures
        header_readable(framed(body)),
        unframed(framed(body)) == Ok::<Seq<u8>, Seq<char>>(body),
{
    let f = framed(body);
    lemma_le_bytes_len(UCIF_VERSION as nat, 4);
    lemma_le_bytes_len(body.len(), 4);
    lemma_pow256_values();
    lemma_le_roundtrip(UCIF_VERSION as nat, 4);
    lemma_le_roundtrip(body.len(), 4);
    let v = le_bytes(UCIF_VERSION as nat, 4);
    let l = le_bytes(body.len(), 4);
    assert(f.subrange(0, 4) =~= ucif_magic());
    assert(f.subrange(4, 8) =~= v);
    assert(f.subrange(8, 12) =~= l);
    assert(f.subrange(12, 12 + body.len() as int) =~= body);
}

/// Checks the frame of a UCIF file and gives its body.
pub fn unframe(b: &[u8]) -> (r: Result<Vec<u8>, String>)
    requires
        header_readable(b@),
    ensures
        match (r, unframed(b@)) {
            (Ok(body), Ok(expect)) => body@ == expect,
            (Err(e), Err(expect)) => e@ == expect,
            _ => false,
        },
{
    if b.len() < 10 {
        return Err("UCIF too short".to_owned());
    }
    if !(b[0] == 0x55 && b[1] == 0x43 && b[2] == 0x49 && b[3] == 0x46) {
        assert(b@.subrange(0, 4) != ucif_magic()) by {
            if b@.subrange(0, 4) == ucif_magic() {
                assert(b@[0] == b@.subrange(0, 4)[0]);
                assert(b@[1] == b@.subrange(0, 4)[1]);
                assert(b@[2] == b@.subrange(0, 4)[2]);
                assert(b@[3] == b@.subrange(0, 4)[3]);
            }
        }
        let mut m = "Invalid UCIF magic: expected UCIF, got [".to_owned();
        m.append(u32_to_decimal(b[0] as u32).as_str());
        m.append(", ");
        m.append(u32_to_decimal(b[1] as u32).as_str());
        m.append(", ");
        m.append(u32_to_decimal(b[2] as u32).as_str());
        m.append(", ");
        m.append(u32_to_decimal(b[3] as u32).as_str());
        m.append("]");
        proof {
            reveal_strlit("Invalid UCIF magic: expected UCIF, got [");
            reveal_strlit("Invalid UCIF magic: expected UCIF, got ");
            reveal_strlit("[");
        }
        assert(m@ =~= "Invalid UCIF magic: expected UCIF, got "@ + bytes_debug(b@));
        return Err(m);
    }
    assert(b@.subrange(0, 4) =~= ucif_magic());
    let version = le_u32_at(b, 4);
    if version != UCIF_VERSION {
        return Err(concat("Unsupported UCIF version: ", u32_to_decimal(version).as_str()));
    }
    let json_len = le_u32_at(b, 8) as usize;
    if json_len > b.len() - 12 {
        return Err("UCIF truncated".to_owned());
    }
    let end = 12 + json_len;
    let mut body: Vec<u8> = Vec::new();
    let mut i: usize = 12;
    while i < end
        invariant
            12 <= i <= end <= b@.len(),
            end == 12 + json_len,
            body@ == b@.subrange(12, i as int),
        decreases end - i,
    {
        body.push(b[i]);
        i = i + 1;
        assert(body@ =~= b@.subrange(12, i as int));
    }
    Ok(body)
}

} // verus!
