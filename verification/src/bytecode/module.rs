//! The compiled-module format (`.uclib` libraries and `.ucch` caches).
use vstd::prelude::*;

verus! {

/// Index into a module's string pool.
pub type StringId = u32;

/// Index into a module's function table.
pub type FuncRef = u32;

/// Index into a module's struct table.
pub type StructId = u32;

/// Version of the bytecode format that this library reads and writes.
pub const BYTECODE_VERSION: u32 = 3;

/// `b"UCLB"`, the magic of a library module.
pub open spec fn uclib_magic() -> Seq<u8> {
    seq![0x55u8, 0x43u8, 0x4Cu8, 0x42u8]
}

/// `b"UCCH"`, the magic of a cache module.
pub open spec fn ucch_magic() -> Seq<u8> {
    seq![0x55u8, 0x43u8, 0x43u8, 0x48u8]
}

/// The magic bytes of a library module.
pub fn uclib_magic_bytes() -> (r: [u8; 4])
    ensures
        r@ == uclib_magic(),
{
    let r = [0x55u8, 0x43u8, 0x4Cu8, 0x42u8];
    assert(r@ =~= uclib_magic());
    r
}

/// The magic bytes of a cache module.
pub fn ucch_magic_bytes() -> (r: [u8; 4])
    ensures
        r@ == ucch_magic(),
{
    let r = [0x55u8, 0x43u8, 0x43u8, 0x48u8];
    assert(r@ =~= ucch_magic());
    r
}

/// A debug line-number entry.
#[derive(Clone, Copy, Debug, PartialEq, Eq, Structural)]
pub struct LineEntry {
    pub func_index: u32,
    pub offset: u32,
    pub line: u32,
    pub column: u32,
}

/// Module header metadata.
#[derive(Clone, Debug)]
pub struct ModuleHeader {
    /// Name of the module.
    pub name: String,
    /// Source language (e.g. "python").
    pub source_lang: String,
    /// Compiler name.
    pub compiler: String,
    /// Compiler version.
    pub compiler_version: String,
    /// GC strategy: "generational" (default), "mark-sweep", "refcount" or "none".
    pub gc_strategy: String,
    /// Whether JIT is recommended.
    pub jit_recommended: bool,
    /// Compiler-specific key/value metadata.
    pub metadata: Vec<(String, String)>,
    /// Line-number mapping.
    pub line_map: Vec<LineEntry>,
}

/// A function definition.
#[derive(Clone, Debug)]
pub struct FunctionDef {
    pub name: String,
    /// Raw bytecode.
    pub bytecode: Vec<u8>,
    /// Number of local variables.
    pub n_locals: u16,
    /// Number of parameters.
    pub n_params: u16,
    /// Whether the function is variadic.
    pub is_variadic: bool,
    /// Size of the capture environment (closures).
    pub n_captures: u16,
    /// Return type hint.
    pub return_type: Option<String>,
    /// Parameter type hints.
    pub param_types: Vec<String>,
    /// Execution-count counter kept at run time.
    pub hotness: u32,
}

/// A constant-pool entry. Floating-point constants are held as their IEEE-754
/// bit patterns.
#[derive(Clone, Copy, Debug, PartialEq, Eq, Structural)]
pub enum ConstValue {
    Nil,
    Bool(bool),
    Int32(i32),
    Int64(i64),
    Float32(u32),
    Float64(u64),
    String(StringId),
}

/// A global variable definition.
#[derive(Clone, Debug)]
pub struct GlobalDef {
    pub name: String,
    pub init_value: Option<ConstValue>,
    pub is_exported: bool,
}

/// An export entry.
#[derive(Clone, Debug)]
pub enum ExportEntry {
    Function(FuncRef),
    Global(u32),
    /// Type name (for structs).
    Type(String),
}

/// Kind of an imported item.
#[derive(Clone, Copy, Debug, PartialEq, Eq, Structural)]
pub enum ImportType {
    Function,
    Value,
}

/// An import entry (for cross-module calls).
#[derive(Clone, Copy, Debug, PartialEq, Eq, Structural)]
pub struct ImportEntry {
    pub module_name: StringId,
    pub export_name: StringId,
    pub import_type: ImportType,
}

/// An exception-table entry: a throw inside `[try_start, try_end)` of
/// function `func_index` transfers control to `handler_pc` (0 marks a
/// finally block).
#[derive(Clone, Copy, Debug, PartialEq, Eq, Structural)]
pub struct ExceptionTableEntry {
    pub func_index: u32,
    pub try_start: u32,
    pub try_end: u32,
    pub handler_pc: u32,
    pub catch_type: Option<StringId>,
    pub finally_pc: Option<u32>,
}

/// A value-type (struct) definition: its name in the string pool and its
/// size in bytes.
#[derive(Clone, Copy, Debug, PartialEq, Eq, Structural)]
pub struct StructDef {
    pub name: StringId,
    pub size: u32,
}

/// A `(major, minor)` VM version.
#[derive(Clone, Copy, Debug, PartialEq, Eq, Structural)]
pub struct VmVersion {
    pub major: u16,
    pub minor: u16,
}

/// A complete compiled module.
#[derive(Clone, Debug)]
pub struct UtenModule {
    pub magic: [u8; 4],
    /// VM version that compiled this module.
    pub version: VmVersion,
    /// Bytecode format version.
    pub bytecode_version: u32,
    pub header: ModuleHeader,
    /// String pool, addressed by `StringId`.
    pub strings: Vec<String>,
    /// Constant pool.
    pub constants: Vec<ConstValue>,
    pub functions: Vec<FunctionDef>,
    /// Struct type definitions.
    pub structs: Vec<StructDef>,
    pub globals: Vec<GlobalDef>,
    /// Exported names; each name occurs at most once.
    pub exports: Vec<(String, ExportEntry)>,
    pub imports: Vec<ImportEntry>,
    /// Exception-handling table.
    pub exceptions: Vec<ExceptionTableEntry>,
}

/// Whether `h` is the header `UtenModule::new(name)` starts with, apart
/// from its line map.
pub open spec fn default_header(h: ModuleHeader, name: Seq<char>) -> bool {
    &&& h.name@ == name
    &&& h.source_lang@ == Seq::<char>::empty()
    &&& h.compiler@ == "utencore"@
    &&& h.compiler_version@ == "0.0.5"@
    &&& h.gc_strategy@ == "generational"@
    &&& !h.jit_recommended
    &&& h.metadata@.len() == 0
}

/// The pool after interning `s` in `pool`, and the id `s` gets there: its
/// first occurrence, or a new last entry.
pub open spec fn interned(pool: Seq<Seq<char>>, s: Seq<char>) -> (Seq<Seq<char>>, int) {
    match pool.index_of_first(s) {
        Some(i) => (pool, i),
        None => (pool.push(s), pool.len() as int),
    }
}

/// Interning names its string and is idempotent: the id it gives holds
/// `s`, no earlier entry does, and interning `s` again into the pool it
/// produced gives the same id and leaves that pool as it is.
pub proof fn lemma_intern_twice(pool: Seq<Seq<char>>, s: Seq<char>)
    ensures
        0 <= interned(pool, s).1 < interned(pool, s).0.len(),
        interned(pool, s).0[interned(pool, s).1] == s,
        forall|j: int| 0 <= j < interned(pool, s).1 ==> interned(pool, s).0[j] != s,
        interned(interned(pool, s).0, s) == interned(pool, s),
{
    pool.index_of_first_ensures(s);
    let p1 = interned(pool, s).0;
    p1.index_of_first_ensures(s);
    if !pool.contains(s) {
        assert(p1[pool.len() as int] == s);
        assert(p1.contains(s));
        let k = p1.index_of_first(s)->0;
        if k < pool.len() {
            assert(pool[k] == s);
        }
    }
}

/// The pool after interning each of `xs` in turn.
pub open spec fn intern_all(pool: Seq<Seq<char>>, xs: Seq<Seq<char>>) -> Seq<Seq<char>>
    decreases xs.len(),
{
    if xs.len() == 0 {
        pool
    } else {
        interned(intern_all(pool, xs.drop_last()), xs.last()).0
    }
}

/// The contents of a string pool.
pub open spec fn pool_view(strings: Seq<String>) -> Seq<Seq<char>> {
    strings.map_values(|x: String| x@)
}

/// The (key, value) texts of a metadata list.
pub open spec fn metadata_view(es: Seq<(String, String)>) -> Seq<(Seq<char>, Seq<char>)> {
    es.map_values(|e: (String, String)| (e.0@, e.1@))
}

/// The first index, from `i` on, of an entry with key `k`.
pub open spec fn first_key_from(es: Seq<(Seq<char>, Seq<char>)>, k: Seq<char>, i: int) -> Option<int>
    decreases es.len() - i,
{
    if i < 0 || i >= es.len() {
        None
    } else if es[i].0 == k {
        Some(i)
    } else {
        first_key_from(es, k, i + 1)
    }
}

/// The first index of an entry with key `k`.
pub open spec fn first_key(es: Seq<(Seq<char>, Seq<char>)>, k: Seq<char>) -> Option<int> {
    first_key_from(es, k, 0)
}

proof fn lemma_first_key_from(es: Seq<(Seq<char>, Seq<char>)>, k: Seq<char>, start: int)
    requires
        0 <= start,
    ensures
        match first_key_from(es, k, start) {
            Some(i) => start <= i < es.len() && es[i].0 == k && forall|j: int|
                start <= j < i ==> es[j].0 != k,
            None => forall|j: int| start <= j < es.len() ==> es[j].0 != k,
        },
    decreases es.len() - start,
{
    if start < es.len() && es[start].0 != k {
        lemma_first_key_from(es, k, start + 1);
    }
}

/// `es` with `key` set to `value`: the first entry with that key takes the
/// value, or a new entry is added at the end.
pub open spec fn with_entry(es: Seq<(Seq<char>, Seq<char>)>, key: Seq<char>, value: Seq<char>) -> Seq<
    (Seq<char>, Seq<char>),
> {
    match first_key(es, key) {
        Some(i) => es.update(i, (key, value)),
        None => es.push((key, value)),
    }
}

/// Sets the metadata entry `key` of a header to `value`, as inserting into
/// a map does: an entry with that key takes the value, else one is added.
pub fn set_metadata(h: &mut ModuleHeader, key: &str, value: String)
    ensures
        metadata_view(final(h).metadata@) == with_entry(metadata_view(old(h).metadata@), key@, value@),
        final(h).name == old(h).name,
        final(h).source_lang == old(h).source_lang,
        final(h).compiler == old(h).compiler,
        final(h).compiler_version == old(h).compiler_version,
        final(h).gc_strategy == old(h).gc_strategy,
        final(h).jit_recommended == old(h).jit_recommended,
        final(h).line_map == old(h).line_map,
{
    let ghost es = metadata_view(h.metadata@);
    let k = key.to_owned();
    let mut i: usize = 0;
    while i < h.metadata.len()
        invariant
            i <= h.metadata@.len(),
            *h == *old(h),
            es == metadata_view(h.metadata@),
            k@ == key@,
            first_key(es, key@) == first_key_from(es, key@, i as int),
        decreases h.metadata@.len() - i,
    {
        if h.metadata[i].0 == k {
            assert(es[i as int].0 == key@);
            h.metadata.set(i, (k, value));
            assert(metadata_view(h.metadata@) =~= es.update(i as int, (key@, value@)));
            return;
        }
        i = i + 1;
    }
    h.metadata.push((k, value));
    assert(metadata_view(h.metadata@) =~= es.push((key@, value@)));
}

/// A metadata entry reads back as it was set: after `key` is set to
/// `value`, the first entry with `key` holds `value`, and every entry with
/// another key is as it was.
pub proof fn lemma_set_then_get(es: Seq<(Seq<char>, Seq<char>)>, key: Seq<char>, value: Seq<char>)
    ensures
        ({
            let es2 = with_entry(es, key, value);
            &&& first_key(es2, key) matches Some(i) && es2[i].1 == value
            &&& forall|j: int| 0 <= j < es.len() && es[j].0 != key ==> es2[j] == es[j]
        }),
{
    let es2 = with_entry(es, key, value);
    lemma_first_key_from(es, key, 0);
    lemma_first_key_from(es2, key, 0);
    match first_key(es, key) {
        Some(i) => {
            assert(es2[i].0 == key);
            if first_key(es2, key) is None {
                assert(es2[i].0 != key);
            }
            let c = first_key(es2, key)->0;
            if c < i {
                assert(es2[c] == es[c]);
            } else if c > i {
                assert(es2[i].0 != key);
            }
        },
        None => {
            let n = es.len() as int;
            assert(es2[n].0 == key);
            if first_key(es2, key) is None {
                assert(es2[n].0 != key);
            }
            let c = first_key(es2, key)->0;
            if c < n {
                assert(es2[c] == es[c]);
            } else if c > n {
                assert(es2[n].0 != key);
            }
        },
    }
}

impl UtenModule {
    /// The contents of the string pool.
    pub open spec fn pool(&self) -> Seq<Seq<char>> {
        pool_view(self.strings@)
    }

    /// A new module with default headers and empty tables.
    pub fn new(name: &str) -> (m: Self)
        ensures
            m.magic@ == uclib_magic(),
            m.version == (VmVersion { major: 0, minor: 1 }),
            m.bytecode_version == BYTECODE_VERSION,
            m.header.name@ == name@,
            m.header.source_lang@ == Seq::<char>::empty(),
            m.header.compiler@ == "utencore"@,
            m.header.compiler_version@ == "0.0.5"@,
            m.header.gc_strategy@ == "generational"@,
            !m.header.jit_recommended,
            m.header.metadata@.len() == 0,
            m.header.line_map@.len() == 0,
            m.strings@.len() == 0,
            m.constants@.len() == 0,
            m.functions@.len() == 0,
            m.structs@.len() == 0,
            m.globals@.len() == 0,
            m.exports@.len() == 0,
            m.imports@.len() == 0,
            m.exceptions@.len() == 0,
    {
        UtenModule {
            magic: uclib_magic_bytes(),
            version: VmVersion { major: 0, minor: 1 },
            bytecode_version: BYTECODE_VERSION,
            header: ModuleHeader {
                name: name.to_owned(),
                source_lang: String::new(),
                compiler: "utencore".to_owned(),
                compiler_version: "0.0.5".to_owned(),
                gc_strategy: "generational".to_owned(),
                jit_recommended: false,
                metadata: Vec::new(),
                line_map: Vec::new(),
            },
            strings: Vec::new(),
            constants: Vec::new(),
            functions: Vec::new(),
            structs: Vec::new(),
            globals: Vec::new(),
            exports: Vec::new(),
            imports: Vec::new(),
            exceptions: Vec::new(),
        }
    }

    /// Adds `s` to the string pool unless it is there already, and returns
    /// the id of its first occurrence.
    pub fn intern(&mut self, s: &str) -> (id: StringId)
        requires
            old(self).strings@.len() < u32::MAX,
        ensures
            id < final(self).strings@.len(),
            final(self).pool()[id as int] == s@,
            forall|j: int| 0 <= j < id ==> final(self).pool()[j] != s@,
            old(self).pool().contains(s@) ==> final(self).strings@ == old(self).strings@,
            !old(self).pool().contains(s@) ==> final(self).pool() == old(self).pool().push(s@)
                && id == old(self).strings@.len(),
            (final(self).pool(), id as int) == interned(old(self).pool(), s@),
            final(self).magic == old(self).magic,
            final(self).version == old(self).version,
            final(self).bytecode_version == old(self).bytecode_version,
            final(self).header == old(self).header,
            final(self).constants == old(self).constants,
            final(self).functions == old(self).functions,
            final(self).structs == old(self).structs,
            final(self).globals == old(self).globals,
            final(self).exports == old(self).exports,
            final(self).imports == old(self).imports,
            final(self).exceptions == old(self).exceptions,
    {
        let st = s.to_owned();
        let n = self.strings.len();
        let mut i: usize = 0;
        while i < n
            invariant
                i <= n == self.strings.len(),
                n < u32::MAX,
                self.strings@ == old(self).strings@,
                st@ == s@,
                forall|j: int| 0 <= j < i ==> self.pool()[j] != s@,
            decreases n - i,
        {
            if self.strings[i] == st {
                assert(self.pool()[i as int] == s@);
                assert(old(self).pool()[i as int] == s@);
                assert(old(self).pool().contains(s@));
                proof {
                    old(self).pool().index_of_first_ensures(s@);
                    let f = old(self).pool().index_of_first(s@)->0;
                    if f < i {
                        assert(self.pool()[f] != s@);
                    } else if f > i {
                        assert(old(self).pool()[i as int] != s@);
                    }
                }
                return i as StringId;
            }
            i = i + 1;
        }
        proof {
            if old(self).pool().contains(s@) {
                let k = choose|k: int| 0 <= k < old(self).pool().len() && old(self).pool()[k] == s@;
                assert(self.pool()[k] != s@);
            }
        }
        self.strings.push(st);
        assert(self.pool() =~= old(self).pool().push(s@));
        proof {
            old(self).pool().index_of_first_ensures(s@);
        }
        n as StringId
    }

    /// The struct definition whose name (looked up in the string pool) is
    /// `name`, with its index; the first such struct.
    pub fn find_struct(&self, name: &str) -> (r: Option<(usize, &StructDef)>)
        ensures
            r matches Some((i, d)) ==> i < self.structs@.len() && *d == self.structs@[i as int]
                && self.struct_named(i as int, name@) && forall|j: int|
                0 <= j < i ==> !self.struct_named(j, name@),
            r is None ==> forall|j: int|
                0 <= j < self.structs@.len() ==> !self.struct_named(j, name@),
    {
        let key = name.to_owned();
        let n = self.structs.len();
        let mut i: usize = 0;
        while i < n
            invariant
                i <= n == self.structs.len(),
                key@ == name@,
                forall|j: int| 0 <= j < i ==> !self.struct_named(j, name@),
            decreases n - i,
        {
            let sid = self.structs[i].name;
            if (sid as usize) < self.strings.len() && self.strings[sid as usize] == key {
                return Some((i, &self.structs[i]));
            }
            i = i + 1;
        }
        None
    }

    /// Whether struct `i` is named `name`.
    pub open spec fn struct_named(&self, i: int, name: Seq<char>) -> bool {
        let sid = self.structs@[i].name as int;
        sid < self.strings@.len() && self.pool()[sid] == name
    }

    /// The struct definition at index `sid`.
    pub fn get_struct(&self, sid: StructId) -> (r: Option<&StructDef>)
        ensures
            (sid as int) < self.structs@.len() ==> r == Some(&self.structs@[sid as int]),
            (sid as int) >= self.structs@.len() ==> r is None,
    {
        if (sid as usize) < self.structs.len() {
            Some(&self.structs[sid as usize])
        } else {
            None
        }
    }
}

/// Interning the same string again returns the same id and leaves the pool
/// unchanged; the id always names that string.
pub proof fn lemma_intern_idempotent(pool: Seq<Seq<char>>, s: Seq<char>, id: int)
    requires
        0 <= id < pool.len(),
        pool[id] == s,
        forall|j: int| 0 <= j < id ==> pool[j] != s,
    ensures
        pool.contains(s),
        forall|id2: int|
            0 <= id2 < pool.len() && pool[id2] == s && (forall|j: int|
                0 <= j < id2 ==> pool[j] != s) ==> id2 == id,
{
    assert(pool[id] == s);
}

} // verus!
