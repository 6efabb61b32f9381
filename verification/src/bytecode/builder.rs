//! `ModuleBuilder`: the interface through which compilers fill a module.
use vstd::prelude::*;

use crate::bytecode::le::le_bytes;
use crate::bytecode::module::{FuncRef, FunctionDef, StringId, UtenModule};
use crate::bytecode::writer::BytecodeWriter;
use crate::opcodes::Opcode;

verus! {

/// Builds the functions of a module: one bytecode writer for the function
/// being emitted, and the functions finished so far.
pub struct ModuleBuilder<'a> {
    pub module: &'a mut UtenModule,
    /// Bytecode of the function being emitted.
    pub writer: BytecodeWriter,
    /// Functions finished so far.
    pub functions: Vec<FunctionDef>,
}

/// `b` equals `a` except for its string pool.
pub open spec fn same_but_strings(a: UtenModule, b: UtenModule) -> bool {
    &&& b.magic == a.magic
    &&& b.version == a.version
    &&& b.bytecode_version == a.bytecode_version
    &&& b.header == a.header
    &&& b.constants == a.constants
    &&& b.functions == a.functions
    &&& b.structs == a.structs
    &&& b.globals == a.globals
    &&& b.exports == a.exports
    &&& b.imports == a.imports
    &&& b.exceptions == a.exceptions
}

impl<'a> ModuleBuilder<'a> {
    pub fn new(module: &'a mut UtenModule) -> (b: Self)
        ensures
            *b.module == *old(module),
            *final(module) == *final(b.module),
            b.writer@ == Seq::<u8>::empty(),
            b.functions@.len() == 0,
    {
        ModuleBuilder { module, writer: BytecodeWriter::new(), functions: Vec::new() }
    }

    /// Interns a string into the module's string pool.
    pub fn intern(&mut self, s: &str) -> (id: StringId)
        requires
            old(self).module.strings@.len() < u32::MAX,
        ensures
            id < final(self).module.strings@.len(),
            final(self).module.pool()[id as int] == s@,
            forall|j: int| 0 <= j < id ==> final(self).module.pool()[j] != s@,
            old(self).module.pool().contains(s@) ==> final(self).module.strings@ == old(
                self,
            ).module.strings@,
            !old(self).module.pool().contains(s@) ==> final(self).module.pool() == old(
                self,
            ).module.pool().push(s@) && id == old(self).module.strings@.len(),
            same_but_strings(*old(self).module, *final(self).module),
            final(self).writer@ == old(self).writer@,
            final(self).functions == old(self).functions,
    {
        self.module.intern(s)
    }

    /// Emits a single opcode byte.
    pub fn emit(&mut self, op: Opcode)
        ensures
            final(self).writer@ == old(self).writer@.push(op.byte()),
            *final(self).module == *old(self).module,
            final(self).functions == old(self).functions,
    {
        self.writer.emit(op);
    }

    /// Emits an opcode and a 16-bit operand.
    pub fn emit_op(&mut self, op: Opcode, operand: u16)
        ensures
            final(self).writer@ == old(self).writer@.push(op.byte()) + le_bytes(operand as nat, 2),
            *final(self).module == *old(self).module,
            final(self).functions == old(self).functions,
    {
        self.writer.emit_op(op, operand);
    }

    /// Emits a 16-bit signed value.
    pub fn emit_i16(&mut self, v: i16)
        ensures
            final(self).writer@ == old(self).writer@ + le_bytes((v as u16) as nat, 2),
            *final(self).module == *old(self).module,
            final(self).functions == old(self).functions,
    {
        self.writer.emit_i16(v);
    }

    /// Emits a 32-bit signed value.
    pub fn emit_i32(&mut self, v: i32)
        ensures
            final(self).writer@ == old(self).writer@ + le_bytes((v as u32) as nat, 4),
            *final(self).module == *old(self).module,
            final(self).functions == old(self).functions,
    {
        self.writer.emit_i32(v);
    }

    /// Emits a 64-bit signed value.
    pub fn emit_i64(&mut self, v: i64)
        ensures
            final(self).writer@ == old(self).writer@ + le_bytes((v as u64) as nat, 8),
            *final(self).module == *old(self).module,
            final(self).functions == old(self).functions,
    {
        self.writer.emit_i64(v);
    }

    /// Current bytecode length, for jump patching.
    pub fn writer_len(&self) -> (r: usize)
        ensures
            r == self.writer@.len(),
    {
        self.writer.len()
    }

    /// Overwrites the two bytes at `at` with `v`, little-endian (jump
    /// fix-ups).
    pub fn patch_i16(&mut self, at: usize, v: i16)
        requires
            at + 2 <= old(self).writer@.len(),
        ensures
            final(self).writer@ == old(self).writer@.subrange(0, at as int) + le_bytes(
                (v as u16) as nat,
                2,
            ) + old(self).writer@.subrange(at + 2, old(self).writer@.len() as int),
            *final(self).module == *old(self).module,
            final(self).functions == old(self).functions,
    {
        let _n = self.writer.len();
        let u = v as u16;
        let lo = (u % 256) as u8;
        let hi = (u / 256) as u8;
        let bytes = self.writer.bytes_mut();
        bytes.set(at, lo);
        bytes.set(at + 1, hi);
        proof {
            reveal_with_fuel(le_bytes, 3);
        }
        assert(self.writer@ =~= old(self).writer@.subrange(0, at as int) + le_bytes(
            (v as u16) as nat,
            2,
        ) + old(self).writer@.subrange(at + 2, old(self).writer@.len() as int));
    }

    /// Ends the current function: appends it, with the bytecode emitted
    /// since the last call, to the finished functions and starts an empty
    /// one. Returns its index.
    pub fn finish_function(&mut self, name: &str, n_locals: u16, n_params: u16) -> (fr: FuncRef)
        requires
            old(self).functions@.len() < u32::MAX,
        ensures
            fr == old(self).functions@.len(),
            final(self).functions@.len() == old(self).functions@.len() + 1,
            final(self).functions@.subrange(0, fr as int) == old(self).functions@,
            final(self).functions@[fr as int].name@ == name@,
            final(self).functions@[fr as int].bytecode@ == old(self).writer@,
            final(self).functions@[fr as int].n_locals == n_locals,
            final(self).functions@[fr as int].n_params == n_params,
            !final(self).functions@[fr as int].is_variadic,
            final(self).functions@[fr as int].n_captures == 0,
            final(self).functions@[fr as int].return_type is None,
            final(self).functions@[fr as int].param_types@.len() == 0,
            final(self).functions@[fr as int].hotness == 0,
            final(self).writer@ == Seq::<u8>::empty(),
            *final(self).module == *old(self).module,
    {
        let fr = self.functions.len() as FuncRef;
        let mut done = BytecodeWriter::new();
        core::mem::swap(&mut done, &mut self.writer);
        self.functions.push(
            FunctionDef {
                name: name.to_owned(),
                bytecode: done.into_bytes(),
                n_locals,
                n_params,
                is_variadic: false,
                n_captures: 0,
                return_type: None,
                param_types: Vec::new(),
                hotness: 0,
            },
        );
        assert(self.functions@.subrange(0, fr as int) =~= old(self).functions@);
        fr
    }

    /// Moves the finished functions into the module.
    pub fn finalize(&mut self)
        ensures
            final(self).module.functions@ == old(self).functions@,
            final(self).functions@.len() == 0,
            final(self).module.strings == old(self).module.strings,
            final(self).module.header == old(self).module.header,
            final(self).module.magic == old(self).module.magic,
            final(self).module.version == old(self).module.version,
            final(self).module.bytecode_version == old(self).module.bytecode_version,
            final(self).module.constants == old(self).module.constants,
            final(self).module.structs == old(self).module.structs,
            final(self).module.globals == old(self).module.globals,
            final(self).module.exports == old(self).module.exports,
            final(self).module.imports == old(self).module.imports,
            final(self).module.exceptions == old(self).module.exceptions,
            final(self).writer@ == old(self).writer@,
    {
        let mut fs: Vec<FunctionDef> = Vec::new();
        core::mem::swap(&mut fs, &mut self.functions);
        self.module.functions = fs;
    }

    /// Sets the source language in the module header.
    pub fn set_source_lang(&mut self, lang: &str)
        ensures
            final(self).module.header.source_lang@ == lang@,
            final(self).module.header.name == old(self).module.header.name,
            final(self).module.header.gc_strategy == old(self).module.header.gc_strategy,
            final(self).module.strings == old(self).module.strings,
            final(self).module.functions == old(self).module.functions,
            final(self).writer@ == old(self).writer@,
            final(self).functions == old(self).functions,
    {
        self.module.header.source_lang = lang.to_owned();
    }

    /// Sets the GC strategy in the module header.
    pub fn set_gc_strategy(&mut self, strategy: &str)
        ensures
            final(self).module.header.gc_strategy@ == strategy@,
            final(self).module.header.name == old(self).module.header.name,
            final(self).module.header.source_lang == old(self).module.header.source_lang,
            final(self).module.strings == old(self).module.strings,
            final(self).module.functions == old(self).module.functions,
            final(self).writer@ == old(self).writer@,
            final(self).functions == old(self).functions,
    {
        self.module.header.gc_strategy = strategy.to_owned();
    }

    /// The bytes of the function being emitted, for direct manipulation.
    pub fn writer_bytes_mut(&mut self) -> (r: &mut Vec<u8>)
        ensures
            r@ == old(self).writer@,
            final(self).writer@ == final(r)@,
            *final(self).module == *old(self).module,
            final(self).functions == old(self).functions,
    {
        self.writer.bytes_mut()
    }
}

} // verus!
