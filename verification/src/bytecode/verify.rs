//! Structural verification of modules and bytecode.
//!
//! `quick_verify` checks the tables of a module; `verify_module` also decodes
//! every function's bytecode, checks each operand against the table it
//! refers to and checks that every jump lands inside its function. Each
//! check reports the first failure, in the order in which the tables and
//! instructions are laid out.
use vstd::prelude::*;

use crate::bytecode::module::{
    ucch_magic, ucch_magic_bytes, uclib_magic, uclib_magic_bytes, ConstValue, ExportEntry,
    UtenModule, BYTECODE_VERSION,
};
use crate::opcodes::{opcode_info, Opcode};
use crate::text::{decimal, hex_min, hex_padded, u32_to_decimal, usize_to_decimal};

verus! {

/// Why a module failed verification.
#[derive(Clone, Copy, Debug)]
pub enum VerifyError {
    InvalidMagic { magic: [u8; 4] },
    VersionTooNew { version: u32 },
    ConstStringOutOfRange { index: usize, sid: u32 },
    EmptyFunctionBody { index: usize },
    ExcessiveCaptures { index: usize, captures: u16 },
    EmptyModuleName,
    ExportBadFunction { index: usize, func: u32 },
    ExportBadGlobal { index: usize, global: u32 },
    EmptyGlobalName { index: usize },
    ImportBadModuleName { index: usize, sid: u32 },
    ImportBadExportName { index: usize, sid: u32 },
    ExceptionBadFunction { index: usize, func: u32 },
    ExceptionEmptyRange { index: usize, try_start: u32, try_end: u32 },
    ExceptionEndPastCode { index: usize, try_end: u32, code_len: u32 },
    ExceptionHandlerPastCode { index: usize, handler_pc: u32, code_len: u32 },
    InvalidOpcode { func: usize, offset: usize, byte: u8 },
    TruncatedOperand { func: usize, offset: usize, op: Opcode },
    BadFunctionRef { func: usize, offset: usize, op: Opcode, target: u32 },
    BadStringRef { func: usize, offset: usize, op: Opcode, sid: u32 },
    BadConstRef { func: usize, offset: usize, index: u32 },
    BadGlobalRef { func: usize, offset: usize, index: u32 },
    JumpOutOfRange { func: usize, offset: usize, op: Opcode, jump: i16 },
}

/// Largest capture environment a function may declare.
pub const MAX_CAPTURES: u16 = 1024;

// ── Table checks ──

pub open spec fn magic_valid(m: UtenModule) -> bool {
    m.magic@ == uclib_magic() || m.magic@ == ucch_magic()
}

/// First constant at or after `i` that names a string outside the pool.
pub open spec fn constants_from(m: UtenModule, i: int) -> Result<(), VerifyError>
    decreases m.constants@.len() - i,
{
    if i < 0 || i >= m.constants@.len() {
        Ok(())
    } else {
        match m.constants@[i] {
            ConstValue::String(sid) if sid >= m.strings@.len() => Err(
                VerifyError::ConstStringOutOfRange { index: i as usize, sid },
            ),
            _ => constants_from(m, i + 1),
        }
    }
}

/// First function at or after `i` with an empty body (other than
/// `__init__`) or too many captures.
pub open spec fn functions_from(m: UtenModule, i: int) -> Result<(), VerifyError>
    decreases m.functions@.len() - i,
{
    if i < 0 || i >= m.functions@.len() {
        Ok(())
    } else {
        let f = m.functions@[i];
        if f.bytecode@.len() == 0 && f.name@ != "__init__"@ {
            Err(VerifyError::EmptyFunctionBody { index: i as usize })
        } else if f.n_captures > MAX_CAPTURES {
            Err(VerifyError::ExcessiveCaptures { index: i as usize, captures: f.n_captures })
        } else {
            functions_from(m, i + 1)
        }
    }
}

/// First export at or after `i` that names a missing function or global.
pub open spec fn exports_from(m: UtenModule, i: int) -> Result<(), VerifyError>
    decreases m.exports@.len() - i,
{
    if i < 0 || i >= m.exports@.len() {
        Ok(())
    } else {
        match m.exports@[i].1 {
            ExportEntry::Function(fr) if fr >= m.functions@.len() => Err(
                VerifyError::ExportBadFunction { index: i as usize, func: fr },
            ),
            ExportEntry::Global(g) if g >= m.globals@.len() => Err(
                VerifyError::ExportBadGlobal { index: i as usize, global: g },
            ),
            _ => exports_from(m, i + 1),
        }
    }
}

/// First global at or after `i` with an empty name.
pub open spec fn globals_from(m: UtenModule, i: int) -> Result<(), VerifyError>
    decreases m.globals@.len() - i,
{
    if i < 0 || i >= m.globals@.len() {
        Ok(())
    } else if m.globals@[i].name@.len() == 0 {
        Err(VerifyError::EmptyGlobalName { index: i as usize })
    } else {
        globals_from(m, i + 1)
    }
}

/// First import at or after `i` that names a string outside the pool.
pub open spec fn imports_from(m: UtenModule, i: int) -> Result<(), VerifyError>
    decreases m.imports@.len() - i,
{
    if i < 0 || i >= m.imports@.len() {
        Ok(())
    } else {
        let e = m.imports@[i];
        if e.module_name >= m.strings@.len() {
            Err(VerifyError::ImportBadModuleName { index: i as usize, sid: e.module_name })
        } else if e.export_name >= m.strings@.len() {
            Err(VerifyError::ImportBadExportName { index: i as usize, sid: e.export_name })
        } else {
            imports_from(m, i + 1)
        }
    }
}

/// Length of the bytecode of function `f`, as the exception checks see it.
pub open spec fn code_len_u32(m: UtenModule, f: int) -> u32 {
    m.functions@[f].bytecode@.len() as u32
}

/// First exception-table entry at or after `i` that is malformed.
pub open spec fn exceptions_from(m: UtenModule, i: int) -> Result<(), VerifyError>
    decreases m.exceptions@.len() - i,
{
    if i < 0 || i >= m.exceptions@.len() {
        Ok(())
    } else {
        let e = m.exceptions@[i];
        if e.func_index >= m.functions@.len() {
            Err(VerifyError::ExceptionBadFunction { index: i as usize, func: e.func_index })
        } else if e.try_start >= e.try_end {
            Err(
                VerifyError::ExceptionEmptyRange {
                    index: i as usize,
                    try_start: e.try_start,
                    try_end: e.try_end,
                },
            )
        } else if e.try_end > code_len_u32(m, e.func_index as int) {
            Err(
                VerifyError::ExceptionEndPastCode {
                    index: i as usize,
                    try_end: e.try_end,
                    code_len: code_len_u32(m, e.func_index as int),
                },
            )
        } else if e.handler_pc != 0 && e.handler_pc > code_len_u32(m, e.func_index as int) {
            Err(
                VerifyError::ExceptionHandlerPastCode {
                    index: i as usize,
                    handler_pc: e.handler_pc,
                    code_len: code_len_u32(m, e.func_index as int),
                },
            )
        } else {
            exceptions_from(m, i + 1)
        }
    }
}

/// The outcome of `quick_verify`.
pub open spec fn quick_check(m: UtenModule) -> Result<(), VerifyError> {
    if !magic_valid(m) {
        Err(VerifyError::InvalidMagic { magic: m.magic })
    } else if m.bytecode_version > BYTECODE_VERSION {
        Err(VerifyError::VersionTooNew { version: m.bytecode_version })
    } else if constants_from(m, 0) is Err {
        constants_from(m, 0)
    } else if functions_from(m, 0) is Err {
        functions_from(m, 0)
    } else if m.header.name@.len() == 0 {
        Err(VerifyError::EmptyModuleName)
    } else if exports_from(m, 0) is Err {
        exports_from(m, 0)
    } else if globals_from(m, 0) is Err {
        globals_from(m, 0)
    } else if imports_from(m, 0) is Err {
        imports_from(m, 0)
    } else {
        exceptions_from(m, 0)
    }
}

// ── Bytecode checks ──

/// The operand value the verifier reads for an instruction at `i` with an
/// operand of `size` bytes: 1, 2 and 4-byte operands little-endian, 8-byte
/// (immediate) operands are not checked and read as 0.
pub open spec fn verify_operand(code: Seq<u8>, i: int, size: nat) -> nat {
    if size == 1 {
        code[i + 1] as nat
    } else if size == 2 {
        code[i + 1] as nat + 256 * code[i + 2] as nat
    } else if size == 4 {
        code[i + 1] as nat + 256 * code[i + 2] as nat + 0x1_0000 * code[i + 3] as nat
            + 0x100_0000 * code[i + 4] as nat
    } else {
        0
    }
}

/// The string id an instruction's operand refers to. Bit 15 of the
/// operand of `ClassAddMethod` is its constructor flag, not part of the id.
pub open spec fn string_operand(op: Opcode, operand: nat) -> nat {
    if op == Opcode::ClassAddMethod {
        operand % 0x8000
    } else {
        operand
    }
}

/// First decoding or operand error in `code` (function `f`) at or after the
/// instruction that starts at `i`.
pub open spec fn decode_from(m: UtenModule, f: int, code: Seq<u8>, i: int) -> Result<
    (),
    VerifyError,
>
    decreases code.len() - i,
{
    if i < 0 || i >= code.len() {
        Ok(())
    } else {
        match Opcode::spec_from_byte(code[i]) {
            None => Err(VerifyError::InvalidOpcode { func: f as usize, offset: i as usize, byte: code[i] }),
            Some(op) => {
                let size = op.operand_size() as nat;
                let flags = op.flags();
                if i + 1 + size > code.len() {
                    Err(VerifyError::TruncatedOperand { func: f as usize, offset: i as usize, op })
                } else {
                    let operand = verify_operand(code, i, size);
                    if flags.has_func && operand >= m.functions@.len() {
                        Err(
                            VerifyError::BadFunctionRef {
                                func: f as usize,
                                offset: i as usize,
                                op,
                                target: operand as u32,
                            },
                        )
                    } else if flags.has_string && string_operand(op, operand) >= m.strings@.len() {
                        Err(
                            VerifyError::BadStringRef {
                                func: f as usize,
                                offset: i as usize,
                                op,
                                sid: string_operand(op, operand) as u32,
                            },
                        )
                    } else if flags.has_const && operand >= m.constants@.len() {
                        Err(
                            VerifyError::BadConstRef {
                                func: f as usize,
                                offset: i as usize,
                                index: operand as u32,
                            },
                        )
                    } else if flags.has_global && operand >= m.globals@.len()
                        && m.globals@.len() != 0 {
                        Err(
                            VerifyError::BadGlobalRef {
                                func: f as usize,
                                offset: i as usize,
                                index: operand as u32,
                            },
                        )
                    } else {
                        decode_from(m, f, code, i + 1 + size)
                    }
                }
            },
        }
    }
}

/// The signed offset of the jump whose opcode is at `i`.
pub open spec fn jump_offset(code: Seq<u8>, i: int) -> int {
    let u = code[i + 1] as int + 256 * code[i + 2] as int;
    if u >= 0x8000 {
        u - 0x1_0000
    } else {
        u
    }
}

/// Where the jump whose opcode is at `i` lands: offsets count from the end
/// of the three-byte jump instruction.
pub open spec fn jump_target(code: Seq<u8>, i: int) -> int {
    i + 3 + jump_offset(code, i)
}

/// First jump in `code` (function `f`), at or after the instruction that
/// starts at `i`, that lands outside the code.
pub open spec fn jumps_from(f: int, code: Seq<u8>, i: int) -> Result<(), VerifyError>
    decreases code.len() - i,
{
    if i < 0 || i >= code.len() {
        Ok(())
    } else {
        match Opcode::spec_from_byte(code[i]) {
            None => Ok(()),
            Some(op) => {
                let size = op.operand_size() as nat;
                if i + 1 + size > code.len() {
                    Ok(())
                } else if op.flags().is_jump && size >= 2 && !(0 <= jump_target(code, i) < code.len()) {
                    Err(
                        VerifyError::JumpOutOfRange {
                            func: f as usize,
                            offset: i as usize,
                            op,
                            jump: jump_offset(code, i) as i16,
                        },
                    )
                } else {
                    jumps_from(f, code, i + 1 + size)
                }
            },
        }
    }
}

/// First bytecode error of the functions from index `f` on.
pub open spec fn bytecode_from(m: UtenModule, f: int) -> Result<(), VerifyError>
    decreases m.functions@.len() - f,
{
    if f < 0 || f >= m.functions@.len() {
        Ok(())
    } else {
        let code = m.functions@[f].bytecode@;
        if code.len() == 0 {
            bytecode_from(m, f + 1)
        } else if decode_from(m, f, code, 0) is Err {
            decode_from(m, f, code, 0)
        } else if jumps_from(f, code, 0) is Err {
            jumps_from(f, code, 0)
        } else {
            bytecode_from(m, f + 1)
        }
    }
}

/// The outcome of `verify_module`.
pub open spec fn full_check(m: UtenModule) -> Result<(), VerifyError> {
    if quick_check(m) is Err {
        quick_check(m)
    } else {
        bytecode_from(m, 0)
    }
}

// ── Messages ──

/// The name of function `f` of `m` (empty where there is none).
pub open spec fn func_name(m: UtenModule, f: int) -> Seq<char> {
    if 0 <= f < m.functions@.len() {
        m.functions@[f].name@
    } else {
        Seq::empty()
    }
}

/// The code length of function `f` of `m` (0 where there is none).
pub open spec fn func_len(m: UtenModule, f: int) -> nat {
    if 0 <= f < m.functions@.len() {
        m.functions@[f].bytecode@.len()
    } else {
        0
    }
}

/// How a message about the code of function `f` begins.
pub open spec fn func_prefix(m: UtenModule, f: int) -> Seq<char> {
    "Func "@ + decimal(f as nat) + " '"@ + func_name(m, f) + "': "@
}

/// An offset in code, as `0x` and four hexadecimal digits at the least.
pub open spec fn offset_text(i: nat) -> Seq<char> {
    "0x"@ + hex_min(i, 4)
}

/// The message of a verification error about module `m`, as the
/// verifier words it.
pub open spec fn verify_error_text(e: VerifyError, m: UtenModule) -> Seq<char> {
    match e {
        VerifyError::InvalidMagic { magic } => "Invalid magic bytes: ["@ + hex_min(magic@[0] as nat, 2)
            + ", "@ + hex_min(magic@[1] as nat, 2) + ", "@ + hex_min(magic@[2] as nat, 2) + ", "@
            + hex_min(magic@[3] as nat, 2) + "]"@,
        VerifyError::VersionTooNew { version } => "Module bytecode version "@ + decimal(version as nat)
            + " exceeds VM bytecode version "@ + decimal(BYTECODE_VERSION as nat),
        VerifyError::ConstStringOutOfRange { index, sid } => "Constant "@ + decimal(index as nat)
            + " references out-of-bounds string id "@ + decimal(sid as nat),
        VerifyError::EmptyFunctionBody { index } => "Function "@ + decimal(index as nat) + " '"@
            + func_name(m, index as int) + "' has empty bytecode"@,
        VerifyError::ExcessiveCaptures { index, captures } => "Function "@ + decimal(index as nat)
            + " '"@ + func_name(m, index as int) + "' has excessive captures ("@ + decimal(
            captures as nat,
        ) + ")"@,
        VerifyError::EmptyModuleName => "Module has empty name"@,
        VerifyError::ExportBadFunction { index, func } => "Export '"@ + export_name(m, index as int)
            + "' references invalid function "@ + decimal(func as nat),
        VerifyError::ExportBadGlobal { index, global } => "Export '"@ + export_name(m, index as int)
            + "' references invalid global "@ + decimal(global as nat),
        VerifyError::EmptyGlobalName { index } => "Global "@ + decimal(index as nat) + " has empty name"@,
        VerifyError::ImportBadModuleName { index, sid } => "Import "@ + decimal(index as nat)
            + " references invalid module name string id "@ + decimal(sid as nat),
        VerifyError::ImportBadExportName { index, sid } => "Import "@ + decimal(index as nat)
            + " references invalid export name string id "@ + decimal(sid as nat),
        VerifyError::ExceptionBadFunction { index, func } => "Exception entry "@ + decimal(index as nat)
            + " references invalid function index "@ + decimal(func as nat),
        VerifyError::ExceptionEmptyRange { index, try_start, try_end } => "Exception entry "@ + decimal(
            index as nat,
        ) + ": try_start ("@ + decimal(try_start as nat) + ") >= try_end ("@ + decimal(try_end as nat)
            + ")"@,
        VerifyError::ExceptionEndPastCode { index, try_end, code_len } => "Exception entry "@
            + decimal(index as nat) + ": try_end ("@ + decimal(try_end as nat)
            + ") exceeds function bytecode length ("@ + decimal(code_len as nat) + ")"@,
        VerifyError::ExceptionHandlerPastCode { index, handler_pc, code_len } => "Exception entry "@
            + decimal(index as nat) + ": handler_pc ("@ + decimal(handler_pc as nat)
            + ") exceeds function bytecode length ("@ + decimal(code_len as nat) + ")"@,
        VerifyError::InvalidOpcode { func, offset, byte } => func_prefix(m, func as int)
            + "invalid opcode byte 0x"@ + hex_min(byte as nat, 2) + " at offset "@ + offset_text(
            offset as nat,
        ),
        VerifyError::TruncatedOperand { func, offset, op } => func_prefix(m, func as int) + "opcode "@
            + op.mnemonic()@ + " at offset "@ + offset_text(offset as nat) + " requires "@ + decimal(
            op.operand_size() as nat,
        ) + " operand bytes, only "@ + decimal(
            if offset < func_len(m, func as int) {
                (func_len(m, func as int) - offset - 1) as nat
            } else {
                0
            },
        ) + " remain"@,
        VerifyError::BadFunctionRef { func, offset, op, target } => func_prefix(m, func as int)
            + op.mnemonic()@ + " at offset "@ + offset_text(offset as nat)
            + " references invalid function "@ + decimal(target as nat) + " (max "@ + decimal(
            if m.functions@.len() > 0 {
                (m.functions@.len() - 1) as nat
            } else {
                usize::MAX as nat
            },
        ) + ")"@,
        VerifyError::BadStringRef { func, offset, op, sid } => func_prefix(m, func as int)
            + op.mnemonic()@ + " at offset "@ + offset_text(offset as nat)
            + " references invalid string id "@ + decimal(sid as nat) + " (pool size "@ + decimal(
            m.strings@.len(),
        ) + ")"@,
        VerifyError::BadConstRef { func, offset, index } => func_prefix(m, func as int)
            + "PushConst at offset "@ + offset_text(offset as nat)
            + " references invalid constant index "@ + decimal(index as nat) + " (pool size "@
            + decimal(m.constants@.len()) + ")"@,
        VerifyError::BadGlobalRef { func, offset, index } => func_prefix(m, func as int)
            + "global index "@ + decimal(index as nat) + " out of range (module has "@ + decimal(
            m.globals@.len(),
        ) + " globals)"@,
        VerifyError::JumpOutOfRange { func, offset, op, jump } => func_prefix(m, func as int)
            + op.mnemonic()@ + " at offset "@ + offset_text(offset as nat) + " jumps to 0x"@
            + hex_min(((offset + 3 + jump) as u64) as nat, 4) + ", outside bytecode [0, "@ + decimal(
            func_len(m, func as int),
        ) + ")"@,
    }
}

/// The name of export `i` of `m` (empty where there is none).
pub open spec fn export_name(m: UtenModule, i: int) -> Seq<char> {
    if 0 <= i < m.exports@.len() {
        m.exports@[i].0@
    } else {
        Seq::empty()
    }
}

fn func_name_text(m: &UtenModule, f: usize) -> (r: String)
    ensures
        r@ == func_name(*m, f as int),
{
    if f < m.functions.len() {
        m.functions[f].name.clone()
    } else {
        String::new()
    }
}

fn func_prefix_text(m: &UtenModule, f: usize) -> (r: String)
    ensures
        r@ == func_prefix(*m, f as int),
{
    proof {
        reveal_strlit("Func ");
        reveal_strlit(" '");
        reveal_strlit("': ");
    }
    let mut r = "Func ".to_owned();
    r.append(usize_to_decimal(f).as_str());
    r.append(" '");
    r.append(func_name_text(m, f).as_str());
    r.append("': ");
    r
}

fn offset_string(i: usize) -> (r: String)
    ensures
        r@ == offset_text(i as nat),
{
    proof {
        reveal_strlit("0x");
    }
    let mut r = "0x".to_owned();
    r.append(hex_padded(i as u64, 4).as_str());
    r
}

fn export_name_text(m: &UtenModule, i: usize) -> (r: String)
    ensures
        r@ == export_name(*m, i as int),
{
    if i < m.exports.len() {
        m.exports[i].0.clone()
    } else {
        String::new()
    }
}

/// Text `a`, a number, then text `b`.
fn around(a: &str, n: usize, b: &str) -> (r: String)
    ensures
        r@ == a@ + decimal(n as nat) + b@,
{
    let mut r = a.to_owned();
    r.append(usize_to_decimal(n).as_str());
    r.append(b);
    r
}

impl VerifyError {
    /// The message of this error about module `m`, as the verifier words
    /// it.
    #[verifier::rlimit(100)]
    #[verifier::spinoff_prover]
    pub fn to_text(&self, m: &UtenModule) -> (r: String)
        ensures
            r@ == verify_error_text(*self, *m),
    {
        proof {
            reveal_strlit("");
            reveal_strlit("Invalid magic bytes: [");
            reveal_strlit(", ");
            reveal_strlit("]");
            reveal_strlit("Module bytecode version ");
            reveal_strlit(" exceeds VM bytecode version ");
            reveal_strlit("Constant ");
            reveal_strlit(" references out-of-bounds string id ");
            reveal_strlit("Function ");
            reveal_strlit(" '");
            reveal_strlit("' has empty bytecode");
            reveal_strlit("' has excessive captures (");
            reveal_strlit(")");
            reveal_strlit("Module has empty name");
            reveal_strlit("Export '");
            reveal_strlit("' references invalid function ");
            reveal_strlit("' references invalid global ");
            reveal_strlit("Global ");
            reveal_strlit(" has empty name");
            reveal_strlit("Import ");
            reveal_strlit(" references invalid module name string id ");
            reveal_strlit(" references invalid export name string id ");
            reveal_strlit("Exception entry ");
            reveal_strlit(" references invalid function index ");
            reveal_strlit(": try_start (");
            reveal_strlit(") >= try_end (");
            reveal_strlit(": try_end (");
            reveal_strlit(") exceeds function bytecode length (");
            reveal_strlit(": handler_pc (");
            reveal_strlit("invalid opcode byte 0x");
            reveal_strlit(" at offset ");
            reveal_strlit("opcode ");
            reveal_strlit(" requires ");
            reveal_strlit(" operand bytes, only ");
            reveal_strlit(" remain");
            reveal_strlit(" references invalid function ");
            reveal_strlit(" (max ");
            reveal_strlit(" references invalid string id ");
            reveal_strlit(" (pool size ");
            reveal_strlit("PushConst at offset ");
            reveal_strlit(" references invalid constant index ");
            reveal_strlit("global index ");
            reveal_strlit(" out of range (module has ");
            reveal_strlit(" globals)");
            reveal_strlit(" jumps to 0x");
            reveal_strlit(", outside bytecode [0, ");
        }
        match self {
            VerifyError::InvalidMagic { magic } => {
                let mut r = "Invalid magic bytes: [".to_owned();
                r.append(hex_padded(magic[0] as u64, 2).as_str());
                r.append(", ");
                r.append(hex_padded(magic[1] as u64, 2).as_str());
                r.append(", ");
                r.append(hex_padded(magic[2] as u64, 2).as_str());
                r.append(", ");
                r.append(hex_padded(magic[3] as u64, 2).as_str());
                r.append("]");
                assert(r@ == verify_error_text(*self, *m));
                r
            },
            VerifyError::VersionTooNew { version } => {
                let mut r = around("Module bytecode version ", *version as usize, " exceeds VM bytecode version ");
                r.append(u32_to_decimal(BYTECODE_VERSION).as_str());
                assert(r@ == verify_error_text(*self, *m));
                r
            },
            VerifyError::ConstStringOutOfRange { index, sid } => {
                let mut r = around("Constant ", *index, " references out-of-bounds string id ");
                r.append(u32_to_decimal(*sid).as_str());
                assert(r@ == verify_error_text(*self, *m));
                r
            },
            VerifyError::EmptyFunctionBody { index } => {
                let mut r = around("Function ", *index, " '");
                r.append(func_name_text(m, *index).as_str());
                r.append("' has empty bytecode");
                assert(r@ == verify_error_text(*self, *m));
                r
            },
            VerifyError::ExcessiveCaptures { index, captures } => {
                let mut r = around("Function ", *index, " '");
                r.append(func_name_text(m, *index).as_str());
                r.append(around("' has excessive captures (", *captures as usize, ")").as_str());
                assert(r@ == verify_error_text(*self, *m));
                r
            },
            VerifyError::EmptyModuleName => "Module has empty name".to_owned(),
            VerifyError::ExportBadFunction { index, func } => {
                let mut r = "Export '".to_owned();
                r.append(export_name_text(m, *index).as_str());
                r.append("' references invalid function ");
                r.append(u32_to_decimal(*func).as_str());
                assert(r@ == verify_error_text(*self, *m));
                r
            },
            VerifyError::ExportBadGlobal { index, global } => {
                let mut r = "Export '".to_owned();
                r.append(export_name_text(m, *index).as_str());
                r.append("' references invalid global ");
                r.append(u32_to_decimal(*global).as_str());
                assert(r@ == verify_error_text(*self, *m));
                r
            },
            VerifyError::EmptyGlobalName { index } => around("Global ", *index, " has empty name"),
            VerifyError::ImportBadModuleName { index, sid } => {
                let mut r = around("Import ", *index, " references invalid module name string id ");
                r.append(u32_to_decimal(*sid).as_str());
                assert(r@ == verify_error_text(*self, *m));
                r
            },
            VerifyError::ImportBadExportName { index, sid } => {
                let mut r = around("Import ", *index, " references invalid export name string id ");
                r.append(u32_to_decimal(*sid).as_str());
                assert(r@ == verify_error_text(*self, *m));
                r
            },
            VerifyError::ExceptionBadFunction { index, func } => {
                let mut r = around("Exception entry ", *index, " references invalid function index ");
                r.append(u32_to_decimal(*func).as_str());
                assert(r@ == verify_error_text(*self, *m));
                r
            },
            VerifyError::ExceptionEmptyRange { index, try_start, try_end } => {
                let mut r = around("Exception entry ", *index, ": try_start (");
                r.append(around("", *try_start as usize, ") >= try_end (").as_str());
                r.append(around("", *try_end as usize, ")").as_str());
                assert(r@ == verify_error_text(*self, *m));
                r
            },
            VerifyError::ExceptionEndPastCode { index, try_end, code_len } => {
                let mut r = around("Exception entry ", *index, ": try_end (");
                r.append(around("", *try_end as usize, ") exceeds function bytecode length (").as_str());
                r.append(around("", *code_len as usize, ")").as_str());
                assert(r@ == verify_error_text(*self, *m));
                r
            },
            VerifyError::ExceptionHandlerPastCode { index, handler_pc, code_len } => {
                let mut r = around("Exception entry ", *index, ": handler_pc (");
                r.append(around("", *handler_pc as usize, ") exceeds function bytecode length (").as_str());
                r.append(around("", *code_len as usize, ")").as_str());
                assert(r@ == verify_error_text(*self, *m));
                r
            },
            VerifyError::InvalidOpcode { func, offset, byte } => {
                let mut r = func_prefix_text(m, *func);
                r.append("invalid opcode byte 0x");
                r.append(hex_padded(*byte as u64, 2).as_str());
                r.append(" at offset ");
                r.append(offset_string(*offset).as_str());
                assert(r@ == verify_error_text(*self, *m));
                r
            },
            VerifyError::TruncatedOperand { func, offset, op } => {
                let info = opcode_info(*op);
                let len = if *func < m.functions.len() {
                    m.functions[*func].bytecode.len()
                } else {
                    0
                };
                let remain = if *offset < len {
                    len - *offset - 1
                } else {
                    0
                };
                let mut r = func_prefix_text(m, *func);
                r.append("opcode ");
                r.append(info.mnemonic);
                r.append(" at offset ");
                r.append(offset_string(*offset).as_str());
                r.append(around(" requires ", info.operand_size as usize, " operand bytes, only ").as_str());
                r.append(around("", remain, " remain").as_str());
                assert(r@ == verify_error_text(*self, *m));
                r
            },
            VerifyError::BadFunctionRef { func, offset, op, target } => {
                let info = opcode_info(*op);
                let n = m.functions.len();
                let max = if n > 0 {
                    n - 1
                } else {
                    usize::MAX
                };
                let mut r = func_prefix_text(m, *func);
                r.append(info.mnemonic);
                r.append(" at offset ");
                r.append(offset_string(*offset).as_str());
                r.append(" references invalid function ");
                r.append(u32_to_decimal(*target).as_str());
                r.append(around(" (max ", max, ")").as_str());
                assert(r@ == verify_error_text(*self, *m));
                r
            },
            VerifyError::BadStringRef { func, offset, op, sid } => {
                let info = opcode_info(*op);
                let mut r = func_prefix_text(m, *func);
                r.append(info.mnemonic);
                r.append(" at offset ");
                r.append(offset_string(*offset).as_str());
                r.append(" references invalid string id ");
                r.append(u32_to_decimal(*sid).as_str());
                r.append(around(" (pool size ", m.strings.len(), ")").as_str());
                assert(r@ == verify_error_text(*self, *m));
                r
            },
            VerifyError::BadConstRef { func, offset, index } => {
                let mut r = func_prefix_text(m, *func);
                r.append("PushConst at offset ");
                r.append(offset_string(*offset).as_str());
                r.append(" references invalid constant index ");
                r.append(u32_to_decimal(*index).as_str());
                r.append(around(" (pool size ", m.constants.len(), ")").as_str());
                assert(r@ == verify_error_text(*self, *m));
                r
            },
            VerifyError::BadGlobalRef { func, offset, index } => {
                let mut r = func_prefix_text(m, *func);
                r.append("global index ");
                r.append(u32_to_decimal(*index).as_str());
                r.append(around(" out of range (module has ", m.globals.len(), " globals)").as_str());
                assert(r@ == verify_error_text(*self, *m));
                r
            },
            VerifyError::JumpOutOfRange { func, offset, op, jump } => {
                let info = opcode_info(*op);
                let len = if *func < m.functions.len() {
                    m.functions[*func].bytecode.len()
                } else {
                    0
                };
                let t: i128 = *offset as i128 + 3 + *jump as i128;
                let mut r = func_prefix_text(m, *func);
                r.append(info.mnemonic);
                r.append(" at offset ");
                r.append(offset_string(*offset).as_str());
                r.append(" jumps to 0x");
                r.append(hex_padded(t as u64, 4).as_str());
                r.append(around(", outside bytecode [0, ", len, ")").as_str());
                assert(r@ == verify_error_text(*self, *m));
                r
            },
        }
    }
}

// ── What a verified module guarantees ──

/// Whether the instructions of `code` from offset `i` on, each an opcode
/// byte followed by its operand, end exactly at the end of `code`, with
/// every opcode byte a known opcode and every function, string and
/// constant operand naming an entry of `m`.
pub open spec fn decodes_to_end(m: UtenModule, code: Seq<u8>, i: int) -> bool
    decreases code.len() - i,
{
    if i == code.len() {
        true
    } else if i < 0 || i > code.len() {
        false
    } else {
        match Opcode::spec_from_byte(code[i]) {
            None => false,
            Some(op) => {
                let size = op.operand_size() as nat;
                let operand = verify_operand(code, i, size);
                &&& i + 1 + size <= code.len()
                &&& op.flags().has_func ==> operand < m.functions@.len()
                &&& op.flags().has_string ==> string_operand(op, operand) < m.strings@.len()
                &&& op.flags().has_const ==> operand < m.constants@.len()
                &&& decodes_to_end(m, code, i + 1 + size)
            },
        }
    }
}

proof fn lemma_decode_ok_to_end(m: UtenModule, f: int, code: Seq<u8>, i: int)
    requires
        0 <= i <= code.len(),
        decode_from(m, f, code, i) is Ok,
    ensures
        decodes_to_end(m, code, i),
    decreases code.len() - i,
{
    if i < code.len() {
        let op = Opcode::spec_from_byte(code[i])->0;
        lemma_decode_ok_to_end(m, f, code, i + 1 + op.operand_size() as nat);
    }
}

proof fn lemma_bytecode_from_ok(m: UtenModule, g: int, f: int)
    requires
        0 <= g <= f < m.functions@.len(),
        bytecode_from(m, g) is Ok,
    ensures
        decodes_to_end(m, m.functions@[f].bytecode@, 0),
    decreases f - g,
{
    let code = m.functions@[g].bytecode@;
    if g < f {
        lemma_bytecode_from_ok(m, g + 1, f);
    } else if code.len() != 0 {
        lemma_decode_ok_to_end(m, g, code, 0);
    }
}

proof fn lemma_constants_ok(m: UtenModule, i: int, k: int)
    requires
        constants_from(m, i) is Ok,
        0 <= i <= k < m.constants@.len(),
    ensures
        m.constants@[k] matches ConstValue::String(sid) ==> sid < m.strings@.len(),
    decreases k - i,
{
    if i < k {
        lemma_constants_ok(m, i + 1, k);
    }
}

proof fn lemma_functions_ok(m: UtenModule, i: int, k: int)
    requires
        functions_from(m, i) is Ok,
        0 <= i <= k < m.functions@.len(),
    ensures
        m.functions@[k].bytecode@.len() > 0 || m.functions@[k].name@ == "__init__"@,
        m.functions@[k].n_captures <= MAX_CAPTURES,
    decreases k - i,
{
    if i < k {
        lemma_functions_ok(m, i + 1, k);
    }
}

proof fn lemma_exports_ok(m: UtenModule, i: int, k: int)
    requires
        exports_from(m, i) is Ok,
        0 <= i <= k < m.exports@.len(),
    ensures
        m.exports@[k].1 matches ExportEntry::Function(fr) ==> fr < m.functions@.len(),
        m.exports@[k].1 matches ExportEntry::Global(g) ==> g < m.globals@.len(),
    decreases k - i,
{
    if i < k {
        lemma_exports_ok(m, i + 1, k);
    }
}

proof fn lemma_globals_ok(m: UtenModule, i: int, k: int)
    requires
        globals_from(m, i) is Ok,
        0 <= i <= k < m.globals@.len(),
    ensures
        m.globals@[k].name@.len() > 0,
    decreases k - i,
{
    if i < k {
        lemma_globals_ok(m, i + 1, k);
    }
}

proof fn lemma_imports_ok(m: UtenModule, i: int, k: int)
    requires
        imports_from(m, i) is Ok,
        0 <= i <= k < m.imports@.len(),
    ensures
        m.imports@[k].module_name < m.strings@.len(),
        m.imports@[k].export_name < m.strings@.len(),
    decreases k - i,
{
    if i < k {
        lemma_imports_ok(m, i + 1, k);
    }
}

proof fn lemma_exceptions_ok(m: UtenModule, i: int, k: int)
    requires
        exceptions_from(m, i) is Ok,
        0 <= i <= k < m.exceptions@.len(),
    ensures
        ({
            let e = m.exceptions@[k];
            &&& e.func_index < m.functions@.len()
            &&& e.try_start < e.try_end
            &&& e.try_end <= (m.functions@[e.func_index as int].bytecode@.len() as u32)
            &&& e.handler_pc == 0 || e.handler_pc <= (m.functions@[e.func_index as int].bytecode@.len() as u32)
        }),
    decreases k - i,
{
    if i < k {
        lemma_exceptions_ok(m, i + 1, k);
    }
}

/// What the structural check guarantees of a module it accepts: known
/// magic bytes and a supported format version; string constants, imports
/// and exports that name existing entries; functions with code (but for
/// `__init__`) and at most `MAX_CAPTURES` captures; a named module; named
/// globals; and exception entries that name an existing function with a
/// non-empty protected range inside its code and a handler inside it (or
/// none).
pub proof fn lemma_checked_module_tables(m: UtenModule)
    requires
        quick_check(m) is Ok,
    ensures
        m.magic@ == uclib_magic() || m.magic@ == ucch_magic(),
        m.bytecode_version <= BYTECODE_VERSION,
        m.header.name@.len() > 0,
        forall|k: int|
            0 <= k < m.constants@.len() ==> (#[trigger] m.constants@[k] matches ConstValue::String(sid)
                ==> sid < m.strings@.len()),
        forall|k: int|
            0 <= k < m.functions@.len() ==> (#[trigger] m.functions@[k].bytecode@.len() > 0
                || m.functions@[k].name@ == "__init__"@) && m.functions@[k].n_captures <= MAX_CAPTURES,
        forall|k: int|
            0 <= k < m.exports@.len() ==> (#[trigger] m.exports@[k].1 matches ExportEntry::Function(fr)
                ==> fr < m.functions@.len()) && (m.exports@[k].1 matches ExportEntry::Global(g) ==> g
                < m.globals@.len()),
        forall|k: int| 0 <= k < m.globals@.len() ==> #[trigger] m.globals@[k].name@.len() > 0,
        forall|k: int|
            0 <= k < m.imports@.len() ==> #[trigger] m.imports@[k].module_name < m.strings@.len()
                && m.imports@[k].export_name < m.strings@.len(),
        forall|k: int|
            0 <= k < m.exceptions@.len() ==> {
                let e = #[trigger] m.exceptions@[k];
                &&& e.func_index < m.functions@.len()
                &&& e.try_start < e.try_end
                &&& e.try_end <= (m.functions@[e.func_index as int].bytecode@.len() as u32)
                &&& e.handler_pc == 0 || e.handler_pc <= (m.functions@[e.func_index as int].bytecode@.len() as u32)
            },
{
    assert forall|k: int| 0 <= k < m.constants@.len() implies (#[trigger] m.constants@[k] matches ConstValue::String(sid)
        ==> sid < m.strings@.len()) by {
        lemma_constants_ok(m, 0, k);
    }
    assert forall|k: int| 0 <= k < m.functions@.len() implies (#[trigger] m.functions@[k].bytecode@.len() > 0
        || m.functions@[k].name@ == "__init__"@) && m.functions@[k].n_captures <= MAX_CAPTURES by {
        lemma_functions_ok(m, 0, k);
    }
    assert forall|k: int| 0 <= k < m.exports@.len() implies (#[trigger] m.exports@[k].1 matches ExportEntry::Function(fr)
        ==> fr < m.functions@.len()) && (m.exports@[k].1 matches ExportEntry::Global(g) ==> g
        < m.globals@.len()) by {
        lemma_exports_ok(m, 0, k);
    }
    assert forall|k: int| 0 <= k < m.globals@.len() implies #[trigger] m.globals@[k].name@.len() > 0 by {
        lemma_globals_ok(m, 0, k);
    }
    assert forall|k: int| 0 <= k < m.imports@.len() implies #[trigger] m.imports@[k].module_name < m.strings@.len()
        && m.imports@[k].export_name < m.strings@.len() by {
        lemma_imports_ok(m, 0, k);
    }
    assert forall|k: int| 0 <= k < m.exceptions@.len() implies {
        let e = #[trigger] m.exceptions@[k];
        &&& e.func_index < m.functions@.len()
        &&& e.try_start < e.try_end
        &&& e.try_end <= (m.functions@[e.func_index as int].bytecode@.len() as u32)
        &&& e.handler_pc == 0 || e.handler_pc <= (m.functions@[e.func_index as int].bytecode@.len() as u32)
    } by {
        lemma_exceptions_ok(m, 0, k);
    }
}

/// Whether an instruction starts at offset `i` of `code`, walking from the
/// instruction at `j` over each opcode byte and its operand.
pub open spec fn starts_at(code: Seq<u8>, j: int, i: int) -> bool
    decreases code.len() - j,
{
    if j < 0 || j > i || j >= code.len() {
        false
    } else if j == i {
        true
    } else {
        match Opcode::spec_from_byte(code[j]) {
            None => false,
            Some(op) => j + 1 + op.operand_size() as nat <= code.len() && starts_at(
                code,
                j + 1 + op.operand_size() as nat,
                i,
            ),
        }
    }
}

proof fn lemma_bytecode_from_parts(m: UtenModule, g: int, f: int)
    requires
        0 <= g <= f < m.functions@.len(),
        bytecode_from(m, g) is Ok,
        m.functions@[f].bytecode@.len() != 0,
    ensures
        decode_from(m, f, m.functions@[f].bytecode@, 0) is Ok,
        jumps_from(f, m.functions@[f].bytecode@, 0) is Ok,
    decreases f - g,
{
    if g < f {
        lemma_bytecode_from_parts(m, g + 1, f);
    }
}

proof fn lemma_jumps_inside(m: UtenModule, f: int, code: Seq<u8>, j: int, i: int)
    requires
        decode_from(m, f, code, j) is Ok,
        jumps_from(f, code, j) is Ok,
        starts_at(code, j, i),
        Opcode::spec_from_byte(code[i]) matches Some(op) && op.flags().is_jump,
    ensures
        i + 2 < code.len(),
        0 <= i + 3 + (if code[i + 1] as int + 256 * code[i + 2] as int >= 0x8000 {
            code[i + 1] as int + 256 * code[i + 2] as int - 0x1_0000
        } else {
            code[i + 1] as int + 256 * code[i + 2] as int
        }) < code.len(),
    decreases code.len() - j,
{
    let op = Opcode::spec_from_byte(code[j])->0;
    crate::opcodes::lemma_operand_sizes(op);
    if j < i {
        lemma_jumps_inside(m, f, code, j + 1 + op.operand_size() as nat, i);
    }
}

/// In a module that passes the full check, every jump lands inside its
/// function: for a jump instruction at offset `i` of a function's code,
/// its two operand bytes are there, and the target — the end of the
/// three-byte instruction plus the signed 16-bit offset they hold,
/// little-endian — is at least 0 and below the code's length.
pub proof fn lemma_verified_jumps_land_inside(m: UtenModule, f: int, i: int)
    requires
        full_check(m) is Ok,
        0 <= f < m.functions@.len(),
        starts_at(m.functions@[f].bytecode@, 0, i),
        Opcode::spec_from_byte(m.functions@[f].bytecode@[i]) matches Some(op) && op.flags().is_jump,
    ensures
        i + 2 < m.functions@[f].bytecode@.len(),
        ({
            let code = m.functions@[f].bytecode@;
            let u = code[i + 1] as int + 256 * code[i + 2] as int;
            let offset = if u >= 0x8000 {
                u - 0x1_0000
            } else {
                u
            };
            0 <= i + 3 + offset < code.len()
        }),
{
    let code = m.functions@[f].bytecode@;
    lemma_bytecode_from_parts(m, 0, f);
    lemma_jumps_inside(m, f, code, 0, i);
}

/// A module that passes the full check passes the structural check, and
/// the code of each of its functions decodes, instruction by instruction,
/// to exactly its end: every opcode byte is a known opcode and every
/// function, string and constant operand names an entry of the module.
pub proof fn lemma_verified_module_decodes(m: UtenModule, f: int)
    requires
        full_check(m) is Ok,
        0 <= f < m.functions@.len(),
    ensures
        quick_check(m) is Ok,
        decodes_to_end(m, m.functions@[f].bytecode@, 0),
{
    lemma_bytecode_from_ok(m, 0, f);
}

// ── Executable checks ──

fn magic_is(a: &[u8; 4], b: &[u8; 4]) -> (r: bool)
    ensures
        r == (a@ == b@),
{
    let r = a[0] == b[0] && a[1] == b[1] && a[2] == b[2] && a[3] == b[3];
    if r {
        assert(a@ =~= b@);
    }
    r
}

/// Structural verification of a module's tables: magic bytes, bytecode
/// version, constants, functions, name, exports, globals, imports and the
/// exception table.
#[verifier::loop_isolation(false)]
pub fn quick_verify(module: &UtenModule) -> (r: Result<(), VerifyError>)
    ensures
        r == quick_check(*module),
{
    let m = module;
    let lib = uclib_magic_bytes();
    let cache = ucch_magic_bytes();
    if !magic_is(&m.magic, &lib) && !magic_is(&m.magic, &cache) {
        return Err(VerifyError::InvalidMagic { magic: m.magic });
    }
    if m.bytecode_version > BYTECODE_VERSION {
        return Err(VerifyError::VersionTooNew { version: m.bytecode_version });
    }
    let n_strings = m.strings.len();
    let n_funcs = m.functions.len();

    let mut i: usize = 0;
    while i < m.constants.len()
        invariant
            i <= m.constants@.len(),
            n_strings == m.strings@.len(),
            constants_from(*m, 0) == constants_from(*m, i as int),
        decreases m.constants@.len() - i,
    {
        if let ConstValue::String(sid) = m.constants[i] {
            if sid as usize >= n_strings {
                return Err(VerifyError::ConstStringOutOfRange { index: i, sid });
            }
        }
        i = i + 1;
    }

    let init_name = "__init__".to_owned();
    let mut i: usize = 0;
    while i < n_funcs
        invariant
            i <= n_funcs == m.functions@.len(),
            init_name@ == "__init__"@,
            constants_from(*m, 0) is Ok,
            functions_from(*m, 0) == functions_from(*m, i as int),
        decreases n_funcs - i,
    {
        let f = &m.functions[i];
        if f.bytecode.len() == 0 && !(f.name == init_name) {
            return Err(VerifyError::EmptyFunctionBody { index: i });
        }
        if f.n_captures > MAX_CAPTURES {
            return Err(VerifyError::ExcessiveCaptures { index: i, captures: f.n_captures });
        }
        i = i + 1;
    }

    if m.header.name.as_str().is_empty() {
        return Err(VerifyError::EmptyModuleName);
    }

    let mut i: usize = 0;
    while i < m.exports.len()
        invariant
            i <= m.exports@.len(),
            n_funcs == m.functions@.len(),
            constants_from(*m, 0) is Ok,
            functions_from(*m, 0) is Ok,
            exports_from(*m, 0) == exports_from(*m, i as int),
        decreases m.exports@.len() - i,
    {
        match &m.exports[i].1 {
            ExportEntry::Function(fr) => {
                if *fr as usize >= n_funcs {
                    return Err(VerifyError::ExportBadFunction { index: i, func: *fr });
                }
            },
            ExportEntry::Global(g) => {
                if *g as usize >= m.globals.len() {
                    return Err(VerifyError::ExportBadGlobal { index: i, global: *g });
                }
            },
            ExportEntry::Type(_) => {},
        }
        i = i + 1;
    }

    let mut i: usize = 0;
    while i < m.globals.len()
        invariant
            i <= m.globals@.len(),
            constants_from(*m, 0) is Ok,
            functions_from(*m, 0) is Ok,
            exports_from(*m, 0) is Ok,
            globals_from(*m, 0) == globals_from(*m, i as int),
        decreases m.globals@.len() - i,
    {
        if m.globals[i].name.as_str().is_empty() {
            return Err(VerifyError::EmptyGlobalName { index: i });
        }
        i = i + 1;
    }

    let mut i: usize = 0;
    while i < m.imports.len()
        invariant
            i <= m.imports@.len(),
            n_strings == m.strings@.len(),
            constants_from(*m, 0) is Ok,
            functions_from(*m, 0) is Ok,
            exports_from(*m, 0) is Ok,
            globals_from(*m, 0) is Ok,
            imports_from(*m, 0) == imports_from(*m, i as int),
        decreases m.imports@.len() - i,
    {
        let imp = m.imports[i];
        if imp.module_name as usize >= n_strings {
            return Err(VerifyError::ImportBadModuleName { index: i, sid: imp.module_name });
        }
        if imp.export_name as usize >= n_strings {
            return Err(VerifyError::ImportBadExportName { index: i, sid: imp.export_name });
        }
        i = i + 1;
    }

    let mut i: usize = 0;
    while i < m.exceptions.len()
        invariant
            i <= m.exceptions@.len(),
            n_funcs == m.functions@.len(),
            constants_from(*m, 0) is Ok,
            functions_from(*m, 0) is Ok,
            exports_from(*m, 0) is Ok,
            globals_from(*m, 0) is Ok,
            imports_from(*m, 0) is Ok,
            exceptions_from(*m, 0) == exceptions_from(*m, i as int),
        decreases m.exceptions@.len() - i,
    {
        let e = m.exceptions[i];
        if e.func_index as usize >= n_funcs {
            return Err(VerifyError::ExceptionBadFunction { index: i, func: e.func_index });
        }
        if e.try_start >= e.try_end {
            return Err(
                VerifyError::ExceptionEmptyRange {
                    index: i,
                    try_start: e.try_start,
                    try_end: e.try_end,
                },
            );
        }
        let func_len = m.functions[e.func_index as usize].bytecode.len() as u32;
        if e.try_end > func_len {
            return Err(
                VerifyError::ExceptionEndPastCode {
                    index: i,
                    try_end: e.try_end,
                    code_len: func_len,
                },
            );
        }
        if e.handler_pc != 0 && e.handler_pc > func_len {
            return Err(
                VerifyError::ExceptionHandlerPastCode {
                    index: i,
                    handler_pc: e.handler_pc,
                    code_len: func_len,
                },
            );
        }
        i = i + 1;
    }
    Ok(())
}

/// The operand of the instruction at `i`, as the verifier reads it.
fn read_operand(code: &Vec<u8>, i: usize, size: usize) -> (r: u32)
    requires
        i + 1 + size <= code@.len(),
    ensures
        r as nat == verify_operand(code@, i as int, size as nat),
{
    let _len = code.len();
    if size == 1 {
        code[i + 1] as u32
    } else if size == 2 {
        code[i + 1] as u32 + 256 * (code[i + 2] as u32)
    } else if size == 4 {
        code[i + 1] as u32 + 256 * (code[i + 2] as u32) + 0x1_0000 * (code[i + 3] as u32)
            + 0x100_0000 * (code[i + 4] as u32)
    } else {
        0
    }
}

/// Decodes every instruction of function `f` and checks its operand.
#[verifier::loop_isolation(false)]
fn decode_function(m: &UtenModule, f: usize) -> (r: Result<(), VerifyError>)
    requires
        f < m.functions@.len(),
    ensures
        r == decode_from(*m, f as int, m.functions@[f as int].bytecode@, 0),
{
    let code = &m.functions[f].bytecode;
    let len = code.len();
    let n_funcs = m.functions.len();
    let n_strings = m.strings.len();
    let n_consts = m.constants.len();
    let n_globals = m.globals.len();
    let mut i: usize = 0;
    while i < len
        invariant
            i <= len,
            decode_from(*m, f as int, code@, 0) == decode_from(*m, f as int, code@, i as int),
        decreases len - i,
    {
        let byte = code[i];
        let op = match Opcode::from_byte(byte) {
            Some(op) => op,
            None => {
                return Err(VerifyError::InvalidOpcode { func: f, offset: i, byte });
            },
        };
        let info = opcode_info(op);
        let size = info.operand_size as usize;
        proof {
            crate::opcodes::lemma_operand_sizes(op);
        }
        if size + 1 > len - i {
            return Err(VerifyError::TruncatedOperand { func: f, offset: i, op });
        }
        let operand = read_operand(code, i, size);
        if info.flags.has_func && operand as usize >= n_funcs {
            return Err(VerifyError::BadFunctionRef { func: f, offset: i, op, target: operand });
        }
        if info.flags.has_string {
            let sid = if op == Opcode::ClassAddMethod {
                operand % 0x8000
            } else {
                operand
            };
            if sid as usize >= n_strings {
                return Err(VerifyError::BadStringRef { func: f, offset: i, op, sid });
            }
        }
        if info.flags.has_const && operand as usize >= n_consts {
            return Err(VerifyError::BadConstRef { func: f, offset: i, index: operand });
        }
        if info.flags.has_global && operand as usize >= n_globals && n_globals != 0 {
            return Err(VerifyError::BadGlobalRef { func: f, offset: i, index: operand });
        }
        i = i + 1 + size;
    }
    Ok(())
}

/// Checks that every jump of `code` (function `f`) lands inside `code`.
#[verifier::loop_isolation(false)]
fn check_jumps(f: usize, code: &Vec<u8>) -> (r: Result<(), VerifyError>)
    ensures
        r == jumps_from(f as int, code@, 0),
{
    let len = code.len();
    let mut i: usize = 0;
    while i < len
        invariant
            i <= len,
            jumps_from(f as int, code@, 0) == jumps_from(f as int, code@, i as int),
        decreases len - i,
    {
        let op = match Opcode::from_byte(code[i]) {
            Some(op) => op,
            None => {
                return Ok(());
            },
        };
        let info = opcode_info(op);
        let size = info.operand_size as usize;
        proof {
            crate::opcodes::lemma_operand_sizes(op);
        }
        if size + 1 > len - i {
            return Ok(());
        }
        if info.flags.is_jump && size >= 2 {
            let u: u16 = code[i + 1] as u16 + 256 * (code[i + 2] as u16);
            let jump = u as i16;
            proof {
                assert((u as i16) as int == (if u >= 0x8000 { u - 0x1_0000 } else { u as int }))
                    by (bit_vector);
            }
            let end = i + 3;
            let outside = if jump >= 0 {
                jump as usize >= len - end
            } else {
                let back = (-(jump as i32)) as usize;
                back > end || end - back >= len
            };
            if outside {
                return Err(VerifyError::JumpOutOfRange { func: f, offset: i, op, jump });
            }
        }
        i = i + 1 + size;
    }
    Ok(())
}

/// Full verification: `quick_verify`, then, for every function with a
/// non-empty body, decoding of all instructions with operand checks, then
/// a check that every jump lands inside the function.
#[verifier::loop_isolation(false)]
pub fn verify_module(module: &UtenModule) -> (r: Result<(), VerifyError>)
    ensures
        r == full_check(*module),
{
    match quick_verify(module) {
        Err(e) => {
            return Err(e);
        },
        Ok(()) => {},
    }
    let n = module.functions.len();
    let mut f: usize = 0;
    while f < n
        invariant
            f <= n == module.functions@.len(),
            quick_check(*module) is Ok,
            bytecode_from(*module, 0) == bytecode_from(*module, f as int),
        decreases n - f,
    {
        if module.functions[f].bytecode.len() != 0 {
            match decode_function(module, f) {
                Err(e) => {
                    return Err(e);
                },
                Ok(()) => {},
            }
            match check_jumps(f, &module.functions[f].bytecode) {
                Err(e) => {
                    return Err(e);
                },
                Ok(()) => {},
            }
        }
        f = f + 1;
    }
    Ok(())
}

/// A module that passes full verification passes the quick check.
pub proof fn lemma_verified_is_quick_verified(m: UtenModule)
    requires
        full_check(m) is Ok,
    ensures
        quick_check(m) is Ok,
{
}

} // verus!
