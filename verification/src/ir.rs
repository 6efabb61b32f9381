//! The intermediate representation: functions as control-flow graphs of
//! basic blocks of three-address instructions, and their lowering to
//! bytecode.
use vstd::prelude::*;

use crate::bytecode::le::le_bytes;
use crate::bytecode::module::{
    default_header, intern_all, uclib_magic, FuncRef, FunctionDef, LineEntry, StringId, UtenModule,
    VmVersion, BYTECODE_VERSION,
};
use crate::bytecode::writer::BytecodeWriter;
use crate::names::string_views;
use crate::opcodes::{byte_binary, byte_compare, byte_unary, Opcode};

verus! {

/// An IR program: functions with their control-flow graphs.
#[derive(Clone, Debug)]
pub struct IrProgram {
    pub version: u8,
    pub functions: Vec<IrFunction>,
    pub strings: Vec<String>,
    pub name: String,
}

/// A function in IR form.
#[derive(Clone, Debug)]
pub struct IrFunction {
    pub name: String,
    pub params: Vec<IrParam>,
    pub return_type: Option<String>,
    pub blocks: Vec<IrBlock>,
    pub n_locals: u16,
    pub is_variadic: bool,
}

/// A function parameter.
#[derive(Clone, Debug)]
pub struct IrParam {
    pub name: String,
    pub type_hint: Option<String>,
}

/// A basic block.
#[derive(Clone, Debug)]
pub struct IrBlock {
    pub name: String,
    pub instructions: Vec<IrInst>,
    pub terminator: IrTerminator,
    /// Phi nodes, in SSA form.
    pub phis: Vec<IrPhi>,
}

/// A block terminator.
#[derive(Clone, Debug)]
pub enum IrTerminator {
    Fallthrough,
    Jump(String),
    Branch { cond: IrValue, true_block: String, false_block: String },
    Return(Option<IrValue>),
    Halt,
}

/// A phi node.
#[derive(Clone, Debug)]
pub struct IrPhi {
    pub dest: IrValue,
    pub incoming: Vec<(IrValue, String)>,
}

/// An IR value reference.
#[derive(Clone, Debug)]
pub enum IrValue {
    VReg(u32),
    Local(u16),
    Const(IrConst),
    Param(u16),
}

/// An IR constant. Floating-point constants are held as their IEEE-754 bit
/// patterns.
#[derive(Clone, Copy, Debug, PartialEq, Eq, Structural)]
pub enum IrConst {
    Nil,
    Bool(bool),
    I32(i32),
    I64(i64),
    F32(u32),
    F64(u64),
    Str(StringId),
}

/// An IR instruction (three-address style). Floating-point constants are
/// held as their IEEE-754 bit patterns.
#[derive(Clone, Debug)]
pub enum IrInst {
    ConstNil,
    ConstBool(bool),
    ConstI32(i32),
    ConstI64(i64),
    ConstF32(u32),
    ConstF64(u64),
    ConstStr(StringId),
    Copy { dest: IrValue, src: IrValue },
    LoadLocal { dest: IrValue, idx: u16 },
    StoreLocal { val: IrValue, idx: u16 },
    LoadCapture { dest: IrValue, idx: u16 },
    StoreCapture { val: IrValue, idx: u16 },
    LoadGlobal { dest: IrValue, idx: u16 },
    StoreGlobal { val: IrValue, idx: u16 },
    Add { dest: IrValue, left: IrValue, right: IrValue },
    Sub { dest: IrValue, left: IrValue, right: IrValue },
    Mul { dest: IrValue, left: IrValue, right: IrValue },
    Div { dest: IrValue, left: IrValue, right: IrValue },
    Mod { dest: IrValue, left: IrValue, right: IrValue },
    Neg { dest: IrValue, val: IrValue },
    FAdd { dest: IrValue, left: IrValue, right: IrValue },
    FSub { dest: IrValue, left: IrValue, right: IrValue },
    FMul { dest: IrValue, left: IrValue, right: IrValue },
    FDiv { dest: IrValue, left: IrValue, right: IrValue },
    Pow { dest: IrValue, base: IrValue, exp: IrValue },
    BitAnd { dest: IrValue, left: IrValue, right: IrValue },
    BitOr { dest: IrValue, left: IrValue, right: IrValue },
    BitXor { dest: IrValue, left: IrValue, right: IrValue },
    BitNot { dest: IrValue, val: IrValue },
    Shl { dest: IrValue, left: IrValue, right: IrValue },
    Shr { dest: IrValue, left: IrValue, right: IrValue },
    Eq { dest: IrValue, left: IrValue, right: IrValue },
    Ne { dest: IrValue, left: IrValue, right: IrValue },
    Lt { dest: IrValue, left: IrValue, right: IrValue },
    Le { dest: IrValue, left: IrValue, right: IrValue },
    Gt { dest: IrValue, left: IrValue, right: IrValue },
    Ge { dest: IrValue, left: IrValue, right: IrValue },
    ToI32 { dest: IrValue, val: IrValue },
    ToI64 { dest: IrValue, val: IrValue },
    ToF32 { dest: IrValue, val: IrValue },
    ToF64 { dest: IrValue, val: IrValue },
    ToBool { dest: IrValue, val: IrValue },
    TypeOf { dest: IrValue, val: IrValue },
    NewArray { dest: IrValue, elements: Vec<IrValue> },
    ArrayLen { dest: IrValue, arr: IrValue },
    ArrayGet { dest: IrValue, arr: IrValue, idx: IrValue },
    ArraySet { arr: IrValue, idx: IrValue, val: IrValue },
    ArrayPush { arr: IrValue, val: IrValue },
    ArrayPop { dest: IrValue, arr: IrValue },
    ArraySlice { dest: IrValue, arr: IrValue, start: IrValue, end: IrValue },
    NewMap { dest: IrValue },
    MapGet { dest: IrValue, map: IrValue, key: IrValue },
    MapSet { map: IrValue, key: IrValue, val: IrValue },
    MapDel { map: IrValue, key: IrValue },
    GetField { dest: IrValue, obj: IrValue, field: StringId },
    SetField { obj: IrValue, field: StringId, val: IrValue },
    StrConcat { dest: IrValue, left: IrValue, right: IrValue },
    StrLen { dest: IrValue, val: IrValue },
    StrSub { dest: IrValue, val: IrValue, start: IrValue, end: IrValue },
    Call { dest: IrValue, func: FuncRef, args: Vec<IrValue> },
    CallValue { dest: IrValue, func: IrValue, args: Vec<IrValue> },
    MakeClosure { dest: IrValue, func: FuncRef, captures: Vec<IrValue> },
    Invoke { dest: IrValue, obj: IrValue, method: StringId, args: Vec<IrValue> },
    CibLoad { dest: IrValue, lib_name: StringId },
    CibSym { dest: IrValue, sym_name: StringId },
    CibCall { dest: IrValue, func: IrValue, args: Vec<IrValue> },
    Import { dest: IrValue, module: StringId },
    ImportFunc { dest: IrValue, module: StringId, name: StringId },
    Export { name: StringId, val: IrValue },
    Print { val: IrValue },
    Line { line: u32 },
    Debug { msg: String },
}

/// What an integer IR instruction computes from its two operands `a`
/// (left) and `b` (right): sum, difference, product, and for `a >= 0`,
/// `b > 0` quotient and remainder. `None` for other instructions.
pub open spec fn ir_int_binary(inst: IrInst, a: int, b: int) -> Option<int> {
    match inst {
        IrInst::Add { .. } => Some(a + b),
        IrInst::Sub { .. } => Some(a - b),
        IrInst::Mul { .. } => Some(a * b),
        IrInst::Div { .. } => if a >= 0 && b > 0 {
            Some(a / b)
        } else {
            None
        },
        IrInst::Mod { .. } => if a >= 0 && b > 0 {
            Some(a % b)
        } else {
            None
        },
        _ => None,
    }
}

/// What a comparison IR instruction decides of its two integer operands.
pub open spec fn ir_int_compare(inst: IrInst, a: int, b: int) -> Option<bool> {
    match inst {
        IrInst::Eq { .. } => Some(a == b),
        IrInst::Ne { .. } => Some(a != b),
        IrInst::Lt { .. } => Some(a < b),
        IrInst::Le { .. } => Some(a <= b),
        IrInst::Gt { .. } => Some(a > b),
        IrInst::Ge { .. } => Some(a >= b),
        _ => None,
    }
}

/// What a unary integer IR instruction computes: negation, complement.
pub open spec fn ir_int_unary(inst: IrInst, a: int) -> Option<int> {
    match inst {
        IrInst::Neg { .. } => Some(-a),
        IrInst::BitNot { .. } => Some(-a - 1),
        _ => None,
    }
}

/// An arithmetic IR instruction lowers to one opcode that computes of any
/// two integers what the instruction computes.
pub proof fn lemma_arithmetic_lowers_faithfully(inst: IrInst, a: int, b: int)
    requires
        ir_int_binary(inst, a, b) is Some,
    ensures
        inst_code(inst).len() == 1,
        byte_binary(inst_code(inst)[0], a, b) == ir_int_binary(inst, a, b),
{
    crate::opcodes::lemma_decode_encode(Opcode::Add);
    crate::opcodes::lemma_decode_encode(Opcode::Sub);
    crate::opcodes::lemma_decode_encode(Opcode::Mul);
    crate::opcodes::lemma_decode_encode(Opcode::Div);
    crate::opcodes::lemma_decode_encode(Opcode::Mod);
}

/// A comparison IR instruction lowers to one opcode that decides of any
/// two integers what the instruction decides.
pub proof fn lemma_comparison_lowers_faithfully(inst: IrInst, a: int, b: int)
    requires
        ir_int_compare(inst, a, b) is Some,
    ensures
        inst_code(inst).len() == 1,
        byte_compare(inst_code(inst)[0], a, b) == ir_int_compare(inst, a, b),
{
    crate::opcodes::lemma_decode_encode(Opcode::Eq);
    crate::opcodes::lemma_decode_encode(Opcode::Ne);
    crate::opcodes::lemma_decode_encode(Opcode::Lt);
    crate::opcodes::lemma_decode_encode(Opcode::Le);
    crate::opcodes::lemma_decode_encode(Opcode::Gt);
    crate::opcodes::lemma_decode_encode(Opcode::Ge);
}

/// A unary integer IR instruction lowers to one opcode that computes of
/// any integer what the instruction computes.
pub proof fn lemma_unary_lowers_faithfully(inst: IrInst, a: int)
    requires
        ir_int_unary(inst, a) is Some,
    ensures
        inst_code(inst).len() == 1,
        byte_unary(inst_code(inst)[0], a) == ir_int_unary(inst, a),
{
    crate::opcodes::lemma_decode_encode(Opcode::Neg);
    crate::opcodes::lemma_decode_encode(Opcode::BitNot);
}

/// Distinct arithmetic IR instructions lower to distinct opcodes.
pub proof fn lemma_arithmetic_opcodes_distinct(i1: IrInst, i2: IrInst)
    requires
        ir_int_binary(i1, 1, 1) is Some,
        ir_int_binary(i2, 1, 1) is Some,
        inst_code(i1) == inst_code(i2),
    ensures
        i1 is Add <==> i2 is Add,
        i1 is Sub <==> i2 is Sub,
        i1 is Mul <==> i2 is Mul,
        i1 is Div <==> i2 is Div,
        i1 is Mod <==> i2 is Mod,
{
    lemma_arithmetic_lowers_faithfully(i1, 1, 1);
    lemma_arithmetic_lowers_faithfully(i2, 1, 1);
    lemma_arithmetic_lowers_faithfully(i1, 2, 1);
    lemma_arithmetic_lowers_faithfully(i2, 2, 1);
    lemma_arithmetic_lowers_faithfully(i1, 3, 2);
    lemma_arithmetic_lowers_faithfully(i2, 3, 2);
}

/// The bytes `ir_inst_to_bytecode` emits for an instruction.
pub open spec fn inst_code(inst: IrInst) -> Seq<u8> {
    match inst {
        IrInst::ConstNil => seq![Opcode::PushNil.byte()],
        IrInst::ConstBool(b) => if b { seq![Opcode::PushTrue.byte()] } else { seq![Opcode::PushFalse.byte()] },
        IrInst::ConstI32(v) => seq![Opcode::PushI32.byte()] + le_bytes((v as u32) as nat, 4),
        IrInst::ConstI64(v) => seq![Opcode::PushI64.byte()] + le_bytes((v as u64) as nat, 8),
        IrInst::ConstF32(bits) => seq![Opcode::PushF32.byte()] + le_bytes(bits as nat, 4),
        IrInst::ConstF64(bits) => seq![Opcode::PushF64.byte()] + le_bytes(bits as nat, 8),
        IrInst::ConstStr(v) => op16(Opcode::PushString, v as u16),
        IrInst::Copy { .. } => seq![Opcode::Dup.byte()],
        IrInst::LoadLocal { idx, .. } => op16(Opcode::LoadLocal, idx),
        IrInst::StoreLocal { idx, .. } => op16(Opcode::StoreLocal, idx),
        IrInst::LoadCapture { .. } => Seq::empty(),
        IrInst::StoreCapture { .. } => Seq::empty(),
        IrInst::LoadGlobal { idx, .. } => op16(Opcode::LoadGlobal, idx),
        IrInst::StoreGlobal { idx, .. } => op16(Opcode::StoreGlobal, idx),
        IrInst::Add { .. } => seq![Opcode::Add.byte()],
        IrInst::Sub { .. } => seq![Opcode::Sub.byte()],
        IrInst::Mul { .. } => seq![Opcode::Mul.byte()],
        IrInst::Div { .. } => seq![Opcode::Div.byte()],
        IrInst::Mod { .. } => seq![Opcode::Mod.byte()],
        IrInst::Neg { .. } => seq![Opcode::Neg.byte()],
        IrInst::FAdd { .. } => seq![Opcode::FAdd.byte()],
        IrInst::FSub { .. } => seq![Opcode::FSub.byte()],
        IrInst::FMul { .. } => seq![Opcode::FMul.byte()],
        IrInst::FDiv { .. } => seq![Opcode::FDiv.byte()],
        IrInst::Pow { .. } => Seq::empty(),
        IrInst::BitAnd { .. } => seq![Opcode::BitAnd.byte()],
        IrInst::BitOr { .. } => seq![Opcode::BitOr.byte()],
        IrInst::BitXor { .. } => seq![Opcode::BitXor.byte()],
        IrInst::BitNot { .. } => seq![Opcode::BitNot.byte()],
        IrInst::Shl { .. } => seq![Opcode::Shl.byte()],
        IrInst::Shr { .. } => seq![Opcode::Shr.byte()],
        IrInst::Eq { .. } => seq![Opcode::Eq.byte()],
        IrInst::Ne { .. } => seq![Opcode::Ne.byte()],
        IrInst::Lt { .. } => seq![Opcode::Lt.byte()],
        IrInst::Le { .. } => seq![Opcode::Le.byte()],
        IrInst::Gt { .. } => seq![Opcode::Gt.byte()],
        IrInst::Ge { .. } => seq![Opcode::Ge.byte()],
        IrInst::ToI32 { .. } => seq![Opcode::ToI32.byte()],
        IrInst::ToI64 { .. } => seq![Opcode::ToI64.byte()],
        IrInst::ToF32 { .. } => seq![Opcode::ToF32.byte()],
        IrInst::ToF64 { .. } => seq![Opcode::ToF64.byte()],
        IrInst::ToBool { .. } => seq![Opcode::ToBool.byte()],
        IrInst::TypeOf { .. } => seq![Opcode::TypeOf.byte()],
        IrInst::NewArray { .. } => op16(Opcode::NewArray, 0),
        IrInst::ArrayLen { .. } => seq![Opcode::ArrayLen.byte()],
        IrInst::ArrayGet { .. } => seq![Opcode::ArrayGet.byte()],
        IrInst::ArraySet { .. } => seq![Opcode::ArraySet.byte()],
        IrInst::ArrayPush { .. } => seq![Opcode::ArrayPush.byte()],
        IrInst::ArrayPop { .. } => seq![Opcode::ArrayPop.byte()],
        IrInst::ArraySlice { .. } => Seq::empty(),
        IrInst::NewMap { .. } => seq![Opcode::NewMap.byte()],
        IrInst::MapGet { .. } => seq![Opcode::MapGet.byte()],
        IrInst::MapSet { .. } => seq![Opcode::MapSet.byte()],
        IrInst::MapDel { .. } => seq![Opcode::MapDel.byte()],
        IrInst::GetField { field, .. } => op16(Opcode::GetField, field as u16),
        IrInst::SetField { field, .. } => op16(Opcode::SetField, field as u16),
        IrInst::StrConcat { .. } => Seq::empty(),
        IrInst::StrLen { .. } => seq![Opcode::StrLen.byte()],
        IrInst::StrSub { .. } => seq![Opcode::StrSub.byte()],
        IrInst::Call { func, .. } => op16(Opcode::Call, func as u16),
        IrInst::CallValue { .. } => seq![Opcode::CallValue.byte()],
        IrInst::MakeClosure { func, .. } => op16(Opcode::MakeClosure, func as u16),
        IrInst::Invoke { method, .. } => op16(Opcode::CallMethod, method as u16),
        IrInst::CibLoad { lib_name, .. } => op16(Opcode::CibLoad, lib_name as u16),
        IrInst::CibSym { .. } => seq![Opcode::CibSym.byte()],
        IrInst::CibCall { .. } => seq![Opcode::CibCall.byte()],
        IrInst::Import { module, .. } => op16(Opcode::Import, module as u16),
        IrInst::ImportFunc { module, name, .. } => op16(Opcode::ImportFunc, module as u16) + le_bytes((name as u16) as nat, 2),
        IrInst::Export { name, .. } => op16(Opcode::Export, name as u16),
        IrInst::Print { .. } => Seq::empty(),
        IrInst::Line { .. } => Seq::empty(),
        IrInst::Debug { .. } => Seq::empty(),
    }
}

/// An opcode with a 16-bit operand.
pub open spec fn op16(op: Opcode, v: u16) -> Seq<u8> {
    seq![op.byte()] + le_bytes(v as nat, 2)
}

/// The bytes a block terminator lowers to. Jump offsets are left zero.
pub open spec fn term_code(t: IrTerminator) -> Seq<u8> {
    match t {
        IrTerminator::Fallthrough => Seq::empty(),
        IrTerminator::Jump(_) => op16(Opcode::Jump, 0),
        IrTerminator::Branch { .. } => op16(Opcode::JumpIfFalse, 0),
        IrTerminator::Return(None) => seq![Opcode::Return.byte()],
        IrTerminator::Return(Some(_)) => seq![Opcode::ReturnValue.byte()],
        IrTerminator::Halt => seq![Opcode::Halt.byte()],
    }
}

/// Lowering `insts` after the code `code` with line entries `lines`, in
/// function `fi`: each instruction appends its bytes, and each `Line`
/// records the offset at which it stands.
pub open spec fn lower_insts(code: Seq<u8>, lines: Seq<LineEntry>, insts: Seq<IrInst>, fi: u32) -> (
    Seq<u8>,
    Seq<LineEntry>,
)
    decreases insts.len(),
{
    if insts.len() == 0 {
        (code, lines)
    } else {
        let (c0, l0) = lower_insts(code, lines, insts.drop_last(), fi);
        let l1 = match insts.last() {
            IrInst::Line { line } => l0.push(
                LineEntry { func_index: fi, offset: c0.len() as u32, line: line, column: 0 },
            ),
            _ => l0,
        };
        (c0 + inst_code(insts.last()), l1)
    }
}

/// The code and line entries of the blocks of function `fi`, in order.
pub open spec fn lower_blocks(blocks: Seq<IrBlock>, fi: u32) -> (Seq<u8>, Seq<LineEntry>)
    decreases blocks.len(),
{
    if blocks.len() == 0 {
        (Seq::empty(), Seq::empty())
    } else {
        let (c0, l0) = lower_blocks(blocks.drop_last(), fi);
        let (c1, l1) = lower_insts(c0, l0, blocks.last().instructions@, fi);
        (c1 + term_code(blocks.last().terminator), l1)
    }
}

/// The line map of the first `n` functions of a lowered program.
pub open spec fn program_lines(funcs: Seq<IrFunction>, n: nat) -> Seq<LineEntry>
    decreases n,
{
    if n == 0 {
        Seq::empty()
    } else {
        program_lines(funcs, (n - 1) as nat) + lower_blocks(
            funcs[n - 1].blocks@,
            (n - 1) as u32,
        ).1
    }
}

/// Two optional strings with the same contents.
pub open spec fn same_opt_str(a: Option<String>, b: Option<String>) -> bool {
    match (a, b) {
        (Some(x), Some(y)) => x@ == y@,
        (None, None) => true,
        _ => false,
    }
}

/// The parameter type names of a lowered function: each hint, or the
/// empty string.
pub open spec fn param_type_names(params: Seq<IrParam>) -> Seq<Seq<char>> {
    params.map_values(
        |p: IrParam|
            match p.type_hint {
                Some(t) => t@,
                None => Seq::<char>::empty(),
            },
    )
}

/// Whether `d` is the lowering of `f` as function `fi` of its program.
pub open spec fn lowered_function(d: FunctionDef, f: IrFunction, fi: u32) -> bool {
    &&& d.name@ == f.name@
    &&& d.bytecode@ == lower_blocks(f.blocks@, fi).0
    &&& d.n_locals == f.n_locals
    &&& d.n_params == f.params@.len() as u16
    &&& d.is_variadic == f.is_variadic
    &&& d.n_captures == 0
    &&& same_opt_str(d.return_type, f.return_type)
    &&& string_views(d.param_types@) == param_type_names(f.params@)
    &&& d.hotness == 0
}

/// Lowers one instruction, appending its bytes; always succeeds.
pub fn ir_inst_to_bytecode(inst: &IrInst, writer: &mut BytecodeWriter, module: &UtenModule) -> (r:
    Result<(), String>)
    ensures
        r is Ok,
        final(writer)@ == old(writer)@ + inst_code(*inst),
{
    match inst {
        IrInst::ConstNil => writer.emit(Opcode::PushNil),
        IrInst::ConstBool(b) => if *b { writer.emit(Opcode::PushTrue) } else { writer.emit(Opcode::PushFalse) },
        IrInst::ConstI32(v) => {
            writer.emit(Opcode::PushI32);
            writer.emit_i32(*v);
        },
        IrInst::ConstI64(v) => {
            writer.emit(Opcode::PushI64);
            writer.emit_i64(*v);
        },
        IrInst::ConstF32(bits) => {
            writer.emit(Opcode::PushF32);
            writer.emit_f32_bits(*bits);
        },
        IrInst::ConstF64(bits) => {
            writer.emit(Opcode::PushF64);
            writer.emit_f64_bits(*bits);
        },
        IrInst::ConstStr(v) => writer.emit_op(Opcode::PushString, *v as u16),
        IrInst::Copy { .. } => writer.emit(Opcode::Dup),
        IrInst::LoadLocal { idx, .. } => writer.emit_op(Opcode::LoadLocal, *idx),
        IrInst::StoreLocal { idx, .. } => writer.emit_op(Opcode::StoreLocal, *idx),
        IrInst::LoadCapture { .. } => {},
        IrInst::StoreCapture { .. } => {},
        IrInst::LoadGlobal { idx, .. } => writer.emit_op(Opcode::LoadGlobal, *idx),
        IrInst::StoreGlobal { idx, .. } => writer.emit_op(Opcode::StoreGlobal, *idx),
        IrInst::Add { .. } => writer.emit(Opcode::Add),
        IrInst::Sub { .. } => writer.emit(Opcode::Sub),
        IrInst::Mul { .. } => writer.emit(Opcode::Mul),
        IrInst::Div { .. } => writer.emit(Opcode::Div),
        IrInst::Mod { .. } => writer.emit(Opcode::Mod),
        IrInst::Neg { .. } => writer.emit(Opcode::Neg),
        IrInst::FAdd { .. } => writer.emit(Opcode::FAdd),
        IrInst::FSub { .. } => writer.emit(Opcode::FSub),
        IrInst::FMul { .. } => writer.emit(Opcode::FMul),
        IrInst::FDiv { .. } => writer.emit(Opcode::FDiv),
        IrInst::Pow { .. } => {},
        IrInst::BitAnd { .. } => writer.emit(Opcode::BitAnd),
        IrInst::BitOr { .. } => writer.emit(Opcode::BitOr),
        IrInst::BitXor { .. } => writer.emit(Opcode::BitXor),
        IrInst::BitNot { .. } => writer.emit(Opcode::BitNot),
        IrInst::Shl { .. } => writer.emit(Opcode::Shl),
        IrInst::Shr { .. } => writer.emit(Opcode::Shr),
        IrInst::Eq { .. } => writer.emit(Opcode::Eq),
        IrInst::Ne { .. } => writer.emit(Opcode::Ne),
        IrInst::Lt { .. } => writer.emit(Opcode::Lt),
        IrInst::Le { .. } => writer.emit(Opcode::Le),
        IrInst::Gt { .. } => writer.emit(Opcode::Gt),
        IrInst::Ge { .. } => writer.emit(Opcode::Ge),
        IrInst::ToI32 { .. } => writer.emit(Opcode::ToI32),
        IrInst::ToI64 { .. } => writer.emit(Opcode::ToI64),
        IrInst::ToF32 { .. } => writer.emit(Opcode::ToF32),
        IrInst::ToF64 { .. } => writer.emit(Opcode::ToF64),
        IrInst::ToBool { .. } => writer.emit(Opcode::ToBool),
        IrInst::TypeOf { .. } => writer.emit(Opcode::TypeOf),
        IrInst::NewArray { .. } => writer.emit_op(Opcode::NewArray, 0),
        IrInst::ArrayLen { .. } => writer.emit(Opcode::ArrayLen),
        IrInst::ArrayGet { .. } => writer.emit(Opcode::ArrayGet),
        IrInst::ArraySet { .. } => writer.emit(Opcode::ArraySet),
        IrInst::ArrayPush { .. } => writer.emit(Opcode::ArrayPush),
        IrInst::ArrayPop { .. } => writer.emit(Opcode::ArrayPop),
        IrInst::ArraySlice { .. } => {},
        IrInst::NewMap { .. } => writer.emit(Opcode::NewMap),
        IrInst::MapGet { .. } => writer.emit(Opcode::MapGet),
        IrInst::MapSet { .. } => writer.emit(Opcode::MapSet),
        IrInst::MapDel { .. } => writer.emit(Opcode::MapDel),
        IrInst::GetField { field, .. } => writer.emit_op(Opcode::GetField, *field as u16),
        IrInst::SetField { field, .. } => writer.emit_op(Opcode::SetField, *field as u16),
        IrInst::StrConcat { .. } => {},
        IrInst::StrLen { .. } => writer.emit(Opcode::StrLen),
        IrInst::StrSub { .. } => writer.emit(Opcode::StrSub),
        IrInst::Call { func, .. } => writer.emit_op(Opcode::Call, *func as u16),
        IrInst::CallValue { .. } => writer.emit(Opcode::CallValue),
        IrInst::MakeClosure { func, .. } => writer.emit_op(Opcode::MakeClosure, *func as u16),
        IrInst::Invoke { method, .. } => writer.emit_op(Opcode::CallMethod, *method as u16),
        IrInst::CibLoad { lib_name, .. } => writer.emit_op(Opcode::CibLoad, *lib_name as u16),
        IrInst::CibSym { .. } => writer.emit(Opcode::CibSym),
        IrInst::CibCall { .. } => writer.emit(Opcode::CibCall),
        IrInst::Import { module, .. } => writer.emit_op(Opcode::Import, *module as u16),
        IrInst::ImportFunc { module, name, .. } => {
            writer.emit_op(Opcode::ImportFunc, *module as u16);
            writer.emit_u16(*name as u16);
        },
        IrInst::Export { name, .. } => writer.emit_op(Opcode::Export, *name as u16),
        IrInst::Print { .. } => {},
        IrInst::Line { .. } => {},
        IrInst::Debug { .. } => {},
    }
    proof {
        assert(writer@ =~= old(writer)@ + inst_code(*inst));
    }
    Ok(())
}

/// Lowers a block terminator, appending its bytes.
pub fn ir_terminator_to_bytecode(term: &IrTerminator, writer: &mut BytecodeWriter)
    ensures
        final(writer)@ == old(writer)@ + term_code(*term),
{
    match term {
        IrTerminator::Fallthrough => {},
        IrTerminator::Jump(_) => {
            writer.emit(Opcode::Jump);
            writer.emit_i16(0);
        },
        IrTerminator::Branch { .. } => {
            writer.emit(Opcode::JumpIfFalse);
            writer.emit_i16(0);
        },
        IrTerminator::Return(None) => writer.emit(Opcode::Return),
        IrTerminator::Return(Some(_)) => writer.emit(Opcode::ReturnValue),
        IrTerminator::Halt => writer.emit(Opcode::Halt),
    }
    assert(writer@ =~= old(writer)@ + term_code(*term));
}

/// Lowers an IR program to a module: its strings interned in order, then
/// each function lowered block by block, with the line entries of its
/// `Line` instructions.
pub fn ir_to_bytecode(program: IrProgram) -> (m: UtenModule)
    requires
        program.strings@.len() < u32::MAX,
    ensures
        m.magic@ == uclib_magic(),
        m.version == (VmVersion { major: 0, minor: 1 }),
        m.bytecode_version == BYTECODE_VERSION,
        default_header(m.header, program.name@),
        m.pool() == intern_all(Seq::empty(), string_views(program.strings@)),
        m.functions@.len() == program.functions@.len(),
        forall|k: int|
            0 <= k < m.functions@.len() ==> lowered_function(
                #[trigger] m.functions@[k],
                program.functions@[k],
                k as u32,
            ),
        m.header.line_map@ == program_lines(program.functions@, program.functions@.len()),
        m.constants@.len() == 0,
        m.structs@.len() == 0,
        m.globals@.len() == 0,
        m.exports@.len() == 0,
        m.imports@.len() == 0,
        m.exceptions@.len() == 0,
{
    let mut module = UtenModule::new(program.name.as_str());
    let ghost svs = string_views(program.strings@);
    let mut i: usize = 0;
    while i < program.strings.len()
        invariant
            i <= program.strings@.len() < u32::MAX,
            svs == string_views(program.strings@),
            module.pool() == intern_all(Seq::empty(), svs.take(i as int)),
            module.strings@.len() <= i,
            module.magic@ == uclib_magic(),
            module.version == (VmVersion { major: 0, minor: 1 }),
            module.bytecode_version == BYTECODE_VERSION,
            default_header(module.header, program.name@),
            module.header.line_map@.len() == 0,
            module.functions@.len() == 0,
            module.constants@.len() == 0,
            module.structs@.len() == 0,
            module.globals@.len() == 0,
            module.exports@.len() == 0,
            module.imports@.len() == 0,
            module.exceptions@.len() == 0,
        decreases program.strings@.len() - i,
    {
        let _ = module.intern(program.strings[i].as_str());
        proof {
            assert(svs.take(i + 1).drop_last() =~= svs.take(i as int));
            assert(svs.take(i + 1).last() == program.strings@[i as int]@);
        }
        i = i + 1;
    }
    assert(svs.take(program.strings@.len() as int) =~= svs);
    let ghost pool = module.pool();
    let mut k: usize = 0;
    while k < program.functions.len()
        invariant
            k <= program.functions@.len(),
            module.pool() == pool,
            module.magic@ == uclib_magic(),
            module.version == (VmVersion { major: 0, minor: 1 }),
            module.bytecode_version == BYTECODE_VERSION,
            default_header(module.header, program.name@),
            module.functions@.len() == k,
            forall|t: int|
                0 <= t < k ==> lowered_function(
                    #[trigger] module.functions@[t],
                    program.functions@[t],
                    t as u32,
                ),
            module.header.line_map@ == program_lines(program.functions@, k as nat),
            module.constants@.len() == 0,
            module.structs@.len() == 0,
            module.globals@.len() == 0,
            module.exports@.len() == 0,
            module.imports@.len() == 0,
            module.exceptions@.len() == 0,
        decreases program.functions@.len() - k,
    {
        let f = &program.functions[k];
        let fi = module.functions.len() as u32;
        let mut writer = BytecodeWriter::new();
        let mut line_map: Vec<LineEntry> = Vec::new();
        let mut b: usize = 0;
        while b < f.blocks.len()
            invariant
                b <= f.blocks@.len(),
                fi == k as u32,
                (writer@, line_map@) == lower_blocks(f.blocks@.take(b as int), fi),
            decreases f.blocks@.len() - b,
        {
            let block = &f.blocks[b];
            let ghost c0 = writer@;
            let ghost l0 = line_map@;
            let mut j: usize = 0;
            while j < block.instructions.len()
                invariant
                    j <= block.instructions@.len(),
                    (writer@, line_map@) == lower_insts(c0, l0, block.instructions@.take(j as int), fi),
                decreases block.instructions@.len() - j,
            {
                let inst = &block.instructions[j];
                let offset_before = writer.len() as u32;
                let _ = ir_inst_to_bytecode(inst, &mut writer, &module);
                match inst {
                    IrInst::Line { line } => {
                        line_map.push(
                            LineEntry { func_index: fi, offset: offset_before, line: *line, column: 0 },
                        );
                    },
                    _ => {},
                }
                proof {
                    let insts = block.instructions@;
                    assert(insts.take(j + 1).drop_last() =~= insts.take(j as int));
                    assert(insts.take(j + 1).last() == insts[j as int]);
                }
                j = j + 1;
            }
            ir_terminator_to_bytecode(&block.terminator, &mut writer);
            proof {
                let blocks = f.blocks@;
                assert(block.instructions@.take(block.instructions@.len() as int) =~= block.instructions@);
                assert(blocks.take(b + 1).drop_last() =~= blocks.take(b as int));
                assert(blocks.take(b + 1).last() == blocks[b as int]);
            }
            b = b + 1;
        }
        assert(f.blocks@.take(f.blocks@.len() as int) =~= f.blocks@);
        let mut param_types: Vec<String> = Vec::new();
        let mut p: usize = 0;
        while p < f.params.len()
            invariant
                p <= f.params@.len(),
                string_views(param_types@) == param_type_names(f.params@).take(p as int),
            decreases f.params@.len() - p,
        {
            let t = match &f.params[p].type_hint {
                Some(h) => h.clone(),
                None => String::new(),
            };
            assert(t@ == param_type_names(f.params@)[p as int]);
            let ghost before = param_types@;
            param_types.push(t);
            assert(param_types@ == before.push(t));
            assert(string_views(before.push(t)) =~= string_views(before).push(t@));
            assert(param_type_names(f.params@).take(p + 1) =~= param_type_names(f.params@).take(
                p as int,
            ).push(param_type_names(f.params@)[p as int]));
            p = p + 1;
        }
        assert(param_type_names(f.params@).take(f.params@.len() as int) =~= param_type_names(
            f.params@,
        ));
        let return_type = match &f.return_type {
            Some(t) => Some(t.clone()),
            None => None,
        };
        let def = FunctionDef {
            name: f.name.clone(),
            bytecode: writer.into_bytes(),
            n_locals: f.n_locals,
            n_params: f.params.len() as u16,
            is_variadic: f.is_variadic,
            n_captures: 0,
            return_type,
            param_types,
            hotness: 0,
        };
        module.functions.push(def);
        let ghost lines_before = module.header.line_map@;
        module.header.line_map.append(&mut line_map);
        proof {
            assert(module.header.line_map@ =~= program_lines(program.functions@, (k + 1) as nat));
        }
        k = k + 1;
    }
    module
}

} // verus!
