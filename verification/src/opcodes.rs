//! The opcode set of UtenCore bytecode and its static per-opcode table.
//!
//! Every opcode is one byte; an opcode may be followed by an operand of
//! `operand_size` bytes (little-endian). The table also records the net
//! effect of the opcode on the operand-stack depth and flags that tell the
//! verifier how to check the operand.
use vstd::prelude::*;

verus! {

/// An instruction opcode.
#[derive(Clone, Copy, Debug, PartialEq, Eq, Hash, Structural)]
pub enum Opcode {
    Nop,
    PushTrue,
    PushFalse,
    PushNil,
    PushI32,
    PushI64,
    PushF32,
    PushF64,
    PushString,
    PushConst,
    Dup,
    Swap,
    Pop,
    PopN,
    Rot,
    Add,
    Sub,
    Mul,
    Div,
    Mod,
    Neg,
    Inc,
    Dec,
    Abs,
    Pow,
    FAdd,
    FSub,
    FMul,
    FDiv,
    FNeg,
    BitAnd,
    BitOr,
    BitXor,
    BitNot,
    Shl,
    Shr,
    Eq,
    Ne,
    Lt,
    Le,
    Gt,
    Ge,
    And,
    Or,
    Not,
    TypeOf,
    ToI32,
    ToI64,
    ToF32,
    ToF64,
    ToBool,
    ToString,
    EnumCreate,
    EnumMatch,
    Return,
    ReturnValue,
    Jump,
    JumpIfFalse,
    JumpIfTrue,
    ForPrep,
    ForStep,
    GetIter,
    Next,
    Call,
    CallValue,
    CallMethod,
    NewArray,
    ArrayLen,
    ArrayGet,
    ArraySet,
    ArrayPush,
    ArrayPop,
    NewMap,
    MapGet,
    MapSet,
    MapDel,
    StrLen,
    StrSub,
    MakeClosure,
    NewNamespace,
    NewClass,
    NewObject,
    InitStruct,
    GetField,
    SetField,
    GetAttr,
    SetAttr,
    LoadLocal,
    StoreLocal,
    LoadGlobal,
    StoreGlobal,
    AllocFrame,
    HasAttr,
    ClassAddField,
    ClassAddMethod,
    ClassSetParent,
    Import,
    ImportFunc,
    Export,
    CibLoad,
    CibSym,
    CibCall,
    Halt,
    Raise,
}

/// What the operand of an opcode refers to, and how it affects control flow.
#[derive(Clone, Copy, Debug, PartialEq, Eq, Structural)]
pub struct OpFlags {
    /// Operand is an index into the module's function table.
    pub has_func: bool,
    /// Operand is an index into the module's string pool.
    pub has_string: bool,
    /// Operand is an index into the module's constant pool.
    pub has_const: bool,
    /// Operand is a global-variable slot.
    pub has_global: bool,
    /// Operand is a signed 16-bit jump offset, relative to the end of a
    /// three-byte instruction.
    pub is_jump: bool,
    /// Execution never falls through to the next instruction.
    pub terminator: bool,
}

/// Static description of an opcode.
#[derive(Clone, Copy, Debug)]
pub struct OpcodeInfo {
    /// Lower-case assembler name.
    pub mnemonic: &'static str,
    /// Number of operand bytes that follow the opcode byte.
    pub operand_size: u8,
    /// Net change of the operand-stack depth.
    pub stack_effect: i8,
    pub flags: OpFlags,
}

impl Opcode {
    /// The byte that encodes this opcode.
    pub open spec fn byte(self) -> u8 {
        match self {
            Opcode::Nop => 0x00,
            Opcode::PushTrue => 0x01,
            Opcode::PushFalse => 0x02,
            Opcode::PushNil => 0x03,
            Opcode::PushI32 => 0x04,
            Opcode::PushI64 => 0x05,
            Opcode::PushF32 => 0x06,
            Opcode::PushF64 => 0x07,
            Opcode::PushString => 0x08,
            Opcode::PushConst => 0x09,
            Opcode::Dup => 0x0A,
            Opcode::Swap => 0x0B,
            Opcode::Pop => 0x0C,
            Opcode::PopN => 0x0D,
            Opcode::Rot => 0x0E,
            Opcode::Add => 0x10,
            Opcode::Sub => 0x11,
            Opcode::Mul => 0x12,
            Opcode::Div => 0x13,
            Opcode::Mod => 0x14,
            Opcode::Neg => 0x15,
            Opcode::Inc => 0x16,
            Opcode::Dec => 0x17,
            Opcode::Abs => 0x18,
            Opcode::Pow => 0x19,
            Opcode::FAdd => 0x20,
            Opcode::FSub => 0x21,
            Opcode::FMul => 0x22,
            Opcode::FDiv => 0x23,
            Opcode::FNeg => 0x24,
            Opcode::BitAnd => 0x30,
            Opcode::BitOr => 0x31,
            Opcode::BitXor => 0x32,
            Opcode::BitNot => 0x33,
            Opcode::Shl => 0x34,
            Opcode::Shr => 0x35,
            Opcode::Eq => 0x40,
            Opcode::Ne => 0x41,
            Opcode::Lt => 0x42,
            Opcode::Le => 0x43,
            Opcode::Gt => 0x44,
            Opcode::Ge => 0x45,
            Opcode::And => 0x50,
            Opcode::Or => 0x51,
            Opcode::Not => 0x52,
            Opcode::TypeOf => 0x53,
            Opcode::ToI32 => 0x60,
            Opcode::ToI64 => 0x61,
            Opcode::ToF32 => 0x62,
            Opcode::ToF64 => 0x63,
            Opcode::ToBool => 0x64,
            Opcode::ToString => 0x65,
            Opcode::EnumCreate => 0x70,
            Opcode::EnumMatch => 0x71,
            Opcode::Return => 0x78,
            Opcode::ReturnValue => 0x79,
            Opcode::Jump => 0x80,
            Opcode::JumpIfFalse => 0x81,
            Opcode::JumpIfTrue => 0x82,
            Opcode::ForPrep => 0x83,
            Opcode::ForStep => 0x84,
            Opcode::GetIter => 0x90,
            Opcode::Next => 0x91,
            Opcode::Call => 0xB0,
            Opcode::CallValue => 0xB1,
            Opcode::CallMethod => 0xB2,
            Opcode::NewArray => 0xC0,
            Opcode::ArrayLen => 0xC1,
            Opcode::ArrayGet => 0xC2,
            Opcode::ArraySet => 0xC3,
            Opcode::ArrayPush => 0xC4,
            Opcode::ArrayPop => 0xC5,
            Opcode::NewMap => 0xC6,
            Opcode::MapGet => 0xC7,
            Opcode::MapSet => 0xC8,
            Opcode::MapDel => 0xC9,
            Opcode::StrLen => 0xCA,
            Opcode::StrSub => 0xCB,
            Opcode::MakeClosure => 0xD0,
            Opcode::NewNamespace => 0xD8,
            Opcode::NewClass => 0xD9,
            Opcode::NewObject => 0xDA,
            Opcode::InitStruct => 0xDB,
            Opcode::GetField => 0xDC,
            Opcode::SetField => 0xDD,
            Opcode::GetAttr => 0xDE,
            Opcode::SetAttr => 0xDF,
            Opcode::LoadLocal => 0xE0,
            Opcode::StoreLocal => 0xE1,
            Opcode::LoadGlobal => 0xE2,
            Opcode::StoreGlobal => 0xE3,
            Opcode::AllocFrame => 0xE4,
            Opcode::HasAttr => 0xE5,
            Opcode::ClassAddField => 0xE6,
            Opcode::ClassAddMethod => 0xE7,
            Opcode::ClassSetParent => 0xE8,
            Opcode::Import => 0xF0,
            Opcode::ImportFunc => 0xF1,
            Opcode::Export => 0xF2,
            Opcode::CibLoad => 0xF3,
            Opcode::CibSym => 0xF4,
            Opcode::CibCall => 0xF5,
            Opcode::Halt => 0xFE,
            Opcode::Raise => 0xFF,
        }
    }

    /// The opcode a byte decodes to, if any.
    pub open spec fn spec_from_byte(b: u8) -> Option<Opcode> {
        match b {
            0x00 => Some(Opcode::Nop),
            0x01 => Some(Opcode::PushTrue),
            0x02 => Some(Opcode::PushFalse),
            0x03 => Some(Opcode::PushNil),
            0x04 => Some(Opcode::PushI32),
            0x05 => Some(Opcode::PushI64),
            0x06 => Some(Opcode::PushF32),
            0x07 => Some(Opcode::PushF64),
            0x08 => Some(Opcode::PushString),
            0x09 => Some(Opcode::PushConst),
            0x0A => Some(Opcode::Dup),
            0x0B => Some(Opcode::Swap),
            0x0C => Some(Opcode::Pop),
            0x0D => Some(Opcode::PopN),
            0x0E => Some(Opcode::Rot),
            0x10 => Some(Opcode::Add),
            0x11 => Some(Opcode::Sub),
            0x12 => Some(Opcode::Mul),
            0x13 => Some(Opcode::Div),
            0x14 => Some(Opcode::Mod),
            0x15 => Some(Opcode::Neg),
            0x16 => Some(Opcode::Inc),
            0x17 => Some(Opcode::Dec),
            0x18 => Some(Opcode::Abs),
            0x19 => Some(Opcode::Pow),
            0x20 => Some(Opcode::FAdd),
            0x21 => Some(Opcode::FSub),
            0x22 => Some(Opcode::FMul),
            0x23 => Some(Opcode::FDiv),
            0x24 => Some(Opcode::FNeg),
            0x30 => Some(Opcode::BitAnd),
            0x31 => Some(Opcode::BitOr),
            0x32 => Some(Opcode::BitXor),
            0x33 => Some(Opcode::BitNot),
            0x34 => Some(Opcode::Shl),
            0x35 => Some(Opcode::Shr),
            0x40 => Some(Opcode::Eq),
            0x41 => Some(Opcode::Ne),
            0x42 => Some(Opcode::Lt),
            0x43 => Some(Opcode::Le),
            0x44 => Some(Opcode::Gt),
            0x45 => Some(Opcode::Ge),
            0x50 => Some(Opcode::And),
            0x51 => Some(Opcode::Or),
            0x52 => Some(Opcode::Not),
            0x53 => Some(Opcode::TypeOf),
            0x60 => Some(Opcode::ToI32),
            0x61 => Some(Opcode::ToI64),
            0x62 => Some(Opcode::ToF32),
            0x63 => Some(Opcode::ToF64),
            0x64 => Some(Opcode::ToBool),
            0x65 => Some(Opcode::ToString),
            0x70 => Some(Opcode::EnumCreate),
            0x71 => Some(Opcode::EnumMatch),
            0x78 => Some(Opcode::Return),
            0x79 => Some(Opcode::ReturnValue),
            0x80 => Some(Opcode::Jump),
            0x81 => Some(Opcode::JumpIfFalse),
            0x82 => Some(Opcode::JumpIfTrue),
            0x83 => Some(Opcode::ForPrep),
            0x84 => Some(Opcode::ForStep),
            0x90 => Some(Opcode::GetIter),
            0x91 => Some(Opcode::Next),
            0xB0 => Some(Opcode::Call),
            0xB1 => Some(Opcode::CallValue),
            0xB2 => Some(Opcode::CallMethod),
            0xC0 => Some(Opcode::NewArray),
            0xC1 => Some(Opcode::ArrayLen),
            0xC2 => Some(Opcode::ArrayGet),
            0xC3 => Some(Opcode::ArraySet),
            0xC4 => Some(Opcode::ArrayPush),
            0xC5 => Some(Opcode::ArrayPop),
            0xC6 => Some(Opcode::NewMap),
            0xC7 => Some(Opcode::MapGet),
            0xC8 => Some(Opcode::MapSet),
            0xC9 => Some(Opcode::MapDel),
            0xCA => Some(Opcode::StrLen),
            0xCB => Some(Opcode::StrSub),
            0xD0 => Some(Opcode::MakeClosure),
            0xD8 => Some(Opcode::NewNamespace),
            0xD9 => Some(Opcode::NewClass),
            0xDA => Some(Opcode::NewObject),
            0xDB => Some(Opcode::InitStruct),
            0xDC => Some(Opcode::GetField),
            0xDD => Some(Opcode::SetField),
            0xDE => Some(Opcode::GetAttr),
            0xDF => Some(Opcode::SetAttr),
            0xE0 => Some(Opcode::LoadLocal),
            0xE1 => Some(Opcode::StoreLocal),
            0xE2 => Some(Opcode::LoadGlobal),
            0xE3 => Some(Opcode::StoreGlobal),
            0xE4 => Some(Opcode::AllocFrame),
            0xE5 => Some(Opcode::HasAttr),
            0xE6 => Some(Opcode::ClassAddField),
            0xE7 => Some(Opcode::ClassAddMethod),
            0xE8 => Some(Opcode::ClassSetParent),
            0xF0 => Some(Opcode::Import),
            0xF1 => Some(Opcode::ImportFunc),
            0xF2 => Some(Opcode::Export),
            0xF3 => Some(Opcode::CibLoad),
            0xF4 => Some(Opcode::CibSym),
            0xF5 => Some(Opcode::CibCall),
            0xFE => Some(Opcode::Halt),
            0xFF => Some(Opcode::Raise),
            _ => None,
        }
    }

    /// Number of operand bytes following the opcode byte.
    pub open spec fn operand_size(self) -> u8 {
        match self {
            Opcode::PushI32 => 4,
            Opcode::PushI64 => 8,
            Opcode::PushF32 => 4,
            Opcode::PushF64 => 8,
            Opcode::PushString => 2,
            Opcode::PushConst => 2,
            Opcode::PopN => 1,
            Opcode::Jump => 2,
            Opcode::JumpIfFalse => 2,
            Opcode::JumpIfTrue => 2,
            Opcode::ForPrep => 2,
            Opcode::ForStep => 2,
            Opcode::Next => 2,
            Opcode::Call => 2,
            Opcode::CallMethod => 2,
            Opcode::NewArray => 2,
            Opcode::MakeClosure => 2,
            Opcode::NewNamespace => 2,
            Opcode::InitStruct => 2,
            Opcode::GetField => 2,
            Opcode::SetField => 2,
            Opcode::GetAttr => 2,
            Opcode::SetAttr => 2,
            Opcode::LoadLocal => 2,
            Opcode::StoreLocal => 2,
            Opcode::LoadGlobal => 2,
            Opcode::StoreGlobal => 2,
            Opcode::AllocFrame => 2,
            Opcode::HasAttr => 2,
            Opcode::ClassAddField => 2,
            Opcode::ClassAddMethod => 2,
            Opcode::Import => 2,
            Opcode::ImportFunc => 2,
            Opcode::Export => 2,
            _ => 0,
        }
    }

    /// Net change of the operand-stack depth.
    pub open spec fn stack_effect(self) -> i8 {
        match self {
            Opcode::PushTrue => 1i8,
            Opcode::PushFalse => 1i8,
            Opcode::PushNil => 1i8,
            Opcode::PushI32 => 1i8,
            Opcode::PushI64 => 1i8,
            Opcode::PushF32 => 1i8,
            Opcode::PushF64 => 1i8,
            Opcode::PushString => 1i8,
            Opcode::PushConst => 1i8,
            Opcode::Dup => 1i8,
            Opcode::Pop => -1i8,
            Opcode::Add => -1i8,
            Opcode::Sub => -1i8,
            Opcode::Mul => -1i8,
            Opcode::Div => -1i8,
            Opcode::Mod => -1i8,
            Opcode::Pow => -1i8,
            Opcode::FAdd => -1i8,
            Opcode::FSub => -1i8,
            Opcode::FMul => -1i8,
            Opcode::FDiv => -1i8,
            Opcode::BitAnd => -1i8,
            Opcode::BitOr => -1i8,
            Opcode::BitXor => -1i8,
            Opcode::Shl => -1i8,
            Opcode::Shr => -1i8,
            Opcode::Eq => -1i8,
            Opcode::Ne => -1i8,
            Opcode::Lt => -1i8,
            Opcode::Le => -1i8,
            Opcode::Gt => -1i8,
            Opcode::Ge => -1i8,
            Opcode::And => -1i8,
            Opcode::Or => -1i8,
            Opcode::EnumCreate => -1i8,
            Opcode::ReturnValue => -1i8,
            Opcode::JumpIfFalse => -1i8,
            Opcode::JumpIfTrue => -1i8,
            Opcode::Next => 1i8,
            Opcode::CallValue => -1i8,
            Opcode::NewArray => 1i8,
            Opcode::ArrayGet => -1i8,
            Opcode::ArraySet => -3i8,
            Opcode::ArrayPush => -1i8,
            Opcode::NewMap => 1i8,
            Opcode::MapGet => -1i8,
            Opcode::MapSet => -2i8,
            Opcode::MapDel => -1i8,
            Opcode::StrSub => -2i8,
            Opcode::MakeClosure => 1i8,
            Opcode::NewNamespace => 1i8,
            Opcode::InitStruct => 1i8,
            Opcode::SetField => -2i8,
            Opcode::SetAttr => -2i8,
            Opcode::LoadLocal => 1i8,
            Opcode::StoreLocal => -1i8,
            Opcode::LoadGlobal => 1i8,
            Opcode::StoreGlobal => -1i8,
            Opcode::ClassAddField => -1i8,
            Opcode::ClassAddMethod => -2i8,
            Opcode::ClassSetParent => -1i8,
            Opcode::Import => 1i8,
            Opcode::Export => -1i8,
            Opcode::CibSym => -1i8,
            Opcode::CibCall => -1i8,
            Opcode::Raise => -1i8,
            _ => 0,
        }
    }

    /// Operand kind and control-flow flags.
    pub open spec fn flags(self) -> OpFlags {
        match self {
            Opcode::PushString => OpFlags { has_func: false, has_string: true, has_const: false, has_global: false, is_jump: false, terminator: false },
            Opcode::PushConst => OpFlags { has_func: false, has_string: false, has_const: true, has_global: false, is_jump: false, terminator: false },
            Opcode::Return => OpFlags { has_func: false, has_string: false, has_const: false, has_global: false, is_jump: false, terminator: true },
            Opcode::ReturnValue => OpFlags { has_func: false, has_string: false, has_const: false, has_global: false, is_jump: false, terminator: true },
            Opcode::Jump => OpFlags { has_func: false, has_string: false, has_const: false, has_global: false, is_jump: true, terminator: false },
            Opcode::JumpIfFalse => OpFlags { has_func: false, has_string: false, has_const: false, has_global: false, is_jump: true, terminator: false },
            Opcode::JumpIfTrue => OpFlags { has_func: false, has_string: false, has_const: false, has_global: false, is_jump: true, terminator: false },
            Opcode::ForPrep => OpFlags { has_func: false, has_string: false, has_const: false, has_global: false, is_jump: true, terminator: false },
            Opcode::ForStep => OpFlags { has_func: false, has_string: false, has_const: false, has_global: false, is_jump: true, terminator: false },
            Opcode::Next => OpFlags { has_func: false, has_string: false, has_const: false, has_global: false, is_jump: true, terminator: false },
            Opcode::Call => OpFlags { has_func: true, has_string: false, has_const: false, has_global: false, is_jump: false, terminator: false },
            Opcode::CallMethod => OpFlags { has_func: false, has_string: true, has_const: false, has_global: false, is_jump: false, terminator: false },
            Opcode::MakeClosure => OpFlags { has_func: true, has_string: false, has_const: false, has_global: false, is_jump: false, terminator: false },
            Opcode::NewNamespace => OpFlags { has_func: false, has_string: true, has_const: false, has_global: false, is_jump: false, terminator: false },
            Opcode::GetField => OpFlags { has_func: false, has_string: true, has_const: false, has_global: false, is_jump: false, terminator: false },
            Opcode::SetField => OpFlags { has_func: false, has_string: true, has_const: false, has_global: false, is_jump: false, terminator: false },
            Opcode::GetAttr => OpFlags { has_func: false, has_string: true, has_const: false, has_global: false, is_jump: false, terminator: false },
            Opcode::SetAttr => OpFlags { has_func: false, has_string: true, has_const: false, has_global: false, is_jump: false, terminator: false },
            Opcode::LoadGlobal => OpFlags { has_func: false, has_string: false, has_const: false, has_global: true, is_jump: false, terminator: false },
            Opcode::StoreGlobal => OpFlags { has_func: false, has_string: false, has_const: false, has_global: true, is_jump: false, terminator: false },
            Opcode::HasAttr => OpFlags { has_func: false, has_string: true, has_const: false, has_global: false, is_jump: false, terminator: false },
            Opcode::ClassAddField => OpFlags { has_func: false, has_string: true, has_const: false, has_global: false, is_jump: false, terminator: false },
            Opcode::ClassAddMethod => OpFlags { has_func: false, has_string: true, has_const: false, has_global: false, is_jump: false, terminator: false },
            Opcode::Import => OpFlags { has_func: false, has_string: true, has_const: false, has_global: false, is_jump: false, terminator: false },
            Opcode::ImportFunc => OpFlags { has_func: false, has_string: true, has_const: false, has_global: false, is_jump: false, terminator: false },
            Opcode::Export => OpFlags { has_func: false, has_string: true, has_const: false, has_global: false, is_jump: false, terminator: false },
            Opcode::Halt => OpFlags { has_func: false, has_string: false, has_const: false, has_global: false, is_jump: false, terminator: true },
            Opcode::Raise => OpFlags { has_func: false, has_string: false, has_const: false, has_global: false, is_jump: false, terminator: true },
            _ => OpFlags { has_func: false, has_string: false, has_const: false, has_global: false, is_jump: false, terminator: false },
        }
    }

    /// Assembler name.
    pub open spec fn mnemonic(self) -> &'static str {
        match self {
            Opcode::Nop => "nop",
            Opcode::PushTrue => "push_true",
            Opcode::PushFalse => "push_false",
            Opcode::PushNil => "push_nil",
            Opcode::PushI32 => "push_i32",
            Opcode::PushI64 => "push_i64",
            Opcode::PushF32 => "push_f32",
            Opcode::PushF64 => "push_f64",
            Opcode::PushString => "push_string",
            Opcode::PushConst => "push_const",
            Opcode::Dup => "dup",
            Opcode::Swap => "swap",
            Opcode::Pop => "pop",
            Opcode::PopN => "pop_n",
            Opcode::Rot => "rot",
            Opcode::Add => "add",
            Opcode::Sub => "sub",
            Opcode::Mul => "mul",
            Opcode::Div => "div",
            Opcode::Mod => "mod",
            Opcode::Neg => "neg",
            Opcode::Inc => "inc",
            Opcode::Dec => "dec",
            Opcode::Abs => "abs",
            Opcode::Pow => "pow",
            Opcode::FAdd => "fadd",
            Opcode::FSub => "fsub",
            Opcode::FMul => "fmul",
            Opcode::FDiv => "fdiv",
            Opcode::FNeg => "fneg",
            Opcode::BitAnd => "bit_and",
            Opcode::BitOr => "bit_or",
            Opcode::BitXor => "bit_xor",
            Opcode::BitNot => "bit_not",
            Opcode::Shl => "shl",
            Opcode::Shr => "shr",
            Opcode::Eq => "eq",
            Opcode::Ne => "ne",
            Opcode::Lt => "lt",
            Opcode::Le => "le",
            Opcode::Gt => "gt",
            Opcode::Ge => "ge",
            Opcode::And => "and",
            Opcode::Or => "or",
            Opcode::Not => "not",
            Opcode::TypeOf => "type_of",
            Opcode::ToI32 => "to_i32",
            Opcode::ToI64 => "to_i64",
            Opcode::ToF32 => "to_f32",
            Opcode::ToF64 => "to_f64",
            Opcode::ToBool => "to_bool",
            Opcode::ToString => "to_string",
            Opcode::EnumCreate => "enum_create",
            Opcode::EnumMatch => "enum_match",
            Opcode::Return => "return",
            Opcode::ReturnValue => "return_value",
            Opcode::Jump => "jump",
            Opcode::JumpIfFalse => "jump_if_false",
            Opcode::JumpIfTrue => "jump_if_true",
            Opcode::ForPrep => "for_prep",
            Opcode::ForStep => "for_step",
            Opcode::GetIter => "get_iter",
            Opcode::Next => "next",
            Opcode::Call => "call",
            Opcode::CallValue => "call_value",
            Opcode::CallMethod => "call_method",
            Opcode::NewArray => "new_array",
            Opcode::ArrayLen => "array_len",
            Opcode::ArrayGet => "array_get",
            Opcode::ArraySet => "array_set",
            Opcode::ArrayPush => "array_push",
            Opcode::ArrayPop => "array_pop",
            Opcode::NewMap => "new_map",
            Opcode::MapGet => "map_get",
            Opcode::MapSet => "map_set",
            Opcode::MapDel => "map_del",
            Opcode::StrLen => "str_len",
            Opcode::StrSub => "str_sub",
            Opcode::MakeClosure => "make_closure",
            Opcode::NewNamespace => "new_namespace",
            Opcode::NewClass => "new_class",
            Opcode::NewObject => "new_object",
            Opcode::InitStruct => "init_struct",
            Opcode::GetField => "get_field",
            Opcode::SetField => "set_field",
            Opcode::GetAttr => "get_attr",
            Opcode::SetAttr => "set_attr",
            Opcode::LoadLocal => "load_local",
            Opcode::StoreLocal => "store_local",
            Opcode::LoadGlobal => "load_global",
            Opcode::StoreGlobal => "store_global",
            Opcode::AllocFrame => "alloc_frame",
            Opcode::HasAttr => "has_attr",
            Opcode::ClassAddField => "class_add_field",
            Opcode::ClassAddMethod => "class_add_method",
            Opcode::ClassSetParent => "class_set_parent",
            Opcode::Import => "import",
            Opcode::ImportFunc => "import_func",
            Opcode::Export => "export",
            Opcode::CibLoad => "cib_load",
            Opcode::CibSym => "cib_sym",
            Opcode::CibCall => "cib_call",
            Opcode::Halt => "halt",
            Opcode::Raise => "raise",
        }
    }

    /// Decode an opcode byte.
    pub fn from_byte(b: u8) -> (r: Option<Opcode>)
        ensures
            r == Opcode::spec_from_byte(b),
    {
        match b {
            0x00 => Some(Opcode::Nop),
            0x01 => Some(Opcode::PushTrue),
            0x02 => Some(Opcode::PushFalse),
            0x03 => Some(Opcode::PushNil),
            0x04 => Some(Opcode::PushI32),
            0x05 => Some(Opcode::PushI64),
            0x06 => Some(Opcode::PushF32),
            0x07 => Some(Opcode::PushF64),
            0x08 => Some(Opcode::PushString),
            0x09 => Some(Opcode::PushConst),
            0x0A => Some(Opcode::Dup),
            0x0B => Some(Opcode::Swap),
            0x0C => Some(Opcode::Pop),
            0x0D => Some(Opcode::PopN),
            0x0E => Some(Opcode::Rot),
            0x10 => Some(Opcode::Add),
            0x11 => Some(Opcode::Sub),
            0x12 => Some(Opcode::Mul),
            0x13 => Some(Opcode::Div),
            0x14 => Some(Opcode::Mod),
            0x15 => Some(Opcode::Neg),
            0x16 => Some(Opcode::Inc),
            0x17 => Some(Opcode::Dec),
            0x18 => Some(Opcode::Abs),
            0x19 => Some(Opcode::Pow),
            0x20 => Some(Opcode::FAdd),
            0x21 => Some(Opcode::FSub),
            0x22 => Some(Opcode::FMul),
            0x23 => Some(Opcode::FDiv),
            0x24 => Some(Opcode::FNeg),
            0x30 => Some(Opcode::BitAnd),
            0x31 => Some(Opcode::BitOr),
            0x32 => Some(Opcode::BitXor),
            0x33 => Some(Opcode::BitNot),
            0x34 => Some(Opcode::Shl),
            0x35 => Some(Opcode::Shr),
            0x40 => Some(Opcode::Eq),
            0x41 => Some(Opcode::Ne),
            0x42 => Some(Opcode::Lt),
            0x43 => Some(Opcode::Le),
            0x44 => Some(Opcode::Gt),
            0x45 => Some(Opcode::Ge),
            0x50 => Some(Opcode::And),
            0x51 => Some(Opcode::Or),
            0x52 => Some(Opcode::Not),
            0x53 => Some(Opcode::TypeOf),
            0x60 => Some(Opcode::ToI32),
            0x61 => Some(Opcode::ToI64),
            0x62 => Some(Opcode::ToF32),
            0x63 => Some(Opcode::ToF64),
            0x64 => Some(Opcode::ToBool),
            0x65 => Some(Opcode::ToString),
            0x70 => Some(Opcode::EnumCreate),
            0x71 => Some(Opcode::EnumMatch),
            0x78 => Some(Opcode::Return),
            0x79 => Some(Opcode::ReturnValue),
            0x80 => Some(Opcode::Jump),
            0x81 => Some(Opcode::JumpIfFalse),
            0x82 => Some(Opcode::JumpIfTrue),
            0x83 => Some(Opcode::ForPrep),
            0x84 => Some(Opcode::ForStep),
            0x90 => Some(Opcode::GetIter),
            0x91 => Some(Opcode::Next),
            0xB0 => Some(Opcode::Call),
            0xB1 => Some(Opcode::CallValue),
            0xB2 => Some(Opcode::CallMethod),
            0xC0 => Some(Opcode::NewArray),
            0xC1 => Some(Opcode::ArrayLen),
            0xC2 => Some(Opcode::ArrayGet),
            0xC3 => Some(Opcode::ArraySet),
            0xC4 => Some(Opcode::ArrayPush),
            0xC5 => Some(Opcode::ArrayPop),
            0xC6 => Some(Opcode::NewMap),
            0xC7 => Some(Opcode::MapGet),
            0xC8 => Some(Opcode::MapSet),
            0xC9 => Some(Opcode::MapDel),
            0xCA => Some(Opcode::StrLen),
            0xCB => Some(Opcode::StrSub),
            0xD0 => Some(Opcode::MakeClosure),
            0xD8 => Some(Opcode::NewNamespace),
            0xD9 => Some(Opcode::NewClass),
            0xDA => Some(Opcode::NewObject),
            0xDB => Some(Opcode::InitStruct),
            0xDC => Some(Opcode::GetField),
            0xDD => Some(Opcode::SetField),
            0xDE => Some(Opcode::GetAttr),
            0xDF => Some(Opcode::SetAttr),
            0xE0 => Some(Opcode::LoadLocal),
            0xE1 => Some(Opcode::StoreLocal),
            0xE2 => Some(Opcode::LoadGlobal),
            0xE3 => Some(Opcode::StoreGlobal),
            0xE4 => Some(Opcode::AllocFrame),
            0xE5 => Some(Opcode::HasAttr),
            0xE6 => Some(Opcode::ClassAddField),
            0xE7 => Some(Opcode::ClassAddMethod),
            0xE8 => Some(Opcode::ClassSetParent),
            0xF0 => Some(Opcode::Import),
            0xF1 => Some(Opcode::ImportFunc),
            0xF2 => Some(Opcode::Export),
            0xF3 => Some(Opcode::CibLoad),
            0xF4 => Some(Opcode::CibSym),
            0xF5 => Some(Opcode::CibCall),
            0xFE => Some(Opcode::Halt),
            0xFF => Some(Opcode::Raise),
            _ => None,
        }
    }

    /// Encode this opcode as its byte.
    #[verifier::when_used_as_spec(byte)]
    pub fn to_byte(self) -> (r: u8)
        ensures
            r == self.byte(),
    {
        match self {
            Opcode::Nop => 0x00,
            Opcode::PushTrue => 0x01,
            Opcode::PushFalse => 0x02,
            Opcode::PushNil => 0x03,
            Opcode::PushI32 => 0x04,
            Opcode::PushI64 => 0x05,
            Opcode::PushF32 => 0x06,
            Opcode::PushF64 => 0x07,
            Opcode::PushString => 0x08,
            Opcode::PushConst => 0x09,
            Opcode::Dup => 0x0A,
            Opcode::Swap => 0x0B,
            Opcode::Pop => 0x0C,
            Opcode::PopN => 0x0D,
            Opcode::Rot => 0x0E,
            Opcode::Add => 0x10,
            Opcode::Sub => 0x11,
            Opcode::Mul => 0x12,
            Opcode::Div => 0x13,
            Opcode::Mod => 0x14,
            Opcode::Neg => 0x15,
            Opcode::Inc => 0x16,
            Opcode::Dec => 0x17,
            Opcode::Abs => 0x18,
            Opcode::Pow => 0x19,
            Opcode::FAdd => 0x20,
            Opcode::FSub => 0x21,
            Opcode::FMul => 0x22,
            Opcode::FDiv => 0x23,
            Opcode::FNeg => 0x24,
            Opcode::BitAnd => 0x30,
            Opcode::BitOr => 0x31,
            Opcode::BitXor => 0x32,
            Opcode::BitNot => 0x33,
            Opcode::Shl => 0x34,
            Opcode::Shr => 0x35,
            Opcode::Eq => 0x40,
            Opcode::Ne => 0x41,
            Opcode::Lt => 0x42,
            Opcode::Le => 0x43,
            Opcode::Gt => 0x44,
            Opcode::Ge => 0x45,
            Opcode::And => 0x50,
            Opcode::Or => 0x51,
            Opcode::Not => 0x52,
            Opcode::TypeOf => 0x53,
            Opcode::ToI32 => 0x60,
            Opcode::ToI64 => 0x61,
            Opcode::ToF32 => 0x62,
            Opcode::ToF64 => 0x63,
            Opcode::ToBool => 0x64,
            Opcode::ToString => 0x65,
            Opcode::EnumCreate => 0x70,
            Opcode::EnumMatch => 0x71,
            Opcode::Return => 0x78,
            Opcode::ReturnValue => 0x79,
            Opcode::Jump => 0x80,
            Opcode::JumpIfFalse => 0x81,
            Opcode::JumpIfTrue => 0x82,
            Opcode::ForPrep => 0x83,
            Opcode::ForStep => 0x84,
            Opcode::GetIter => 0x90,
            Opcode::Next => 0x91,
            Opcode::Call => 0xB0,
            Opcode::CallValue => 0xB1,
            Opcode::CallMethod => 0xB2,
            Opcode::NewArray => 0xC0,
            Opcode::ArrayLen => 0xC1,
            Opcode::ArrayGet => 0xC2,
            Opcode::ArraySet => 0xC3,
            Opcode::ArrayPush => 0xC4,
            Opcode::ArrayPop => 0xC5,
            Opcode::NewMap => 0xC6,
            Opcode::MapGet => 0xC7,
            Opcode::MapSet => 0xC8,
            Opcode::MapDel => 0xC9,
            Opcode::StrLen => 0xCA,
            Opcode::StrSub => 0xCB,
            Opcode::MakeClosure => 0xD0,
            Opcode::NewNamespace => 0xD8,
            Opcode::NewClass => 0xD9,
            Opcode::NewObject => 0xDA,
            Opcode::InitStruct => 0xDB,
            Opcode::GetField => 0xDC,
            Opcode::SetField => 0xDD,
            Opcode::GetAttr => 0xDE,
            Opcode::SetAttr => 0xDF,
            Opcode::LoadLocal => 0xE0,
            Opcode::StoreLocal => 0xE1,
            Opcode::LoadGlobal => 0xE2,
            Opcode::StoreGlobal => 0xE3,
            Opcode::AllocFrame => 0xE4,
            Opcode::HasAttr => 0xE5,
            Opcode::ClassAddField => 0xE6,
            Opcode::ClassAddMethod => 0xE7,
            Opcode::ClassSetParent => 0xE8,
            Opcode::Import => 0xF0,
            Opcode::ImportFunc => 0xF1,
            Opcode::Export => 0xF2,
            Opcode::CibLoad => 0xF3,
            Opcode::CibSym => 0xF4,
            Opcode::CibCall => 0xF5,
            Opcode::Halt => 0xFE,
            Opcode::Raise => 0xFF,
        }
    }
}

/// The static table entry of an opcode.
pub fn opcode_info(op: Opcode) -> (r: OpcodeInfo)
    ensures
        r.mnemonic == op.mnemonic(),
        r.operand_size == op.operand_size(),
        r.stack_effect == op.stack_effect(),
        r.flags == op.flags(),
{
    match op {
        Opcode::Nop => OpcodeInfo { mnemonic: "nop", operand_size: 0, stack_effect: 0, flags: OpFlags { has_func: false, has_string: false, has_const: false, has_global: false, is_jump: false, terminator: false } },
        Opcode::PushTrue => OpcodeInfo { mnemonic: "push_true", operand_size: 0, stack_effect: 1, flags: OpFlags { has_func: false, has_string: false, has_const: false, has_global: false, is_jump: false, terminator: false } },
        Opcode::PushFalse => OpcodeInfo { mnemonic: "push_false", operand_size: 0, stack_effect: 1, flags: OpFlags { has_func: false, has_string: false, has_const: false, has_global: false, is_jump: false, terminator: false } },
        Opcode::PushNil => OpcodeInfo { mnemonic: "push_nil", operand_size: 0, stack_effect: 1, flags: OpFlags { has_func: false, has_string: false, has_const: false, has_global: false, is_jump: false, terminator: false } },
        Opcode::PushI32 => OpcodeInfo { mnemonic: "push_i32", operand_size: 4, stack_effect: 1, flags: OpFlags { has_func: false, has_string: false, has_const: false, has_global: false, is_jump: false, terminator: false } },
        Opcode::PushI64 => OpcodeInfo { mnemonic: "push_i64", operand_size: 8, stack_effect: 1, flags: OpFlags { has_func: false, has_string: false, has_const: false, has_global: false, is_jump: false, terminator: false } },
        Opcode::PushF32 => OpcodeInfo { mnemonic: "push_f32", operand_size: 4, stack_effect: 1, flags: OpFlags { has_func: false, has_string: false, has_const: false, has_global: false, is_jump: false, terminator: false } },
        Opcode::PushF64 => OpcodeInfo { mnemonic: "push_f64", operand_size: 8, stack_effect: 1, flags: OpFlags { has_func: false, has_string: false, has_const: false, has_global: false, is_jump: false, terminator: false } },
        Opcode::PushString => OpcodeInfo { mnemonic: "push_string", operand_size: 2, stack_effect: 1, flags: OpFlags { has_func: false, has_string: true, has_const: false, has_global: false, is_jump: false, terminator: false } },
        Opcode::PushConst => OpcodeInfo { mnemonic: "push_const", operand_size: 2, stack_effect: 1, flags: OpFlags { has_func: false, has_string: false, has_const: true, has_global: false, is_jump: false, terminator: false } },
        Opcode::Dup => OpcodeInfo { mnemonic: "dup", operand_size: 0, stack_effect: 1, flags: OpFlags { has_func: false, has_string: false, has_const: false, has_global: false, is_jump: false, terminator: false } },
        Opcode::Swap => OpcodeInfo { mnemonic: "swap", operand_size: 0, stack_effect: 0, flags: OpFlags { has_func: false, has_string: false, has_const: false, has_global: false, is_jump: false, terminator: false } },
        Opcode::Pop => OpcodeInfo { mnemonic: "pop", operand_size: 0, stack_effect: -1, flags: OpFlags { has_func: false, has_string: false, has_const: false, has_global: false, is_jump: false, terminator: false } },
        Opcode::PopN => OpcodeInfo { mnemonic: "pop_n", operand_size: 1, stack_effect: 0, flags: OpFlags { has_func: false, has_string: false, has_const: false, has_global: false, is_jump: false, terminator: false } },
        Opcode::Rot => OpcodeInfo { mnemonic: "rot", operand_size: 0, stack_effect: 0, flags: OpFlags { has_func: false, has_string: false, has_const: false, has_global: false, is_jump: false, terminator: false } },
        Opcode::Add => OpcodeInfo { mnemonic: "add", operand_size: 0, stack_effect: -1, flags: OpFlags { has_func: false, has_string: false, has_const: false, has_global: false, is_jump: false, terminator: false } },
        Opcode::Sub => OpcodeInfo { mnemonic: "sub", operand_size: 0, stack_effect: -1, flags: OpFlags { has_func: false, has_string: false, has_const: false, has_global: false, is_jump: false, terminator: false } },
        Opcode::Mul => OpcodeInfo { mnemonic: "mul", operand_size: 0, stack_effect: -1, flags: OpFlags { has_func: false, has_string: false, has_const: false, has_global: false, is_jump: false, terminator: false } },
        Opcode::Div => OpcodeInfo { mnemonic: "div", operand_size: 0, stack_effect: -1, flags: OpFlags { has_func: false, has_string: false, has_const: false, has_global: false, is_jump: false, terminator: false } },
        Opcode::Mod => OpcodeInfo { mnemonic: "mod", operand_size: 0, stack_effect: -1, flags: OpFlags { has_func: false, has_string: false, has_const: false, has_global: false, is_jump: false, terminator: false } },
        Opcode::Neg => OpcodeInfo { mnemonic: "neg", operand_size: 0, stack_effect: 0, flags: OpFlags { has_func: false, has_string: false, has_const: false, has_global: false, is_jump: false, terminator: false } },
        Opcode::Inc => OpcodeInfo { mnemonic: "inc", operand_size: 0, stack_effect: 0, flags: OpFlags { has_func: false, has_string: false, has_const: false, has_global: false, is_jump: false, terminator: false } },
        Opcode::Dec => OpcodeInfo { mnemonic: "dec", operand_size: 0, stack_effect: 0, flags: OpFlags { has_func: false, has_string: false, has_const: false, has_global: false, is_jump: false, terminator: false } },
        Opcode::Abs => OpcodeInfo { mnemonic: "abs", operand_size: 0, stack_effect: 0, flags: OpFlags { has_func: false, has_string: false, has_const: false, has_global: false, is_jump: false, terminator: false } },
        Opcode::Pow => OpcodeInfo { mnemonic: "pow", operand_size: 0, stack_effect: -1, flags: OpFlags { has_func: false, has_string: false, has_const: false, has_global: false, is_jump: false, terminator: false } },
        Opcode::FAdd => OpcodeInfo { mnemonic: "fadd", operand_size: 0, stack_effect: -1, flags: OpFlags { has_func: false, has_string: false, has_const: false, has_global: false, is_jump: false, terminator: false } },
        Opcode::FSub => OpcodeInfo { mnemonic: "fsub", operand_size: 0, stack_effect: -1, flags: OpFlags { has_func: false, has_string: false, has_const: false, has_global: false, is_jump: false, terminator: false } },
        Opcode::FMul => OpcodeInfo { mnemonic: "fmul", operand_size: 0, stack_effect: -1, flags: OpFlags { has_func: false, has_string: false, has_const: false, has_global: false, is_jump: false, terminator: false } },
        Opcode::FDiv => OpcodeInfo { mnemonic: "fdiv", operand_size: 0, stack_effect: -1, flags: OpFlags { has_func: false, has_string: false, has_const: false, has_global: false, is_jump: false, terminator: false } },
        Opcode::FNeg => OpcodeInfo { mnemonic: "fneg", operand_size: 0, stack_effect: 0, flags: OpFlags { has_func: false, has_string: false, has_const: false, has_global: false, is_jump: false, terminator: false } },
        Opcode::BitAnd => OpcodeInfo { mnemonic: "bit_and", operand_size: 0, stack_effect: -1, flags: OpFlags { has_func: false, has_string: false, has_const: false, has_global: false, is_jump: false, terminator: false } },
        Opcode::BitOr => OpcodeInfo { mnemonic: "bit_or", operand_size: 0, stack_effect: -1, flags: OpFlags { has_func: false, has_string: false, has_const: false, has_global: false, is_jump: false, terminator: false } },
        Opcode::BitXor => OpcodeInfo { mnemonic: "bit_xor", operand_size: 0, stack_effect: -1, flags: OpFlags { has_func: false, has_string: false, has_const: false, has_global: false, is_jump: false, terminator: false } },
        Opcode::BitNot => OpcodeInfo { mnemonic: "bit_not", operand_size: 0, stack_effect: 0, flags: OpFlags { has_func: false, has_string: false, has_const: false, has_global: false, is_jump: false, terminator: false } },
        Opcode::Shl => OpcodeInfo { mnemonic: "shl", operand_size: 0, stack_effect: -1, flags: OpFlags { has_func: false, has_string: false, has_const: false, has_global: false, is_jump: false, terminator: false } },
        Opcode::Shr => OpcodeInfo { mnemonic: "shr", operand_size: 0, stack_effect: -1, flags: OpFlags { has_func: false, has_string: false, has_const: false, has_global: false, is_jump: false, terminator: false } },
        Opcode::Eq => OpcodeInfo { mnemonic: "eq", operand_size: 0, stack_effect: -1, flags: OpFlags { has_func: false, has_string: false, has_const: false, has_global: false, is_jump: false, terminator: false } },
        Opcode::Ne => OpcodeInfo { mnemonic: "ne", operand_size: 0, stack_effect: -1, flags: OpFlags { has_func: false, has_string: false, has_const: false, has_global: false, is_jump: false, terminator: false } },
        Opcode::Lt => OpcodeInfo { mnemonic: "lt", operand_size: 0, stack_effect: -1, flags: OpFlags { has_func: false, has_string: false, has_const: false, has_global: false, is_jump: false, terminator: false } },
        Opcode::Le => OpcodeInfo { mnemonic: "le", operand_size: 0, stack_effect: -1, flags: OpFlags { has_func: false, has_string: false, has_const: false, has_global: false, is_jump: false, terminator: false } },
        Opcode::Gt => OpcodeInfo { mnemonic: "gt", operand_size: 0, stack_effect: -1, flags: OpFlags { has_func: false, has_string: false, has_const: false, has_global: false, is_jump: false, terminator: false } },
        Opcode::Ge => OpcodeInfo { mnemonic: "ge", operand_size: 0, stack_effect: -1, flags: OpFlags { has_func: false, has_string: false, has_const: false, has_global: false, is_jump: false, terminator: false } },
        Opcode::And => OpcodeInfo { mnemonic: "and", operand_size: 0, stack_effect: -1, flags: OpFlags { has_func: false, has_string: false, has_const: false, has_global: false, is_jump: false, terminator: false } },
        Opcode::Or => OpcodeInfo { mnemonic: "or", operand_size: 0, stack_effect: -1, flags: OpFlags { has_func: false, has_string: false, has_const: false, has_global: false, is_jump: false, terminator: false } },
        Opcode::Not => OpcodeInfo { mnemonic: "not", operand_size: 0, stack_effect: 0, flags: OpFlags { has_func: false, has_string: false, has_const: false, has_global: false, is_jump: false, terminator: false } },
        Opcode::TypeOf => OpcodeInfo { mnemonic: "type_of", operand_size: 0, stack_effect: 0, flags: OpFlags { has_func: false, has_string: false, has_const: false, has_global: false, is_jump: false, terminator: false } },
        Opcode::ToI32 => OpcodeInfo { mnemonic: "to_i32", operand_size: 0, stack_effect: 0, flags: OpFlags { has_func: false, has_string: false, has_const: false, has_global: false, is_jump: false, terminator: false } },
        Opcode::ToI64 => OpcodeInfo { mnemonic: "to_i64", operand_size: 0, stack_effect: 0, flags: OpFlags { has_func: false, has_string: false, has_const: false, has_global: false, is_jump: false, terminator: false } },
        Opcode::ToF32 => OpcodeInfo { mnemonic: "to_f32", operand_size: 0, stack_effect: 0, flags: OpFlags { has_func: false, has_string: false, has_const: false, has_global: false, is_jump: false, terminator: false } },
        Opcode::ToF64 => OpcodeInfo { mnemonic: "to_f64", operand_size: 0, stack_effect: 0, flags: OpFlags { has_func: false, has_string: false, has_const: false, has_global: false, is_jump: false, terminator: false } },
        Opcode::ToBool => OpcodeInfo { mnemonic: "to_bool", operand_size: 0, stack_effect: 0, flags: OpFlags { has_func: false, has_string: false, has_const: false, has_global: false, is_jump: false, terminator: false } },
        Opcode::ToString => OpcodeInfo { mnemonic: "to_string", operand_size: 0, stack_effect: 0, flags: OpFlags { has_func: false, has_string: false, has_const: false, has_global: false, is_jump: false, terminator: false } },
        Opcode::EnumCreate => OpcodeInfo { mnemonic: "enum_create", operand_size: 0, stack_effect: -1, flags: OpFlags { has_func: false, has_string: false, has_const: false, has_global: false, is_jump: false, terminator: false } },
        Opcode::EnumMatch => OpcodeInfo { mnemonic: "enum_match", operand_size: 0, stack_effect: 0, flags: OpFlags { has_func: false, has_string: false, has_const: false, has_global: false, is_jump: false, terminator: false } },
        Opcode::Return => OpcodeInfo { mnemonic: "return", operand_size: 0, stack_effect: 0, flags: OpFlags { has_func: false, has_string: false, has_const: false, has_global: false, is_jump: false, terminator: true } },
        Opcode::ReturnValue => OpcodeInfo { mnemonic: "return_value", operand_size: 0, stack_effect: -1, flags: OpFlags { has_func: false, has_string: false, has_const: false, has_global: false, is_jump: false, terminator: true } },
        Opcode::Jump => OpcodeInfo { mnemonic: "jump", operand_size: 2, stack_effect: 0, flags: OpFlags { has_func: false, has_string: false, has_const: false, has_global: false, is_jump: true, terminator: false } },
        Opcode::JumpIfFalse => OpcodeInfo { mnemonic: "jump_if_false", operand_size: 2, stack_effect: -1, flags: OpFlags { has_func: false, has_string: false, has_const: false, has_global: false, is_jump: true, terminator: false } },
        Opcode::JumpIfTrue => OpcodeInfo { mnemonic: "jump_if_true", operand_size: 2, stack_effect: -1, flags: OpFlags { has_func: false, has_string: false, has_const: false, has_global: false, is_jump: true, terminator: false } },
        Opcode::ForPrep => OpcodeInfo { mnemonic: "for_prep", operand_size: 2, stack_effect: 0, flags: OpFlags { has_func: false, has_string: false, has_const: false, has_global: false, is_jump: true, terminator: false } },
        Opcode::ForStep => OpcodeInfo { mnemonic: "for_step", operand_size: 2, stack_effect: 0, flags: OpFlags { has_func: false, has_string: false, has_const: false, has_global: false, is_jump: true, terminator: false } },
        Opcode::GetIter => OpcodeInfo { mnemonic: "get_iter", operand_size: 0, stack_effect: 0, flags: OpFlags { has_func: false, has_string: false, has_const: false, has_global: false, is_jump: false, terminator: false } },
        Opcode::Next => OpcodeInfo { mnemonic: "next", operand_size: 2, stack_effect: 1, flags: OpFlags { has_func: false, has_string: false, has_const: false, has_global: false, is_jump: true, terminator: false } },
        Opcode::Call => OpcodeInfo { mnemonic: "call", operand_size: 2, stack_effect: 0, flags: OpFlags { has_func: true, has_string: false, has_const: false, has_global: false, is_jump: false, terminator: false } },
        Opcode::CallValue => OpcodeInfo { mnemonic: "call_value", operand_size: 0, stack_effect: -1, flags: OpFlags { has_func: false, has_string: false, has_const: false, has_global: false, is_jump: false, terminator: false } },
        Opcode::CallMethod => OpcodeInfo { mnemonic: "call_method", operand_size: 2, stack_effect: 0, flags: OpFlags { has_func: false, has_string: true, has_const: false, has_global: false, is_jump: false, terminator: false } },
        Opcode::NewArray => OpcodeInfo { mnemonic: "new_array", operand_size: 2, stack_effect: 1, flags: OpFlags { has_func: false, has_string: false, has_const: false, has_global: false, is_jump: false, terminator: false } },
        Opcode::ArrayLen => OpcodeInfo { mnemonic: "array_len", operand_size: 0, stack_effect: 0, flags: OpFlags { has_func: false, has_string: false, has_const: false, has_global: false, is_jump: false, terminator: false } },
        Opcode::ArrayGet => OpcodeInfo { mnemonic: "array_get", operand_size: 0, stack_effect: -1, flags: OpFlags { has_func: false, has_string: false, has_const: false, has_global: false, is_jump: false, terminator: false } },
        Opcode::ArraySet => OpcodeInfo { mnemonic: "array_set", operand_size: 0, stack_effect: -3, flags: OpFlags { has_func: false, has_string: false, has_const: false, has_global: false, is_jump: false, terminator: false } },
        Opcode::ArrayPush => OpcodeInfo { mnemonic: "array_push", operand_size: 0, stack_effect: -1, flags: OpFlags { has_func: false, has_string: false, has_const: false, has_global: false, is_jump: false, terminator: false } },
        Opcode::ArrayPop => OpcodeInfo { mnemonic: "array_pop", operand_size: 0, stack_effect: 0, flags: OpFlags { has_func: false, has_string: false, has_const: false, has_global: false, is_jump: false, terminator: false } },
        Opcode::NewMap => OpcodeInfo { mnemonic: "new_map", operand_size: 0, stack_effect: 1, flags: OpFlags { has_func: false, has_string: false, has_const: false, has_global: false, is_jump: false, terminator: false } },
        Opcode::MapGet => OpcodeInfo { mnemonic: "map_get", operand_size: 0, stack_effect: -1, flags: OpFlags { has_func: false, has_string: false, has_const: false, has_global: false, is_jump: false, terminator: false } },
        Opcode::MapSet => OpcodeInfo { mnemonic: "map_set", operand_size: 0, stack_effect: -2, flags: OpFlags { has_func: false, has_string: false, has_const: false, has_global: false, is_jump: false, terminator: false } },
        Opcode::MapDel => OpcodeInfo { mnemonic: "map_del", operand_size: 0, stack_effect: -1, flags: OpFlags { has_func: false, has_string: false, has_const: false, has_global: false, is_jump: false, terminator: false } },
        Opcode::StrLen => OpcodeInfo { mnemonic: "str_len", operand_size: 0, stack_effect: 0, flags: OpFlags { has_func: false, has_string: false, has_const: false, has_global: false, is_jump: false, terminator: false } },
        Opcode::StrSub => OpcodeInfo { mnemonic: "str_sub", operand_size: 0, stack_effect: -2, flags: OpFlags { has_func: false, has_string: false, has_const: false, has_global: false, is_jump: false, terminator: false } },
        Opcode::MakeClosure => OpcodeInfo { mnemonic: "make_closure", operand_size: 2, stack_effect: 1, flags: OpFlags { has_func: true, has_string: false, has_const: false, has_global: false, is_jump: false, terminator: false } },
        Opcode::NewNamespace => OpcodeInfo { mnemonic: "new_namespace", operand_size: 2, stack_effect: 1, flags: OpFlags { has_func: false, has_string: true, has_const: false, has_global: false, is_jump: false, terminator: false } },
        Opcode::NewClass => OpcodeInfo { mnemonic: "new_class", operand_size: 0, stack_effect: 0, flags: OpFlags { has_func: false, has_string: false, has_const: false, has_global: false, is_jump: false, terminator: false } },
        Opcode::NewObject => OpcodeInfo { mnemonic: "new_object", operand_size: 0, stack_effect: 0, flags: OpFlags { has_func: false, has_string: false, has_const: false, has_global: false, is_jump: false, terminator: false } },
        Opcode::InitStruct => OpcodeInfo { mnemonic: "init_struct", operand_size: 2, stack_effect: 1, flags: OpFlags { has_func: false, has_string: false, has_const: false, has_global: false, is_jump: false, terminator: false } },
        Opcode::GetField => OpcodeInfo { mnemonic: "get_field", operand_size: 2, stack_effect: 0, flags: OpFlags { has_func: false, has_string: true, has_const: false, has_global: false, is_jump: false, terminator: false } },
        Opcode::SetField => OpcodeInfo { mnemonic: "set_field", operand_size: 2, stack_effect: -2, flags: OpFlags { has_func: false, has_string: true, has_const: false, has_global: false, is_jump: false, terminator: false } },
        Opcode::GetAttr => OpcodeInfo { mnemonic: "get_attr", operand_size: 2, stack_effect: 0, flags: OpFlags { has_func: false, has_string: true, has_const: false, has_global: false, is_jump: false, terminator: false } },
        Opcode::SetAttr => OpcodeInfo { mnemonic: "set_attr", operand_size: 2, stack_effect: -2, flags: OpFlags { has_func: false, has_string: true, has_const: false, has_global: false, is_jump: false, terminator: false } },
        Opcode::LoadLocal => OpcodeInfo { mnemonic: "load_local", operand_size: 2, stack_effect: 1, flags: OpFlags { has_func: false, has_string: false, has_const: false, has_global: false, is_jump: false, terminator: false } },
        Opcode::StoreLocal => OpcodeInfo { mnemonic: "store_local", operand_size: 2, stack_effect: -1, flags: OpFlags { has_func: false, has_string: false, has_const: false, has_global: false, is_jump: false, terminator: false } },
        Opcode::LoadGlobal => OpcodeInfo { mnemonic: "load_global", operand_size: 2, stack_effect: 1, flags: OpFlags { has_func: false, has_string: false, has_const: false, has_global: true, is_jump: false, terminator: false } },
        Opcode::StoreGlobal => OpcodeInfo { mnemonic: "store_global", operand_size: 2, stack_effect: -1, flags: OpFlags { has_func: false, has_string: false, has_const: false, has_global: true, is_jump: false, terminator: false } },
        Opcode::AllocFrame => OpcodeInfo { mnemonic: "alloc_frame", operand_size: 2, stack_effect: 0, flags: OpFlags { has_func: false, has_string: false, has_const: false, has_global: false, is_jump: false, terminator: false } },
        Opcode::HasAttr => OpcodeInfo { mnemonic: "has_attr", operand_size: 2, stack_effect: 0, flags: OpFlags { has_func: false, has_string: true, has_const: false, has_global: false, is_jump: false, terminator: false } },
        Opcode::ClassAddField => OpcodeInfo { mnemonic: "class_add_field", operand_size: 2, stack_effect: -1, flags: OpFlags { has_func: false, has_string: true, has_const: false, has_global: false, is_jump: false, terminator: false } },
        Opcode::ClassAddMethod => OpcodeInfo { mnemonic: "class_add_method", operand_size: 2, stack_effect: -2, flags: OpFlags { has_func: false, has_string: true, has_const: false, has_global: false, is_jump: false, terminator: false } },
        Opcode::ClassSetParent => OpcodeInfo { mnemonic: "class_set_parent", operand_size: 0, stack_effect: -1, flags: OpFlags { has_func: false, has_string: false, has_const: false, has_global: false, is_jump: false, terminator: false } },
        Opcode::Import => OpcodeInfo { mnemonic: "import", operand_size: 2, stack_effect: 1, flags: OpFlags { has_func: false, has_string: true, has_const: false, has_global: false, is_jump: false, terminator: false } },
        Opcode::ImportFunc => OpcodeInfo { mnemonic: "import_func", operand_size: 2, stack_effect: 0, flags: OpFlags { has_func: false, has_string: true, has_const: false, has_global: false, is_jump: false, terminator: false } },
        Opcode::Export => OpcodeInfo { mnemonic: "export", operand_size: 2, stack_effect: -1, flags: OpFlags { has_func: false, has_string: true, has_const: false, has_global: false, is_jump: false, terminator: false } },
        Opcode::CibLoad => OpcodeInfo { mnemonic: "cib_load", operand_size: 0, stack_effect: 0, flags: OpFlags { has_func: false, has_string: false, has_const: false, has_global: false, is_jump: false, terminator: false } },
        Opcode::CibSym => OpcodeInfo { mnemonic: "cib_sym", operand_size: 0, stack_effect: -1, flags: OpFlags { has_func: false, has_string: false, has_const: false, has_global: false, is_jump: false, terminator: false } },
        Opcode::CibCall => OpcodeInfo { mnemonic: "cib_call", operand_size: 0, stack_effect: -1, flags: OpFlags { has_func: false, has_string: false, has_const: false, has_global: false, is_jump: false, terminator: false } },
        Opcode::Halt => OpcodeInfo { mnemonic: "halt", operand_size: 0, stack_effect: 0, flags: OpFlags { has_func: false, has_string: false, has_const: false, has_global: false, is_jump: false, terminator: true } },
        Opcode::Raise => OpcodeInfo { mnemonic: "raise", operand_size: 0, stack_effect: -1, flags: OpFlags { has_func: false, has_string: false, has_const: false, has_global: false, is_jump: false, terminator: true } },
    }
}

/// Encoding an opcode and decoding the byte gives the opcode back.
pub proof fn lemma_decode_encode(op: Opcode)
    ensures
        Opcode::spec_from_byte(op.byte()) == Some(op),
{
}

/// A byte that decodes to an opcode is that opcode's encoding.
pub proof fn lemma_encode_decode(b: u8)
    ensures
        Opcode::spec_from_byte(b) matches Some(op) ==> op.byte() == b,
{
}

/// Operands are 0, 1, 2, 4 or 8 bytes long; jump operands are 2 bytes long.
pub proof fn lemma_operand_sizes(op: Opcode)
    ensures
        op.operand_size() == 0 || op.operand_size() == 1 || op.operand_size() == 2
            || op.operand_size() == 4 || op.operand_size() == 8,
        op.flags().is_jump ==> op.operand_size() == 2,
{
}

// ── What the value opcodes compute ──

/// What an arithmetic opcode computes from two integer operands, `a`
/// pushed before `b`: `a + b`, `a - b`, `a * b`, and for `a >= 0`, `b > 0`
/// the quotient and remainder of `a` by `b`. `None` for other opcodes
/// (and for division of other operands, whose rounding the format leaves
/// to the machine).
pub open spec fn int_binary(op: Opcode, a: int, b: int) -> Option<int> {
    match op {
        Opcode::Add => Some(a + b),
        Opcode::Sub => Some(a - b),
        Opcode::Mul => Some(a * b),
        Opcode::Div => if a >= 0 && b > 0 {
            Some(a / b)
        } else {
            None
        },
        Opcode::Mod => if a >= 0 && b > 0 {
            Some(a % b)
        } else {
            None
        },
        _ => None,
    }
}

/// What a comparison opcode decides of two integer operands, `a` pushed
/// before `b`. `None` for other opcodes.
pub open spec fn int_compare(op: Opcode, a: int, b: int) -> Option<bool> {
    match op {
        Opcode::Eq => Some(a == b),
        Opcode::Ne => Some(a != b),
        Opcode::Lt => Some(a < b),
        Opcode::Le => Some(a <= b),
        Opcode::Gt => Some(a > b),
        Opcode::Ge => Some(a >= b),
        _ => None,
    }
}

/// What a unary opcode computes from an integer operand: its negation for
/// `Neg`, its bitwise complement for `BitNot`. `None` for other opcodes.
pub open spec fn int_unary(op: Opcode, a: int) -> Option<int> {
    match op {
        Opcode::Neg => Some(-a),
        Opcode::BitNot => Some(-a - 1),
        _ => None,
    }
}

/// What the opcode encoded by `b` computes from two integers.
pub open spec fn byte_binary(b: u8, x: int, y: int) -> Option<int> {
    match Opcode::spec_from_byte(b) {
        Some(op) => int_binary(op, x, y),
        None => None,
    }
}

/// What the opcode encoded by `b` decides of two integers.
pub open spec fn byte_compare(b: u8, x: int, y: int) -> Option<bool> {
    match Opcode::spec_from_byte(b) {
        Some(op) => int_compare(op, x, y),
        None => None,
    }
}

/// What the opcode encoded by `b` computes from one integer.
pub open spec fn byte_unary(b: u8, x: int) -> Option<int> {
    match Opcode::spec_from_byte(b) {
        Some(op) => int_unary(op, x),
        None => None,
    }
}

} // verus!
