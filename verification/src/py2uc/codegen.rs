//! Bytecode generation for Python syntax trees.
//!
//! The generator keeps a code buffer for the function being emitted, the
//! module whose string pool names are interned into, the functions finished
//! so far and a counter for fresh hidden names. Its effect is stated as the
//! spec functions `gen_expr` / `gen_stmt` over a model `CgState` of that
//! context; they yield `None` where emission would overrun a machine limit
//! (a full string pool, a jump farther than 16 bits can express, a frame
//! size past `u16`) or where the tree is malformed (a `Compare` with fewer
//! comparators than operators, a `BoolOp` without operands).
use vstd::prelude::*;

use crate::bytecode::builder::{same_but_strings, ModuleBuilder};
use crate::bytecode::le::le_bytes;
use crate::bytecode::module::{default_header, interned, FuncRef, FunctionDef, ModuleHeader, UtenModule};
use crate::bytecode::writer::push_le;
use crate::opcodes::{byte_binary, byte_compare, byte_unary, Opcode};
use crate::py2uc::ast::{
    Alias, Arg, BinOp, BoolOp, CmpOp, Expr, FStringPart, Keyword, Program, Slice, Stmt, UnaryOp,
    WithItem,
};
use crate::names::string_views;
use crate::text::{contains_str, decimal, u32_to_decimal};

verus! {

// ── Model ──

/// A finished function, as the generator records it.
#[verifier::ext_equal]
pub struct FnModel {
    pub name: Seq<char>,
    pub code: Seq<u8>,
    pub n_locals: u16,
    pub n_params: u16,
}

/// The generator's context: string pool, finished functions, the code of
/// the function being emitted, and the hidden-name counter.
#[verifier::ext_equal]
pub struct CgState {
    pub pool: Seq<Seq<char>>,
    pub funcs: Seq<FnModel>,
    pub cur: Seq<u8>,
    pub fc: int,
}

/// An opcode with a 16-bit operand.
pub open spec fn op16(op: Opcode, v: u16) -> Seq<u8> {
    seq![op.byte()] + le_bytes(v as nat, 2)
}

/// `PushI32 v`.
pub open spec fn push_i32_code(v: i32) -> Seq<u8> {
    seq![Opcode::PushI32.byte()] + le_bytes((v as u32) as nat, 4)
}

/// `st` with `b` appended to the current code.
pub open spec fn emit(st: CgState, b: Seq<u8>) -> CgState {
    CgState { pool: st.pool, funcs: st.funcs, cur: st.cur + b, fc: st.fc }
}

/// `st` with `s` interned, and the 16-bit id it gets.
pub open spec fn intern_name(st: CgState, s: Seq<char>) -> Option<(CgState, u16)> {
    if st.pool.len() < u32::MAX {
        let (p, id) = interned(st.pool, s);
        Some((CgState { pool: p, funcs: st.funcs, cur: st.cur, fc: st.fc }, id as u16))
    } else {
        None
    }
}

/// Interns `s` and emits `op` with its id.
pub open spec fn emit_named(st: CgState, op: Opcode, s: Seq<char>) -> Option<CgState> {
    match intern_name(st, s) {
        Some((s1, id)) => Some(emit(s1, op16(op, id))),
        None => None,
    }
}

/// The 16-bit offset of a jump whose operand ends at `from + 3` and that
/// lands at `to`, computed in `i16` as the generator does.
pub open spec fn rel(to: int, from: int) -> Option<i16> {
    let d = (to as i16) as int - (from as i16) as int;
    if i16::MIN <= d <= i16::MAX && i16::MIN <= d - 3 {
        Some((d - 3) as i16)
    } else {
        None
    }
}

/// `code` with the two bytes at `at` replaced by `v`, little-endian.
pub open spec fn patched(code: Seq<u8>, at: int, v: i16) -> Seq<u8> {
    code.subrange(0, at) + le_bytes((v as u16) as nat, 2) + code.subrange(at + 2, code.len() as int)
}

/// Fixes up the forward jump whose opcode stands at `j` to land at the end
/// of the current code.
pub open spec fn patch_forward(st: CgState, j: int) -> Option<CgState> {
    match rel(st.cur.len() as int, j) {
        Some(t) => if j + 3 <= st.cur.len() {
            Some(CgState { pool: st.pool, funcs: st.funcs, cur: patched(st.cur, j + 1, t), fc: st.fc })
        } else {
            None
        },
        None => None,
    }
}

/// The byte a binary operator compiles to.
pub open spec fn bop_byte(o: BinOp) -> u8 {
    match o {
        BinOp::Add => Opcode::Add.byte(),
        BinOp::Sub => Opcode::Sub.byte(),
        BinOp::Mul => Opcode::Mul.byte(),
        BinOp::Div => Opcode::Div.byte(),
        BinOp::Mod => Opcode::Mod.byte(),
        BinOp::FloorDiv => Opcode::Div.byte(),
        BinOp::Pow => Opcode::Mul.byte(),
        _ => Opcode::Add.byte(),
    }
}

/// The byte a comparison operator compiles to.
pub open spec fn cop_byte(o: CmpOp) -> u8 {
    match o {
        CmpOp::Eq => Opcode::Eq.byte(),
        CmpOp::NotEq => Opcode::Ne.byte(),
        CmpOp::Lt => Opcode::Lt.byte(),
        CmpOp::LtE => Opcode::Le.byte(),
        CmpOp::Gt => Opcode::Gt.byte(),
        CmpOp::GtE => Opcode::Ge.byte(),
        _ => Opcode::Eq.byte(),
    }
}

/// The byte a unary operator compiles to (0 for those without one).
pub open spec fn unary_byte(o: UnaryOp) -> u8 {
    match o {
        UnaryOp::USub => Opcode::Neg.byte(),
        UnaryOp::Not => Opcode::Not.byte(),
        _ => 0,
    }
}

/// `b` repeated `n` times.
pub open spec fn repeat_byte(b: u8, n: nat) -> Seq<u8> {
    Seq::new(n, |i: int| b)
}

/// Binds the parameters `args` to globals of their names: parameter `i` is
/// loaded from local `i` and stored under its name.
pub open spec fn gen_params(args: Seq<Arg>, st: CgState) -> Option<CgState>
    decreases args.len(),
{
    if args.len() == 0 {
        Some(st)
    } else {
        match gen_params(args.drop_last(), st) {
            Some(s0) => {
                let i = (args.len() - 1) as u16;
                emit_named(
                    emit(s0, seq![Opcode::LoadLocal.byte()] + le_bytes(i as nat, 2)),
                    Opcode::StoreGlobal,
                    args.last().arg@,
                )
            },
            None => None,
        }
    }
}

/// Ends the function whose code is current: records it under `name` and
/// resumes the enclosing code `saved`. Its index is `st.funcs.len()`.
pub open spec fn close_fn(
    st: CgState,
    saved: Seq<u8>,
    name: Seq<char>,
    n_locals: u16,
    n_params: u16,
) -> CgState {
    CgState {
        pool: st.pool,
        funcs: st.funcs.push(FnModel { name, code: st.cur, n_locals, n_params }),
        cur: saved,
        fc: st.fc,
    }
}

/// Whether a call names one of the builtins compiled to an empty array
/// after their arguments are evaluated and dropped.
pub open spec fn is_dropping_builtin(n: Seq<char>) -> bool {
    n == "enumerate"@ || n == "zip"@ || n == "list"@ || n == "sorted"@ || n == "reversed"@ || n
        == "map"@ || n == "filter"@
}

// ── Expressions ──

/// The code of an expression.
pub open spec fn gen_expr(e: Expr, st: CgState) -> Option<CgState>
    decreases e, 3int,
{
    match e {
        Expr::Name(n) => emit_named(st, Opcode::LoadGlobal, n@),
        Expr::Int(v) => Some(emit(st, push_i32_code(v as i32))),
        Expr::Float(bits) => Some(emit(st, seq![Opcode::PushF64.byte()] + le_bytes(bits as nat, 8))),
        Expr::Str(s) => emit_named(st, Opcode::PushString, s@),
        Expr::Bool(b) => Some(
            emit(
                st,
                seq![
                    if b {
                        Opcode::PushTrue.byte()
                    } else {
                        Opcode::PushFalse.byte()
                    },
                ],
            ),
        ),
        Expr::None_ => Some(emit(st, seq![Opcode::PushNil.byte()])),
        Expr::Lambda { args, body } => {
            let n = args.args@.len() as u16;
            match gen_params(args.args@, CgState { pool: st.pool, funcs: st.funcs, cur: Seq::empty(), fc: st.fc }) {
                Some(s1) => match gen_expr(*body, s1) {
                    Some(s2) => if n + 16 <= u16::MAX {
                        let s3 = close_fn(
                            emit(s2, seq![Opcode::ReturnValue.byte()]),
                            st.cur,
                            "<lambda>"@,
                            (n + 16) as u16,
                            n,
                        );
                        Some(emit(s3, op16(Opcode::MakeClosure, s2.funcs.len() as u16)))
                    } else {
                        None
                    },
                    None => None,
                },
                None => None,
            }
        },
        Expr::List(items) => match gen_exprs(items@, st) {
            Some(s1) => Some(emit(s1, op16(Opcode::NewArray, items@.len() as u16))),
            None => None,
        },
        Expr::Tuple(items) => match gen_exprs(items@, st) {
            Some(s1) => Some(emit(s1, op16(Opcode::NewArray, items@.len() as u16))),
            None => None,
        },
        Expr::SetLiteral(items) => match gen_exprs(items@, st) {
            Some(s1) => Some(emit(s1, op16(Opcode::NewArray, items@.len() as u16))),
            None => None,
        },
        Expr::Dict(items) => match gen_pairs(items@, st) {
            Some(s1) => Some(emit(s1, seq![Opcode::NewMap.byte()])),
            None => None,
        },
        Expr::BinOp { left, op, right } => match gen_expr(*left, st) {
            Some(s1) => match gen_expr(*right, s1) {
                Some(s2) => Some(emit(s2, seq![bop_byte(op)])),
                None => None,
            },
            None => None,
        },
        Expr::UnaryOp { op, operand } => match gen_expr(*operand, st) {
            Some(s1) => Some(emit(s1, seq![unary_byte(op)])),
            None => None,
        },
        Expr::Compare { left, ops, comparators } => if ops@.len() <= comparators@.len() {
            match gen_expr(*left, st) {
                Some(s1) => gen_comparisons(ops@, comparators@, ops@.len() as int, s1),
                None => None,
            }
        } else {
            None
        },
        Expr::BoolOp { op, values } => if values@.len() > 0 {
            match gen_expr(values@[0], st) {
                Some(s1) => gen_bool_rest(
                    values@,
                    values@.len() - 1,
                    if op == BoolOp::And {
                        Opcode::And.byte()
                    } else {
                        Opcode::Or.byte()
                    },
                    s1,
                ),
                None => None,
            }
        } else {
            None
        },
        Expr::Call { func, args, keywords } => gen_call(e, st),
        Expr::Attribute { value, attr } => match gen_expr(*value, st) {
            Some(s1) => emit_named(s1, Opcode::GetField, attr@),
            None => None,
        },
        Expr::Subscript { value, slice } => match gen_expr(*value, st) {
            Some(s1) => match *slice {
                Slice::Index(idx) => match gen_expr(idx, s1) {
                    Some(s2) => Some(emit(s2, seq![Opcode::ArrayGet.byte()])),
                    None => None,
                },
                _ => Some(emit(s1, push_i32_code(0) + seq![Opcode::ArrayGet.byte()])),
            },
            None => None,
        },
        Expr::FString(parts) => if parts@.len() == 0 {
            emit_named(st, Opcode::PushString, Seq::empty())
        } else {
            match gen_fparts(parts@, parts@.len() as int, st) {
                Some(s1) => Some(emit(s1, repeat_byte(Opcode::Add.byte(), (parts@.len() - 1) as nat))),
                None => None,
            }
        },
        Expr::IfExpr { test, body, orelse } => match gen_expr(*test, st) {
            Some(s1) => {
                let j1 = s1.cur.len() as int;
                match gen_expr(*body, emit(s1, op16(Opcode::JumpIfFalse, 0))) {
                    Some(s2) => {
                        let j2 = s2.cur.len() as int;
                        match patch_forward(emit(s2, op16(Opcode::Jump, 0)), j1) {
                            Some(s3) => match gen_expr(*orelse, s3) {
                                Some(s4) => patch_forward(s4, j2),
                                None => None,
                            },
                            None => None,
                        }
                    },
                    None => None,
                }
            },
            None => None,
        },
        Expr::NamedExpr { target, value } => match gen_expr(*value, st) {
            Some(s1) => {
                let s2 = emit(s1, seq![Opcode::Dup.byte()]);
                match *target {
                    Expr::Name(n) => emit_named(s2, Opcode::StoreGlobal, n@),
                    _ => Some(s2),
                }
            },
            None => None,
        },
        _ => Some(emit(st, seq![Opcode::PushNil.byte()])),
    }
}

/// The code of expressions in order.
pub open spec fn gen_exprs(es: Seq<Expr>, st: CgState) -> Option<CgState>
    decreases es, 0int,
{
    if es.len() == 0 {
        Some(st)
    } else {
        match gen_exprs(es.drop_last(), st) {
            Some(s0) => gen_expr(es.last(), s0),
            None => None,
        }
    }
}

/// The code of the expressions of `es` in reverse order.
pub open spec fn gen_exprs_rev(es: Seq<Expr>, n: int, st: CgState) -> Option<CgState>
    decreases es, n,
{
    if n <= 0 || n > es.len() {
        Some(st)
    } else {
        match gen_exprs_rev(es, n - 1, st) {
            Some(s0) => gen_expr(es[es.len() - n], s0),
            None => None,
        }
    }
}

/// The code of the values of the first `n` keyword arguments.
pub open spec fn gen_kw(kw: Seq<Keyword>, n: int, st: CgState) -> Option<CgState>
    decreases kw, n,
{
    if n <= 0 || n > kw.len() {
        Some(st)
    } else {
        match gen_kw(kw, n - 1, st) {
            Some(s0) => gen_expr(kw[n - 1].value, s0),
            None => None,
        }
    }
}

/// The code of the first `n` key/value pairs of a dict display.
pub open spec fn gen_pairs(items: Seq<(Box<Expr>, Box<Expr>)>, st: CgState) -> Option<CgState>
    decreases items, 0int,
{
    if items.len() == 0 {
        Some(st)
    } else {
        match gen_pairs(items.drop_last(), st) {
            Some(s0) => match gen_expr(*items.last().0, s0) {
                Some(s1) => gen_expr(*items.last().1, s1),
                None => None,
            },
            None => None,
        }
    }
}

/// The code of the first `n` links of a comparison chain: each comparator
/// followed by its operator.
pub open spec fn gen_comparisons(ops: Seq<CmpOp>, operands: Seq<Expr>, n: int, st: CgState) -> Option<CgState>
    decreases operands, n,
{
    if n <= 0 || n > operands.len() || n > ops.len() {
        Some(st)
    } else {
        match gen_comparisons(ops, operands, n - 1, st) {
            Some(s0) => match gen_expr(operands[n - 1], s0) {
                Some(s1) => Some(emit(s1, seq![cop_byte(ops[n - 1])])),
                None => None,
            },
            None => None,
        }
    }
}

/// The code of the operands `values[1..=n]` of a boolean operator, each
/// followed by the operator's byte.
pub open spec fn gen_bool_rest(values: Seq<Expr>, n: int, b: u8, st: CgState) -> Option<CgState>
    decreases values, n,
{
    if n <= 0 || n >= values.len() {
        Some(st)
    } else {
        match gen_bool_rest(values, n - 1, b, st) {
            Some(s0) => match gen_expr(values[n], s0) {
                Some(s1) => Some(emit(s1, seq![b])),
                None => None,
            },
            None => None,
        }
    }
}

/// The code of the first `n` parts of an f-string: literals are pushed,
/// expressions converted to strings.
pub open spec fn gen_fparts(parts: Seq<FStringPart>, n: int, st: CgState) -> Option<CgState>
    decreases parts, n,
{
    if n <= 0 || n > parts.len() {
        Some(st)
    } else {
        match gen_fparts(parts, n - 1, st) {
            Some(s0) => match parts[n - 1] {
                FStringPart::Literal(s) => emit_named(s0, Opcode::PushString, s@),
                FStringPart::Expr(x) => match gen_expr(x, s0) {
                    Some(s1) => Some(emit(s1, seq![Opcode::ToString.byte()])),
                    None => None,
                },
            },
            None => None,
        }
    }
}

/// Pushes the arguments of the call `e` (positional ones last to first,
/// then keyword values) and their count.
pub open spec fn gen_call_args(e: Expr, st: CgState) -> Option<CgState>
    decreases e, 1int,
{
    match e {
        Expr::Call { func, args, keywords } => if args@.len() + keywords@.len() <= usize::MAX {
            match gen_exprs_rev(args@, args@.len() as int, st) {
                Some(s1) => match gen_kw(keywords@, keywords@.len() as int, s1) {
                    Some(s2) => Some(
                        emit(s2, push_i32_code((args@.len() + keywords@.len()) as i32)),
                    ),
                    None => None,
                },
                None => None,
            }
        } else {
            None
        },
        _ => Some(st),
    }
}

/// The code of a call expression `e`.
pub open spec fn gen_call(e: Expr, st: CgState) -> Option<CgState>
    decreases e, 2int,
{
    match e {
        Expr::Call { func, args, keywords } => {
            let special = match *func {
                Expr::Name(n) => n@ == "len"@ || n@ == "int"@ || n@ == "str"@ || n@ == "range"@
                    || is_dropping_builtin(n@),
                _ => false,
            };
            if special {
                let n = (*func)->Name_0@;
                match gen_exprs(args@, st) {
                    Some(s1) => Some(
                        emit(
                            s1,
                            if n == "len"@ {
                                seq![Opcode::ArrayLen.byte()]
                            } else if n == "int"@ {
                                seq![Opcode::ToI32.byte(), Opcode::ToI64.byte()]
                            } else if n == "str"@ {
                                seq![Opcode::ToString.byte()]
                            } else if n == "range"@ {
                                op16(Opcode::NewArray, args@.len() as u16)
                            } else {
                                repeat_byte(Opcode::Pop.byte(), args@.len()) + op16(
                                    Opcode::NewArray,
                                    0,
                                )
                            },
                        ),
                    ),
                    None => None,
                }
            } else {
                match *func {
                    Expr::Attribute { value: obj, attr } => if attr@ == "len"@ {
                        match gen_expr(*obj, st) {
                            Some(s1) => Some(emit(s1, seq![Opcode::StrLen.byte()])),
                            None => None,
                        }
                    } else {
                        match gen_call_args(e, st) {
                            Some(s1) => match gen_expr(*obj, s1) {
                                Some(s2) => match emit_named(s2, Opcode::GetField, attr@) {
                                    Some(s3) => Some(emit(s3, seq![Opcode::CallValue.byte()])),
                                    None => None,
                                },
                                None => None,
                            },
                            None => None,
                        }
                    },
                    _ => match gen_call_args(e, st) {
                        Some(s1) => match gen_expr(*func, s1) {
                            Some(s2) => Some(emit(s2, seq![Opcode::CallValue.byte()])),
                            None => None,
                        },
                        None => None,
                    },
                }
            }
        },
        _ => Some(st),
    }
}

// ── What the operators compile to ──

/// What a Python comparison operator decides of two integers; `None` for
/// the identity and membership tests.
pub open spec fn py_compare(o: CmpOp, a: int, b: int) -> Option<bool> {
    match o {
        CmpOp::Eq => Some(a == b),
        CmpOp::NotEq => Some(a != b),
        CmpOp::Lt => Some(a < b),
        CmpOp::LtE => Some(a <= b),
        CmpOp::Gt => Some(a > b),
        CmpOp::GtE => Some(a >= b),
        _ => None,
    }
}

/// What a Python binary operator computes from two integers: sum,
/// difference, product, and for `a >= 0`, `b > 0` the remainder; `None`
/// for the others.
pub open spec fn py_int_binary(o: BinOp, a: int, b: int) -> Option<int> {
    match o {
        BinOp::Add => Some(a + b),
        BinOp::Sub => Some(a - b),
        BinOp::Mul => Some(a * b),
        BinOp::Mod => if a >= 0 && b > 0 {
            Some(a % b)
        } else {
            None
        },
        _ => None,
    }
}

/// Each of Python's six ordering and equality operators compiles to an
/// opcode that decides of any two integers what the operator decides.
pub proof fn lemma_comparisons_compile_faithfully(o: CmpOp, a: int, b: int)
    requires
        py_compare(o, a, b) is Some,
    ensures
        byte_compare(cop_byte(o), a, b) == py_compare(o, a, b),
{
    crate::opcodes::lemma_decode_encode(Opcode::Eq);
    crate::opcodes::lemma_decode_encode(Opcode::Ne);
    crate::opcodes::lemma_decode_encode(Opcode::Lt);
    crate::opcodes::lemma_decode_encode(Opcode::Le);
    crate::opcodes::lemma_decode_encode(Opcode::Gt);
    crate::opcodes::lemma_decode_encode(Opcode::Ge);
}

/// No two of Python's six ordering and equality operators compile to the
/// same opcode.
pub proof fn lemma_comparison_opcodes_distinct(o1: CmpOp, o2: CmpOp)
    requires
        py_compare(o1, 0, 0) is Some,
        py_compare(o2, 0, 0) is Some,
        cop_byte(o1) == cop_byte(o2),
    ensures
        o1 == o2,
{
    lemma_comparisons_compile_faithfully(o1, 0, 1);
    lemma_comparisons_compile_faithfully(o2, 0, 1);
    lemma_comparisons_compile_faithfully(o1, 1, 0);
    lemma_comparisons_compile_faithfully(o2, 1, 0);
    lemma_comparisons_compile_faithfully(o1, 0, 0);
    lemma_comparisons_compile_faithfully(o2, 0, 0);
}

/// Addition, subtraction, multiplication and remainder compile to opcodes
/// that compute of any two integers what the Python operator does.
pub proof fn lemma_arithmetic_compiles_faithfully(o: BinOp, a: int, b: int)
    requires
        py_int_binary(o, a, b) is Some,
    ensures
        byte_binary(bop_byte(o), a, b) == py_int_binary(o, a, b),
{
    crate::opcodes::lemma_decode_encode(Opcode::Add);
    crate::opcodes::lemma_decode_encode(Opcode::Sub);
    crate::opcodes::lemma_decode_encode(Opcode::Mul);
    crate::opcodes::lemma_decode_encode(Opcode::Mod);
}

/// `+`, `-`, `*`, `/` and `%` compile to five different opcodes.
pub proof fn lemma_arithmetic_opcodes_distinct(o1: BinOp, o2: BinOp)
    requires
        o1 is Add || o1 is Sub || o1 is Mul || o1 is Div || o1 is Mod,
        o2 is Add || o2 is Sub || o2 is Mul || o2 is Div || o2 is Mod,
        bop_byte(o1) == bop_byte(o2),
    ensures
        o1 == o2,
{
    crate::opcodes::lemma_decode_encode(Opcode::Add);
    crate::opcodes::lemma_decode_encode(Opcode::Sub);
    crate::opcodes::lemma_decode_encode(Opcode::Mul);
    crate::opcodes::lemma_decode_encode(Opcode::Div);
    crate::opcodes::lemma_decode_encode(Opcode::Mod);
}

/// Unary minus compiles to an opcode that negates any integer, and `not`
/// to a different one.
pub proof fn lemma_negation_compiles_faithfully(a: int)
    ensures
        byte_unary(unary_byte(UnaryOp::USub), a) == Some(-a),
        unary_byte(UnaryOp::Not) != unary_byte(UnaryOp::USub),
        unary_byte(UnaryOp::Not) == Opcode::Not.byte(),
{
    crate::opcodes::lemma_decode_encode(Opcode::Neg);
}

// ── The generator context ──

/// A bytecode buffer.
pub struct Buf(pub Vec<u8>);

impl Buf {
    pub fn new() -> (b: Self)
        ensures
            b.0@ == Seq::<u8>::empty(),
    {
        Buf(Vec::new())
    }

    pub fn push(&mut self, b: u8)
        ensures
            final(self).0@ == old(self).0@.push(b),
    {
        self.0.push(b);
    }

    pub fn push_op(&mut self, op: Opcode)
        ensures
            final(self).0@ == old(self).0@.push(op.byte()),
    {
        self.0.push(op.to_byte());
    }

    pub fn push_u16(&mut self, v: u16)
        ensures
            final(self).0@ == old(self).0@ + le_bytes(v as nat, 2),
    {
        push_le(&mut self.0, v as u64, 2);
    }

    pub fn push_op16(&mut self, op: Opcode, v: u16)
        ensures
            final(self).0@ == old(self).0@ + op16(op, v),
    {
        self.push_op(op);
        self.push_u16(v);
        assert(self.0@ =~= old(self).0@ + op16(op, v));
    }

    pub fn push_i16(&mut self, v: i16)
        ensures
            final(self).0@ == old(self).0@ + le_bytes((v as u16) as nat, 2),
    {
        push_le(&mut self.0, (v as u16) as u64, 2);
    }

    pub fn push_i32(&mut self, v: i32)
        ensures
            final(self).0@ == old(self).0@ + le_bytes((v as u32) as nat, 4),
    {
        push_le(&mut self.0, (v as u32) as u64, 4);
    }

    /// Appends an `f64` given by its IEEE-754 bit pattern.
    pub fn push_f64_bits(&mut self, bits: u64)
        ensures
            final(self).0@ == old(self).0@ + le_bytes(bits as nat, 8),
    {
        push_le(&mut self.0, bits, 8);
    }

    pub fn len(&self) -> (r: usize)
        ensures
            r == self.0@.len(),
    {
        self.0.len()
    }

    /// Overwrites the two bytes at `at` with `v`, little-endian.
    pub fn patch_i16(&mut self, at: usize, v: i16)
        requires
            at + 2 <= old(self).0@.len(),
        ensures
            final(self).0@ == patched(old(self).0@, at as int, v),
    {
        let _n = self.0.len();
        let u = v as u16;
        self.0.set(at, (u % 256) as u8);
        self.0.set(at + 1, (u / 256) as u8);
        proof {
            reveal_with_fuel(le_bytes, 3);
        }
        assert(self.0@ =~= patched(old(self).0@, at as int, v));
    }

    /// Takes the bytes out, leaving the buffer empty.
    pub fn take(&mut self) -> (r: Vec<u8>)
        ensures
            r@ == old(self).0@,
            final(self).0@ == Seq::<u8>::empty(),
    {
        let mut out: Vec<u8> = Vec::new();
        std::mem::swap(&mut out, &mut self.0);
        out
    }
}

/// The model of a finished function.
pub open spec fn fn_model(d: FunctionDef) -> FnModel {
    FnModel { name: d.name@, code: d.bytecode@, n_locals: d.n_locals, n_params: d.n_params }
}

/// The models of a list of functions.
pub open spec fn fn_models(funcs: Seq<FunctionDef>) -> Seq<FnModel> {
    funcs.map_values(|d: FunctionDef| fn_model(d))
}

/// A function as the generator makes them: not variadic, no captures, no
/// type hints, not yet run.
pub open spec fn plain_fn(d: FunctionDef) -> bool {
    &&& !d.is_variadic
    &&& d.n_captures == 0
    &&& d.return_type is None
    &&& d.param_types@.len() == 0
    &&& d.hotness == 0
}

/// The generator context.
pub struct Ctx {
    pub module: UtenModule,
    pub funcs: Vec<FunctionDef>,
    pub cur: Buf,
    pub fc: u32,
}

impl Ctx {
    /// The model of this context.
    pub open spec fn state(&self) -> CgState {
        CgState {
            pool: self.module.pool(),
            funcs: fn_models(self.funcs@),
            cur: self.cur.0@,
            fc: self.fc as int,
        }
    }

    /// Every finished function is plain.
    pub open spec fn wf(&self) -> bool {
        forall|i: int| 0 <= i < self.funcs@.len() ==> plain_fn(#[trigger] self.funcs@[i])
    }

    /// A context for module `name`: a new module, no functions, no code.
    pub fn new(name: &str) -> (c: Self)
        ensures
            c.wf(),
            default_header(c.module.header, name@),
            c.module.header.line_map@.len() == 0,
            c.module.header.name@ == name@,
            c.module.strings@.len() == 0,
            c.funcs@.len() == 0,
            c.cur.0@.len() == 0,
            c.fc == 0,
    {
        Ctx { module: UtenModule::new(name), funcs: Vec::new(), cur: Buf::new(), fc: 0 }
    }

    /// The index the next finished function gets.
    pub fn nf(&self) -> (r: u16)
        ensures
            r == self.funcs@.len() as u16,
    {
        self.funcs.len() as u16
    }

    /// Counts one more hidden name.
    pub fn push_fc(&mut self)
        requires
            old(self).fc < u32::MAX,
        ensures
            final(self).fc == old(self).fc + 1,
            final(self).module == old(self).module,
            final(self).funcs == old(self).funcs,
            final(self).cur == old(self).cur,
    {
        self.fc = self.fc + 1;
    }
}

/// Interns `s` in the module's string pool; its id, cut to 16 bits.
pub fn intern(module: &mut UtenModule, s: &str) -> (r: u16)
    requires
        old(module).strings@.len() < u32::MAX,
    ensures
        final(module).pool() == interned(old(module).pool(), s@).0,
        r == interned(old(module).pool(), s@).1 as u16,
        same_but_strings(*old(module), *final(module)),
{
    module.intern(s) as u16
}

/// The byte of an opcode.
pub fn opb(op: Opcode) -> (r: u8)
    ensures
        r == op.byte(),
{
    op.to_byte()
}

/// The byte a binary operator compiles to.
pub fn bop(o: BinOp) -> (r: u8)
    ensures
        r == bop_byte(o),
{
    match o {
        BinOp::Add => opb(Opcode::Add),
        BinOp::Sub => opb(Opcode::Sub),
        BinOp::Mul => opb(Opcode::Mul),
        BinOp::Div => opb(Opcode::Div),
        BinOp::Mod => opb(Opcode::Mod),
        BinOp::FloorDiv => opb(Opcode::Div),
        BinOp::Pow => opb(Opcode::Mul),
        _ => opb(Opcode::Add),
    }
}

/// The byte a comparison operator compiles to.
pub fn cop(o: CmpOp) -> (r: u8)
    ensures
        r == cop_byte(o),
{
    match o {
        CmpOp::Eq => opb(Opcode::Eq),
        CmpOp::NotEq => opb(Opcode::Ne),
        CmpOp::Lt => opb(Opcode::Lt),
        CmpOp::LtE => opb(Opcode::Le),
        CmpOp::Gt => opb(Opcode::Gt),
        CmpOp::GtE => opb(Opcode::Ge),
        _ => opb(Opcode::Eq),
    }
}

impl Ctx {
    /// Whether the string pool can take one more name.
    pub fn has_room(&self) -> (r: bool)
        ensures
            r == (self.state().pool.len() < u32::MAX),
    {
        self.module.strings.len() < u32::MAX as usize
    }
}

/// Interns `s` where the pool has room: the state and id of `intern_name`.
fn try_intern(c: &mut Ctx, s: &str) -> (r: Option<u16>)
    ensures
        r is Some == (intern_name(old(c).state(), s@) is Some),
        r is Some ==> intern_name(old(c).state(), s@) == Some((final(c).state(), r->0)),
        r is None ==> final(c).state() == old(c).state(),
        final(c).funcs == old(c).funcs,
        final(c).fc == old(c).fc,
        final(c).cur == old(c).cur,
        same_but_strings(old(c).module, final(c).module),
{
    if !c.has_room() {
        return None;
    }
    let sid = intern(&mut c.module, s);
    assert(c.state() =~= (intern_name(old(c).state(), s@)->0).0);
    Some(sid)
}

/// Interns `s` and emits `op` with its id; false where the pool is full.
fn push_named(c: &mut Ctx, op: Opcode, s: &str) -> (ok: bool)
    ensures
        ok == (emit_named(old(c).state(), op, s@) is Some),
        ok ==> final(c).state() == emit_named(old(c).state(), op, s@)->0,
        final(c).funcs == old(c).funcs,
        final(c).fc == old(c).fc,
        same_but_strings(old(c).module, final(c).module),
{
    match try_intern(c, s) {
        Some(sid) => {
            c.cur.push_op16(op, sid);
            assert(c.state() =~= emit_named(old(c).state(), op, s@)->0);
            true
        },
        None => false,
    }
}

/// The offset `rel(to, from)` of a jump, where it fits in 16 bits.
fn rel_of(to: usize, from: usize) -> (r: Option<i16>)
    ensures
        r == rel(to as int, from as int),
{
    let d: i32 = (to as i16) as i32 - (from as i16) as i32;
    if -32768 <= d && d <= 32767 && -32768 <= d - 3 {
        Some((d - 3) as i16)
    } else {
        None
    }
}

/// Points the forward jump whose opcode stands at `j` to the end of the
/// current code; false where the distance does not fit.
fn patch_jump(c: &mut Ctx, j: usize) -> (ok: bool)
    ensures
        ok == (patch_forward(old(c).state(), j as int) is Some),
        ok ==> final(c).state() == patch_forward(old(c).state(), j as int)->0,
        final(c).funcs == old(c).funcs,
        final(c).fc == old(c).fc,
        final(c).module == old(c).module,
{
    let n = c.cur.len();
    match rel_of(n, j) {
        Some(t) => {
            if n < 3 || j > n - 3 {
                return false;
            }
            c.cur.patch_i16(j + 1, t);
            assert(c.state() =~= patch_forward(old(c).state(), j as int)->0);
            true
        },
        None => false,
    }
}


// ── Prefixes of the folds ──

proof fn lemma_params_prefix(args: Seq<Arg>, st: CgState, k: int)
    requires
        gen_params(args, st) is Some,
        0 <= k <= args.len(),
    ensures
        gen_params(args.take(k), st) is Some,
    decreases args.len(),
{
    if k < args.len() {
        lemma_params_prefix(args.drop_last(), st, k);
        assert(args.drop_last().take(k) =~= args.take(k));
    } else {
        assert(args.take(k) =~= args);
    }
}

proof fn lemma_exprs_prefix(es: Seq<Expr>, st: CgState, k: int)
    requires
        gen_exprs(es, st) is Some,
        0 <= k <= es.len(),
    ensures
        gen_exprs(es.take(k), st) is Some,
    decreases es.len(),
{
    if k < es.len() {
        lemma_exprs_prefix(es.drop_last(), st, k);
        assert(es.drop_last().take(k) =~= es.take(k));
    } else {
        assert(es.take(k) =~= es);
    }
}

proof fn lemma_pairs_prefix(items: Seq<(Box<Expr>, Box<Expr>)>, st: CgState, k: int)
    requires
        gen_pairs(items, st) is Some,
        0 <= k <= items.len(),
    ensures
        gen_pairs(items.take(k), st) is Some,
    decreases items.len(),
{
    if k < items.len() {
        lemma_pairs_prefix(items.drop_last(), st, k);
        assert(items.drop_last().take(k) =~= items.take(k));
    } else {
        assert(items.take(k) =~= items);
    }
}

proof fn lemma_exprs_rev_prefix(es: Seq<Expr>, n: int, st: CgState, k: int)
    requires
        gen_exprs_rev(es, n, st) is Some,
        0 <= k <= n <= es.len(),
    ensures
        gen_exprs_rev(es, k, st) is Some,
    decreases n - k,
{
    if k < n {
        lemma_exprs_rev_prefix(es, n - 1, st, k);
    }
}

proof fn lemma_kw_prefix(kw: Seq<Keyword>, n: int, st: CgState, k: int)
    requires
        gen_kw(kw, n, st) is Some,
        0 <= k <= n <= kw.len(),
    ensures
        gen_kw(kw, k, st) is Some,
    decreases n - k,
{
    if k < n {
        lemma_kw_prefix(kw, n - 1, st, k);
    }
}

proof fn lemma_comparisons_prefix(ops: Seq<CmpOp>, operands: Seq<Expr>, n: int, st: CgState, k: int)
    requires
        gen_comparisons(ops, operands, n, st) is Some,
        0 <= k <= n <= ops.len(),
        ops.len() <= operands.len(),
    ensures
        gen_comparisons(ops, operands, k, st) is Some,
    decreases n - k,
{
    if k < n {
        lemma_comparisons_prefix(ops, operands, n - 1, st, k);
    }
}

proof fn lemma_bool_rest_prefix(values: Seq<Expr>, n: int, b: u8, st: CgState, k: int)
    requires
        gen_bool_rest(values, n, b, st) is Some,
        0 <= k <= n < values.len(),
    ensures
        gen_bool_rest(values, k, b, st) is Some,
    decreases n - k,
{
    if k < n {
        lemma_bool_rest_prefix(values, n - 1, b, st, k);
    }
}

proof fn lemma_fparts_prefix(parts: Seq<FStringPart>, n: int, st: CgState, k: int)
    requires
        gen_fparts(parts, n, st) is Some,
        0 <= k <= n <= parts.len(),
    ensures
        gen_fparts(parts, k, st) is Some,
    decreases n - k,
{
    if k < n {
        lemma_fparts_prefix(parts, n - 1, st, k);
    }
}

/// Whether `s` holds the characters of `lit`.
fn str_is(s: &String, lit: &str) -> (r: bool)
    ensures
        r == (s@ == lit@),
{
    *s == lit.to_owned()
}

/// The byte a unary operator compiles to.
fn unary(o: UnaryOp) -> (r: u8)
    ensures
        r == unary_byte(o),
{
    match o {
        UnaryOp::USub => opb(Opcode::Neg),
        UnaryOp::Not => opb(Opcode::Not),
        _ => 0,
    }
}

// ── Expression code ──
//
// Each emitting function returns whether its model yields a state; where it
// does, the context holds that state afterwards.

/// Binds parameters to globals of their names.
fn params(args: &Vec<Arg>, c: &mut Ctx) -> (ok: bool)
    ensures
        ok == (gen_params(args@, old(c).state()) is Some),
        ok ==> final(c).state() == gen_params(args@, old(c).state())->0,
        final(c).funcs == old(c).funcs,
        final(c).fc == old(c).fc,
        same_but_strings(old(c).module, final(c).module),
{
    let ghost st0 = c.state();
    let ghost m0 = c.module;
    let mut i: usize = 0;
    assert(args@.take(0) =~= Seq::<Arg>::empty());
    while i < args.len()
        invariant
            i <= args@.len(),
            gen_params(args@.take(i as int), st0) == Some(c.state()),
            st0 == old(c).state(),
            c.funcs == old(c).funcs,
            c.fc == old(c).fc,
            same_but_strings(m0, c.module),
            m0 == old(c).module,
        decreases args@.len() - i,
    {
        proof {
            assert(args@.take(i + 1).drop_last() =~= args@.take(i as int));
            assert(args@.take(i + 1).last() == args@[i as int]);
        }
        let ghost s0 = c.state();
        c.cur.push_op(Opcode::LoadLocal);
        c.cur.push_u16(i as u16);
        assert(c.state() =~= emit(s0, seq![Opcode::LoadLocal.byte()] + le_bytes((i as u16) as nat, 2)));
        if !push_named(c, Opcode::StoreGlobal, args[i].arg.as_str()) {
            proof {
                if gen_params(args@, st0) is Some {
                    lemma_params_prefix(args@, st0, i + 1);
                }
            }
            return false;
        }
        i = i + 1;
    }
    assert(args@.take(args@.len() as int) =~= args@);
    true
}

/// The code of expressions in order.
fn exprs(items: &Vec<Expr>, c: &mut Ctx) -> (ok: bool)
    requires
        old(c).wf(),
    ensures
        final(c).wf(),
        ok == (gen_exprs(items@, old(c).state()) is Some),
        ok ==> final(c).state() == gen_exprs(items@, old(c).state())->0,
        same_but_strings(old(c).module, final(c).module),
    decreases items@, 0int,
{
    let ghost st0 = c.state();
    let ghost m0 = c.module;
    let mut i: usize = 0;
    assert(items@.take(0) =~= Seq::<Expr>::empty());
    while i < items.len()
        invariant
            i <= items@.len(),
            c.wf(),
            st0 == old(c).state(),
            gen_exprs(items@.take(i as int), st0) == Some(c.state()),
            same_but_strings(m0, c.module),
            m0 == old(c).module,
        decreases items@.len() - i,
    {
        proof {
            assert(items@.take(i + 1).drop_last() =~= items@.take(i as int));
            assert(items@.take(i + 1).last() == items@[i as int]);
        }
        if !expr(&items[i], c) {
            proof {
                if gen_exprs(items@, st0) is Some {
                    lemma_exprs_prefix(items@, st0, i + 1);
                }
            }
            return false;
        }
        i = i + 1;
    }
    assert(items@.take(items@.len() as int) =~= items@);
    true
}

/// The code of an expression.
pub fn expr(e: &Expr, c: &mut Ctx) -> (ok: bool)
    requires
        old(c).wf(),
    ensures
        final(c).wf(),
        ok == (gen_expr(*e, old(c).state()) is Some),
        ok ==> final(c).state() == gen_expr(*e, old(c).state())->0,
        same_but_strings(old(c).module, final(c).module),
    decreases e, 4int,
{
    let ghost st = c.state();
    match e {
        Expr::Name(n) => push_named(c, Opcode::LoadGlobal, n.as_str()),
        Expr::Int(v) => {
            c.cur.push_op(Opcode::PushI32);
            c.cur.push_i32(*v as i32);
            assert(c.state() =~= emit(st, push_i32_code(*v as i32)));
            true
        },
        Expr::Float(bits) => {
            c.cur.push_op(Opcode::PushF64);
            c.cur.push_f64_bits(*bits);
            assert(c.state() =~= emit(st, seq![Opcode::PushF64.byte()] + le_bytes(*bits as nat, 8)));
            true
        },
        Expr::Str(s) => push_named(c, Opcode::PushString, s.as_str()),
        Expr::Bool(b) => {
            c.cur.push_op(
                if *b {
                    Opcode::PushTrue
                } else {
                    Opcode::PushFalse
                },
            );
            assert(c.state() =~= gen_expr(*e, st)->0);
            true
        },
        Expr::None_ => {
            c.cur.push_op(Opcode::PushNil);
            assert(c.state() =~= emit(st, seq![Opcode::PushNil.byte()]));
            true
        },
        Expr::Lambda { .. } => lambda_expr(e, c),
        Expr::List(items) => {
            if !exprs(items, c) {
                return false;
            }
            c.cur.push_op16(Opcode::NewArray, items.len() as u16);
            assert(c.state() =~= gen_expr(*e, st)->0);
            true
        },
        Expr::Tuple(items) => {
            if !exprs(items, c) {
                return false;
            }
            c.cur.push_op16(Opcode::NewArray, items.len() as u16);
            assert(c.state() =~= gen_expr(*e, st)->0);
            true
        },
        Expr::SetLiteral(items) => {
            if !exprs(items, c) {
                return false;
            }
            c.cur.push_op16(Opcode::NewArray, items.len() as u16);
            assert(c.state() =~= gen_expr(*e, st)->0);
            true
        },
        Expr::Dict { .. } => dict_expr(e, c),
        Expr::BinOp { left, op, right } => {
            if !expr(left, c) {
                return false;
            }
            if !expr(right, c) {
                return false;
            }
            c.cur.push(bop(*op));
            assert(c.state() =~= gen_expr(*e, st)->0);
            true
        },
        Expr::UnaryOp { op, operand } => {
            if !expr(operand, c) {
                return false;
            }
            c.cur.push(unary(*op));
            assert(c.state() =~= gen_expr(*e, st)->0);
            true
        },
        Expr::Compare { .. } => compare_expr(e, c),
        Expr::BoolOp { .. } => bool_op_expr(e, c),
        Expr::Call { .. } => call(e, c),
        Expr::Attribute { value, attr } => {
            if !expr(value, c) {
                return false;
            }
            push_named(c, Opcode::GetField, attr.as_str())
        },
        Expr::Subscript { value, slice } => {
            if !expr(value, c) {
                return false;
            }
            match &**slice {
                Slice::Index(idx) => {
                    if !expr(idx, c) {
                        return false;
                    }
                    c.cur.push_op(Opcode::ArrayGet);
                },
                _ => {
                    c.cur.push_op(Opcode::PushI32);
                    c.cur.push_i32(0);
                    c.cur.push_op(Opcode::ArrayGet);
                },
            }
            assert(c.state() =~= gen_expr(*e, st)->0);
            true
        },
        Expr::FString { .. } => fstring_expr(e, c),
        Expr::IfExpr { .. } => if_expr(e, c),
        Expr::NamedExpr { target, value } => {
            if !expr(value, c) {
                return false;
            }
            let ghost s1 = c.state();
            c.cur.push_op(Opcode::Dup);
            assert(c.state() =~= emit(s1, seq![Opcode::Dup.byte()]));
            match &**target {
                Expr::Name(n) => push_named(c, Opcode::StoreGlobal, n.as_str()),
                _ => true,
            }
        },
        _ => {
            c.cur.push_op(Opcode::PushNil);
            assert(c.state() =~= gen_expr(*e, st)->0);
            true
        },
    }
}

/// The code of a `Lambda` expression.
#[verifier::loop_isolation(false)]
fn lambda_expr(e: &Expr, c: &mut Ctx) -> (ok: bool)
    requires
        old(c).wf(),
        e is Lambda,
    ensures
        final(c).wf(),
        ok == (gen_expr(*e, old(c).state()) is Some),
        ok ==> final(c).state() == gen_expr(*e, old(c).state())->0,
        same_but_strings(old(c).module, final(c).module),
    decreases e, 3int,
{
    let ghost st = c.state();
    match e {
        Expr::Lambda { args, body } => {
            let n_args = args.args.len() as u16;
            if n_args > u16::MAX - 16 {
                return false;
            }
            let saved = c.cur.take();
            assert(c.state() =~= CgState { pool: st.pool, funcs: st.funcs, cur: Seq::empty(), fc: st.fc });
            if !params(&args.args, c) {
                return false;
            }
            if !expr(body, c) {
                return false;
            }
            let ghost s2 = c.state();
            c.cur.push_op(Opcode::ReturnValue);
            let inner_bc = c.cur.take();
            let fi = c.nf();
            proof {
                reveal_strlit("<lambda>");
            }
            let ghost funcs_before = c.funcs@;
            c.funcs.push(
                FunctionDef {
                    name: "<lambda>".to_owned(),
                    bytecode: inner_bc,
                    n_locals: n_args + 16,
                    n_params: n_args,
                    is_variadic: false,
                    n_captures: 0,
                    return_type: None,
                    param_types: Vec::new(),
                    hotness: 0,
                },
            );
            c.cur = Buf(saved);
            c.cur.push_op16(Opcode::MakeClosure, fi);
            proof {
                assert(fn_models(c.funcs@) =~= fn_models(funcs_before).push(fn_model(c.funcs@.last())));
                let n = args.args@.len() as u16;
                let s3 = close_fn(
                    emit(s2, seq![Opcode::ReturnValue.byte()]),
                    st.cur,
                    "<lambda>"@,
                    (n + 16) as u16,
                    n,
                );
                assert(fn_model(c.funcs@.last()) =~= FnModel {
                    name: "<lambda>"@,
                    code: s2.cur + seq![Opcode::ReturnValue.byte()],
                    n_locals: (n + 16) as u16,
                    n_params: n,
                });
                assert(c.state().funcs =~= s3.funcs);
                assert(c.state().cur =~= s3.cur + op16(Opcode::MakeClosure, s2.funcs.len() as u16));
                assert(c.state() =~= gen_expr(*e, st)->0);
            }
            true
        },
        _ => true,
    }
}

/// The code of a `Dict` expression.
#[verifier::loop_isolation(false)]
fn dict_expr(e: &Expr, c: &mut Ctx) -> (ok: bool)
    requires
        old(c).wf(),
        e is Dict,
    ensures
        final(c).wf(),
        ok == (gen_expr(*e, old(c).state()) is Some),
        ok ==> final(c).state() == gen_expr(*e, old(c).state())->0,
        same_but_strings(old(c).module, final(c).module),
    decreases e, 3int,
{
    let ghost st = c.state();
    match e {
        Expr::Dict(items) => {
            let ghost m0 = c.module;
            let mut i: usize = 0;
            assert(items@.take(0) =~= Seq::<(Box<Expr>, Box<Expr>)>::empty());
            while i < items.len()
                invariant
                    i <= items@.len(),
                    c.wf(),
                    gen_pairs(items@.take(i as int), st) == Some(c.state()),
                    same_but_strings(m0, c.module),
                    m0 == old(c).module,
                decreases items@.len() - i,
            {
                proof {
                    assert(items@.take(i + 1).drop_last() =~= items@.take(i as int));
                    assert(items@.take(i + 1).last() == items@[i as int]);
                }
                if !expr(&items[i].0, c) {
                    proof {
                        if gen_pairs(items@, st) is Some {
                            lemma_pairs_prefix(items@, st, i + 1);
                        }
                    }
                    return false;
                }
                if !expr(&items[i].1, c) {
                    proof {
                        if gen_pairs(items@, st) is Some {
                            lemma_pairs_prefix(items@, st, i + 1);
                        }
                    }
                    return false;
                }
                i = i + 1;
            }
            assert(items@.take(items@.len() as int) =~= items@);
            c.cur.push_op(Opcode::NewMap);
            assert(c.state() =~= gen_expr(*e, st)->0);
            true
        },
        _ => true,
    }
}

/// The code of a `Compare` expression.
#[verifier::loop_isolation(false)]
fn compare_expr(e: &Expr, c: &mut Ctx) -> (ok: bool)
    requires
        old(c).wf(),
        e is Compare,
    ensures
        final(c).wf(),
        ok == (gen_expr(*e, old(c).state()) is Some),
        ok ==> final(c).state() == gen_expr(*e, old(c).state())->0,
        same_but_strings(old(c).module, final(c).module),
    decreases e, 3int,
{
    let ghost st = c.state();
    match e {
        Expr::Compare { left, ops, comparators } => {
            if ops.len() > comparators.len() {
                return false;
            }
            if !expr(left, c) {
                return false;
            }
            let ghost s1 = c.state();
            let ghost m0 = c.module;
            let mut i: usize = 0;
            while i < ops.len()
                invariant
                    i <= ops@.len() <= comparators@.len(),
                    c.wf(),
                    gen_comparisons(ops@, comparators@, i as int, s1) == Some(c.state()),
                    same_but_strings(m0, c.module),
                    same_but_strings(old(c).module, m0),
                decreases ops@.len() - i,
            {
                if !expr(&comparators[i], c) {
                    proof {
                        if gen_comparisons(ops@, comparators@, ops@.len() as int, s1) is Some {
                            lemma_comparisons_prefix(ops@, comparators@, ops@.len() as int, s1, i + 1);
                        }
                    }
                    return false;
                }
                c.cur.push(cop(ops[i]));
                i = i + 1;
                assert(c.state() =~= gen_comparisons(ops@, comparators@, i as int, s1)->0);
            }
            true
        },
        _ => true,
    }
}

/// The code of a `BoolOp` expression.
#[verifier::loop_isolation(false)]
fn bool_op_expr(e: &Expr, c: &mut Ctx) -> (ok: bool)
    requires
        old(c).wf(),
        e is BoolOp,
    ensures
        final(c).wf(),
        ok == (gen_expr(*e, old(c).state()) is Some),
        ok ==> final(c).state() == gen_expr(*e, old(c).state())->0,
        same_but_strings(old(c).module, final(c).module),
    decreases e, 3int,
{
    let ghost st = c.state();
    match e {
        Expr::BoolOp { op, values } => {
            if values.len() == 0 {
                return false;
            }
            if !expr(&values[0], c) {
                return false;
            }
            let b = if *op == BoolOp::And {
                opb(Opcode::And)
            } else {
                opb(Opcode::Or)
            };
            let ghost s1 = c.state();
            let ghost m0 = c.module;
            let mut i: usize = 1;
            while i < values.len()
                invariant
                    1 <= i <= values@.len(),
                    c.wf(),
                    gen_bool_rest(values@, i - 1, b, s1) == Some(c.state()),
                    same_but_strings(m0, c.module),
                    same_but_strings(old(c).module, m0),
                decreases values@.len() - i,
            {
                if !expr(&values[i], c) {
                    proof {
                        if gen_bool_rest(values@, values@.len() - 1, b, s1) is Some {
                            lemma_bool_rest_prefix(values@, values@.len() - 1, b, s1, i as int);
                        }
                    }
                    return false;
                }
                c.cur.push(b);
                assert(c.state() =~= gen_bool_rest(values@, i as int, b, s1)->0);
                i = i + 1;
            }
            true
        },
        _ => true,
    }
}

/// The code of a `FString` expression.
#[verifier::loop_isolation(false)]
fn fstring_expr(e: &Expr, c: &mut Ctx) -> (ok: bool)
    requires
        old(c).wf(),
        e is FString,
    ensures
        final(c).wf(),
        ok == (gen_expr(*e, old(c).state()) is Some),
        ok ==> final(c).state() == gen_expr(*e, old(c).state())->0,
        same_but_strings(old(c).module, final(c).module),
    decreases e, 3int,
{
    let ghost st = c.state();
    match e {
        Expr::FString(parts) => {
            let n = parts.len();
            if n == 0 {
                proof {
                    reveal_strlit("");
                }
                assert(""@ =~= Seq::<char>::empty());
                return push_named(c, Opcode::PushString, "");
            }
            let ghost m0 = c.module;
            let mut i: usize = 0;
            while i < n
                invariant
                    i <= n == parts@.len(),
                    c.wf(),
                    gen_fparts(parts@, i as int, st) == Some(c.state()),
                    same_but_strings(m0, c.module),
                    m0 == old(c).module,
                decreases n - i,
            {
                let done = match &parts[i] {
                    FStringPart::Literal(s) => push_named(c, Opcode::PushString, s.as_str()),
                    FStringPart::Expr(x) => {
                        if expr(x, c) {
                            c.cur.push_op(Opcode::ToString);
                            true
                        } else {
                            false
                        }
                    },
                };
                if !done {
                    proof {
                        if gen_fparts(parts@, n as int, st) is Some {
                            lemma_fparts_prefix(parts@, n as int, st, i + 1);
                        }
                    }
                    return false;
                }
                assert(c.state() =~= gen_fparts(parts@, i + 1, st)->0);
                i = i + 1;
            }
            let ghost s1 = c.state();
            let mut k: usize = 1;
            while k < n
                invariant
                    1 <= k <= n,
                    c.wf(),
                    c.state() == emit(s1, repeat_byte(Opcode::Add.byte(), (k - 1) as nat)),
                    same_but_strings(old(c).module, c.module),
                decreases n - k,
            {
                c.cur.push_op(Opcode::Add);
                assert(repeat_byte(Opcode::Add.byte(), k as nat) =~= repeat_byte(
                    Opcode::Add.byte(),
                    (k - 1) as nat,
                ).push(Opcode::Add.byte()));
                assert(c.state() =~= emit(s1, repeat_byte(Opcode::Add.byte(), k as nat)));
                k = k + 1;
            }
            true
        },
        _ => true,
    }
}

/// The code of a `IfExpr` expression.
#[verifier::loop_isolation(false)]
fn if_expr(e: &Expr, c: &mut Ctx) -> (ok: bool)
    requires
        old(c).wf(),
        e is IfExpr,
    ensures
        final(c).wf(),
        ok == (gen_expr(*e, old(c).state()) is Some),
        ok ==> final(c).state() == gen_expr(*e, old(c).state())->0,
        same_but_strings(old(c).module, final(c).module),
    decreases e, 3int,
{
    let ghost st = c.state();
    match e {
        Expr::IfExpr { test, body, orelse } => {
            if !expr(test, c) {
                return false;
            }
            let j1 = c.cur.len();
            let ghost s1 = c.state();
            c.cur.push_op16(Opcode::JumpIfFalse, 0);
            assert(c.state() =~= emit(s1, op16(Opcode::JumpIfFalse, 0)));
            if !expr(body, c) {
                return false;
            }
            let j2 = c.cur.len();
            let ghost s2 = c.state();
            c.cur.push_op16(Opcode::Jump, 0);
            assert(c.state() =~= emit(s2, op16(Opcode::Jump, 0)));
            if !patch_jump(c, j1) {
                return false;
            }
            if !expr(orelse, c) {
                return false;
            }
            if !patch_jump(c, j2) {
                return false;
            }
            true
        },
        _ => true,
    }
}

/// The code of the expressions of `items`, last to first.
fn exprs_rev(items: &Vec<Expr>, c: &mut Ctx) -> (ok: bool)
    requires
        old(c).wf(),
    ensures
        final(c).wf(),
        ok == (gen_exprs_rev(items@, items@.len() as int, old(c).state()) is Some),
        ok ==> final(c).state() == gen_exprs_rev(items@, items@.len() as int, old(c).state())->0,
        same_but_strings(old(c).module, final(c).module),
    decreases items@, 0int,
{
    let ghost st = c.state();
    let ghost m0 = c.module;
    let n = items.len();
    let mut k: usize = 0;
    while k < n
        invariant
            k <= n == items@.len(),
            c.wf(),
            st == old(c).state(),
            gen_exprs_rev(items@, k as int, st) == Some(c.state()),
            same_but_strings(m0, c.module),
            m0 == old(c).module,
        decreases n - k,
    {
        if !expr(&items[n - 1 - k], c) {
            proof {
                if gen_exprs_rev(items@, n as int, st) is Some {
                    lemma_exprs_rev_prefix(items@, n as int, st, k + 1);
                }
            }
            return false;
        }
        k = k + 1;
    }
    true
}

/// The code of the values of keyword arguments, in order.
fn kw_values(kw: &Vec<Keyword>, c: &mut Ctx) -> (ok: bool)
    requires
        old(c).wf(),
    ensures
        final(c).wf(),
        ok == (gen_kw(kw@, kw@.len() as int, old(c).state()) is Some),
        ok ==> final(c).state() == gen_kw(kw@, kw@.len() as int, old(c).state())->0,
        same_but_strings(old(c).module, final(c).module),
    decreases kw@, 0int,
{
    let ghost st = c.state();
    let ghost m0 = c.module;
    let n = kw.len();
    let mut j: usize = 0;
    while j < n
        invariant
            j <= n == kw@.len(),
            c.wf(),
            st == old(c).state(),
            gen_kw(kw@, j as int, st) == Some(c.state()),
            same_but_strings(m0, c.module),
            m0 == old(c).module,
        decreases n - j,
    {
        if !expr(&kw[j].value, c) {
            proof {
                if gen_kw(kw@, n as int, st) is Some {
                    lemma_kw_prefix(kw@, n as int, st, j + 1);
                }
            }
            return false;
        }
        j = j + 1;
    }
    true
}

/// Pushes the arguments of a call and their count.
fn call_args(e: &Expr, c: &mut Ctx) -> (ok: bool)
    requires
        old(c).wf(),
        e is Call,
    ensures
        final(c).wf(),
        ok == (gen_call_args(*e, old(c).state()) is Some),
        ok ==> final(c).state() == gen_call_args(*e, old(c).state())->0,
        same_but_strings(old(c).module, final(c).module),
    decreases e, 1int,
{
    let ghost st = c.state();
    match e {
        Expr::Call { func, args, keywords } => {
            if args.len() > usize::MAX - keywords.len() {
                return false;
            }
            if !exprs_rev(args, c) {
                return false;
            }
            if !kw_values(keywords, c) {
                return false;
            }
            c.cur.push_op(Opcode::PushI32);
            c.cur.push_i32((args.len() + keywords.len()) as i32);
            assert(c.state() =~= gen_call_args(*e, st)->0);
            true
        },
        _ => true,
    }
}

/// Whether `n` names a builtin compiled inline.
fn is_inline_builtin(n: &String) -> (r: bool)
    ensures
        r == (n@ == "len"@ || n@ == "int"@ || n@ == "str"@ || n@ == "range"@ || is_dropping_builtin(
            n@,
        )),
{
    str_is(n, "len") || str_is(n, "int") || str_is(n, "str") || str_is(n, "range") || str_is(
        n,
        "enumerate",
    ) || str_is(n, "zip") || str_is(n, "list") || str_is(n, "sorted") || str_is(n, "reversed")
        || str_is(n, "map") || str_is(n, "filter")
}

/// The code of a call of an inline builtin: its arguments, then its
/// operation.
#[verifier::loop_isolation(false)]
fn builtin_call(e: &Expr, c: &mut Ctx) -> (ok: bool)
    requires
        old(c).wf(),
        e matches Expr::Call { func, .. } && (**func matches Expr::Name(n) && (n@ == "len"@ || n@
            == "int"@ || n@ == "str"@ || n@ == "range"@ || is_dropping_builtin(n@))),
    ensures
        final(c).wf(),
        ok == (gen_call(*e, old(c).state()) is Some),
        ok ==> final(c).state() == gen_call(*e, old(c).state())->0,
        same_but_strings(old(c).module, final(c).module),
    decreases e, 2int,
{
    let ghost st = c.state();
    proof {
        reveal_strlit("len");
        reveal_strlit("int");
        reveal_strlit("str");
        reveal_strlit("range");
    }
    match e {
        Expr::Call { func, args, keywords } => {
            match &**func {
                Expr::Name(n) => {
                    if !exprs(args, c) {
                        return false;
                    }
                    if str_is(n, "len") {
                        c.cur.push_op(Opcode::ArrayLen);
                    } else if str_is(n, "int") {
                        c.cur.push_op(Opcode::ToI32);
                        c.cur.push_op(Opcode::ToI64);
                    } else if str_is(n, "str") {
                        c.cur.push_op(Opcode::ToString);
                    } else if str_is(n, "range") {
                        c.cur.push_op16(Opcode::NewArray, args.len() as u16);
                    } else {
                        let ghost s1 = c.state();
                        let mut k: usize = 0;
                        while k < args.len()
                            invariant
                                k <= args@.len(),
                                c.wf(),
                                c.state() == emit(s1, repeat_byte(Opcode::Pop.byte(), k as nat)),
                                same_but_strings(old(c).module, c.module),
                            decreases args@.len() - k,
                        {
                            c.cur.push_op(Opcode::Pop);
                            assert(repeat_byte(Opcode::Pop.byte(), (k + 1) as nat) =~= repeat_byte(
                                Opcode::Pop.byte(),
                                k as nat,
                            ).push(Opcode::Pop.byte()));
                            assert(c.state() =~= emit(
                                s1,
                                repeat_byte(Opcode::Pop.byte(), (k + 1) as nat),
                            ));
                            k = k + 1;
                        }
                        c.cur.push_op16(Opcode::NewArray, 0);
                    }
                    assert(c.state() =~= gen_call(*e, st)->0);
                    true
                },
                _ => true,
            }
        },
        _ => true,
    }
}

/// The code of a method call `obj.attr(...)`.
fn method_call(e: &Expr, c: &mut Ctx) -> (ok: bool)
    requires
        old(c).wf(),
        e matches Expr::Call { func, .. } && **func is Attribute,
    ensures
        final(c).wf(),
        ok == (gen_call(*e, old(c).state()) is Some),
        ok ==> final(c).state() == gen_call(*e, old(c).state())->0,
        same_but_strings(old(c).module, final(c).module),
    decreases e, 2int,
{
    let ghost st = c.state();
    proof {
        reveal_strlit("len");
    }
    match e {
        Expr::Call { func, args, keywords } => {
            match &**func {
                Expr::Attribute { value: obj, attr } => {
                    if str_is(attr, "len") {
                        if !expr(obj, c) {
                            return false;
                        }
                        c.cur.push_op(Opcode::StrLen);
                    } else {
                        if !call_args(e, c) {
                            return false;
                        }
                        if !expr(obj, c) {
                            return false;
                        }
                        if !push_named(c, Opcode::GetField, attr.as_str()) {
                            return false;
                        }
                        c.cur.push_op(Opcode::CallValue);
                    }
                    assert(c.state() =~= gen_call(*e, st)->0);
                    true
                },
                _ => true,
            }
        },
        _ => true,
    }
}

/// The code of a call.
fn call(e: &Expr, c: &mut Ctx) -> (ok: bool)
    requires
        old(c).wf(),
        e is Call,
    ensures
        final(c).wf(),
        ok == (gen_expr(*e, old(c).state()) is Some),
        ok ==> final(c).state() == gen_expr(*e, old(c).state())->0,
        same_but_strings(old(c).module, final(c).module),
    decreases e, 3int,
{
    let ghost st = c.state();
    assert(gen_expr(*e, st) == gen_call(*e, st));
    match e {
        Expr::Call { func, args, keywords } => {
            let special = match &**func {
                Expr::Name(n) => is_inline_builtin(n),
                _ => false,
            };
            if special {
                return builtin_call(e, c);
            }
            match &**func {
                Expr::Attribute { .. } => {
                    return method_call(e, c);
                },
                _ => {},
            }
            if !call_args(e, c) {
                return false;
            }
            if !expr(func, c) {
                return false;
            }
            c.cur.push_op(Opcode::CallValue);
            assert(c.state() =~= gen_call(*e, st)->0);
            true
        },
        _ => true,
    }
}


// ── Statements ──

/// Whether `e` is a call of `print`, whose value is not popped.
pub open spec fn is_print_call(e: Expr) -> bool {
    e matches Expr::Call { func, .. } && (*func matches Expr::Name(n) && n@ == "print"@)
}

/// The hidden global holding the iterable of loop `id`.
pub open spec fn iter_name(id: int) -> Seq<char> {
    "__it_"@ + decimal(id as nat) + "__"@
}

/// The hidden global holding the index of loop `id`.
pub open spec fn index_name(id: int) -> Seq<char> {
    "__i_"@ + decimal(id as nat) + "__"@
}

/// The hidden global holding the module imported by `from ... import`
/// number `id`.
pub open spec fn module_slot_name(id: int) -> Seq<char> {
    "__mod_"@ + decimal(id as nat) + "__"@
}

/// `st` with one more hidden name counted.
pub open spec fn bump_fc(st: CgState) -> CgState {
    CgState { pool: st.pool, funcs: st.funcs, cur: st.cur, fc: st.fc + 1 }
}

/// `st` with an empty current function.
pub open spec fn fresh_code(st: CgState) -> CgState {
    CgState { pool: st.pool, funcs: st.funcs, cur: Seq::empty(), fc: st.fc }
}

/// The code of the first `n` targets of a plain assignment of `value`:
/// each target evaluates `value` anew.
pub open spec fn gen_assign(targets: Seq<Expr>, value: Expr, n: int, st: CgState) -> Option<CgState>
    decreases n,
{
    if n <= 0 || n > targets.len() {
        Some(st)
    } else {
        match gen_assign(targets, value, n - 1, st) {
            Some(s0) => match targets[n - 1] {
                Expr::Name(name) => match gen_expr(value, s0) {
                    Some(s1) => emit_named(s1, Opcode::StoreGlobal, name@),
                    None => None,
                },
                Expr::Attribute { value: obj, attr } => match gen_expr(*obj, s0) {
                    Some(s1) => match gen_expr(value, s1) {
                        Some(s2) => emit_named(s2, Opcode::SetAttr, attr@),
                        None => None,
                    },
                    None => None,
                },
                _ => match gen_expr(value, s0) {
                    Some(s1) => Some(emit(s1, seq![Opcode::Pop.byte()])),
                    None => None,
                },
            },
            None => None,
        }
    }
}

/// The code of the first `n` targets of an augmented assignment: each
/// name target is loaded, combined with `value` and stored back.
pub open spec fn gen_aug(targets: Seq<Expr>, value: Expr, op: BinOp, n: int, st: CgState) -> Option<
    CgState,
>
    decreases n,
{
    if n <= 0 || n > targets.len() {
        Some(st)
    } else {
        match gen_aug(targets, value, op, n - 1, st) {
            Some(s0) => match targets[n - 1] {
                Expr::Name(name) => match intern_name(s0, name@) {
                    Some((s1, sid)) => match gen_expr(value, emit(s1, op16(Opcode::LoadGlobal, sid))) {
                        Some(s2) => Some(
                            emit(s2, seq![bop_byte(op)] + op16(Opcode::StoreGlobal, sid)),
                        ),
                        None => None,
                    },
                    None => None,
                },
                _ => Some(s0),
            },
            None => None,
        }
    }
}

/// The code of the first `n` items of a `with`: each context expression
/// is evaluated and dropped.
pub open spec fn gen_with(items: Seq<WithItem>, n: int, st: CgState) -> Option<CgState>
    decreases n,
{
    if n <= 0 || n > items.len() {
        Some(st)
    } else {
        match gen_with(items, n - 1, st) {
            Some(s0) => match gen_expr(items[n - 1].context_expr, s0) {
                Some(s1) => Some(emit(s1, seq![Opcode::Pop.byte()])),
                None => None,
            },
            None => None,
        }
    }
}

/// The code of the first `n` names of an `import`: each module is imported
/// and stored under its name.
pub open spec fn gen_imports(names: Seq<Alias>, n: int, st: CgState) -> Option<CgState>
    decreases n,
{
    if n <= 0 || n > names.len() {
        Some(st)
    } else {
        match gen_imports(names, n - 1, st) {
            Some(s0) => match emit_named(s0, Opcode::Import, names[n - 1].name@) {
                Some(s1) => emit_named(s1, Opcode::StoreGlobal, names[n - 1].name@),
                None => None,
            },
            None => None,
        }
    }
}

/// The name under which an imported name is stored.
pub open spec fn stored_name(a: Alias) -> Seq<char> {
    match a.asname {
        Some(x) => x@,
        None => a.name@,
    }
}

/// The code of the first `n` names of a `from ... import`: each is looked
/// up in the module held in the global with id `slot` and stored.
pub open spec fn gen_from_names(names: Seq<Alias>, slot: u16, n: int, st: CgState) -> Option<
    CgState,
>
    decreases n,
{
    if n <= 0 || n > names.len() {
        Some(st)
    } else {
        match gen_from_names(names, slot, n - 1, st) {
            Some(s0) => match emit_named(
                emit(s0, op16(Opcode::LoadGlobal, slot)),
                Opcode::ImportFunc,
                names[n - 1].name@,
            ) {
                Some(s1) => emit_named(s1, Opcode::StoreGlobal, stored_name(names[n - 1])),
                None => None,
            },
            None => None,
        }
    }
}

/// The field names assigned as `self.<name> = ...` among the first `n`
/// targets, added to `acc` unless there already.
pub open spec fn fields_in_targets(ts: Seq<Expr>, n: int, acc: Seq<Seq<char>>) -> Seq<Seq<char>>
    decreases n,
{
    if n <= 0 || n > ts.len() {
        acc
    } else {
        let a0 = fields_in_targets(ts, n - 1, acc);
        match ts[n - 1] {
            Expr::Attribute { value: obj, attr } => if (*obj matches Expr::Name(o) && o@ == "self"@)
                && !a0.contains(attr@) {
                a0.push(attr@)
            } else {
                a0
            },
            _ => a0,
        }
    }
}

/// The fields a statement assigns through `self`, looking into nested
/// blocks, added to `acc`.
pub open spec fn fields_in_stmt(s: Stmt, acc: Seq<Seq<char>>) -> Seq<Seq<char>>
    decreases s, 1int,
{
    match s {
        Stmt::Assign { targets, .. } => fields_in_targets(targets@, targets@.len() as int, acc),
        Stmt::If { body, orelse, .. } => fields_in(orelse@, fields_in(body@, acc)),
        Stmt::While { body, .. } => fields_in(body@, acc),
        Stmt::For { body, .. } => fields_in(body@, acc),
        Stmt::With { body, .. } => fields_in(body@, acc),
        Stmt::Try { body, orelse, .. } => fields_in(orelse@, fields_in(body@, acc)),
        _ => acc,
    }
}

/// The fields statements assign through `self`, in order, added to `acc`.
pub open spec fn fields_in(ss: Seq<Stmt>, acc: Seq<Seq<char>>) -> Seq<Seq<char>>
    decreases ss, 0int,
{
    if ss.len() == 0 {
        acc
    } else {
        fields_in_stmt(ss.last(), fields_in(ss.drop_last(), acc))
    }
}

/// The fields assigned in the methods among the first `n` statements of a
/// class body.
pub open spec fn class_fields(body: Seq<Stmt>, n: int) -> Seq<Seq<char>>
    decreases n,
{
    if n <= 0 || n > body.len() {
        Seq::empty()
    } else {
        let a0 = class_fields(body, n - 1);
        match body[n - 1] {
            Stmt::FuncDef { body: fbody, .. } => fields_in(fbody@, a0),
            _ => a0,
        }
    }
}

/// The code of the first `n` field declarations of a class.
pub open spec fn gen_field_adds(fields: Seq<Seq<char>>, n: int, st: CgState) -> Option<CgState>
    decreases n,
{
    if n <= 0 || n > fields.len() {
        Some(st)
    } else {
        match gen_field_adds(fields, n - 1, st) {
            Some(s0) => emit_named(emit(s0, seq![Opcode::Dup.byte()]), Opcode::ClassAddField, fields[n - 1]),
            None => None,
        }
    }
}

/// The operand of `ClassAddMethod`: the name's id, with bit 15 set for
/// the constructor `__init__`.
pub open spec fn method_operand(name: Seq<char>, sid: u16) -> u16 {
    if name == "__init__"@ {
        sid | 0x8000u16
    } else {
        sid
    }
}

/// The code of the first `n` method declarations of a class.
pub open spec fn gen_method_adds(methods: Seq<(Seq<char>, u32)>, n: int, st: CgState) -> Option<CgState>
    decreases n,
{
    if n <= 0 || n > methods.len() {
        Some(st)
    } else {
        match gen_method_adds(methods, n - 1, st) {
            Some(s0) => {
                let (m, fi) = methods[n - 1];
                match intern_name(
                    emit(s0, seq![Opcode::Dup.byte()] + op16(Opcode::MakeClosure, fi as u16)),
                    m,
                ) {
                    Some((s1, sid)) => Some(
                        emit(
                            s1,
                            seq![Opcode::ClassAddMethod.byte()] + le_bytes(
                                method_operand(m, sid) as nat,
                                2,
                            ),
                        ),
                    ),
                    None => None,
                }
            },
            None => None,
        }
    }
}

/// The code of a statement.
pub open spec fn gen_stmt(s: Stmt, st: CgState) -> Option<CgState>
    decreases s, 3int,
{
    match s {
        Stmt::Expr(e) => match gen_expr(e, st) {
            Some(s1) => Some(
                if is_print_call(e) {
                    s1
                } else {
                    emit(s1, seq![Opcode::Pop.byte()])
                },
            ),
            None => None,
        },
        Stmt::Assign { targets, value, aug } => match aug {
            None => gen_assign(targets@, value, targets@.len() as int, st),
            Some(op) => gen_aug(targets@, value, op, targets@.len() as int, st),
        },
        Stmt::AnnAssign { target, value, .. } => match target {
            Expr::Name(n) => match value {
                Some(v) => match gen_expr(v, st) {
                    Some(s1) => emit_named(s1, Opcode::StoreGlobal, n@),
                    None => None,
                },
                None => Some(st),
            },
            _ => Some(st),
        },
        Stmt::If { test, body, orelse } => match gen_expr(test, st) {
            Some(s1) => {
                let j1 = s1.cur.len() as int;
                match gen_stmts(body@, emit(s1, op16(Opcode::JumpIfFalse, 0))) {
                    Some(s2) => {
                        let j2 = s2.cur.len() as int;
                        match patch_forward(emit(s2, op16(Opcode::Jump, 0)), j1) {
                            Some(s3) => match gen_stmts(orelse@, s3) {
                                Some(s4) => patch_forward(s4, j2),
                                None => None,
                            },
                            None => None,
                        }
                    },
                    None => None,
                }
            },
            None => None,
        },
        Stmt::While { test, body, .. } => {
            let ls = st.cur.len() as int;
            match gen_expr(test, st) {
                Some(s1) => {
                    let ex = s1.cur.len() as int;
                    match gen_stmts(body@, emit(s1, op16(Opcode::JumpIfFalse, 0))) {
                        Some(s2) => match rel(ls, s2.cur.len() as int) {
                            Some(back) => patch_forward(emit(s2, op16(Opcode::Jump, back as u16)), ex),
                            None => None,
                        },
                        None => None,
                    }
                },
                None => None,
            }
        },
        Stmt::For { .. } => gen_for(s, st),
        Stmt::Return(r) => match r {
            Some(e) => match gen_expr(e, st) {
                Some(s1) => Some(emit(s1, seq![Opcode::ReturnValue.byte()])),
                None => None,
            },
            None => Some(emit(st, seq![Opcode::Return.byte()])),
        },
        Stmt::FuncDef { name, args, body, .. } => {
            let k = args.args@.len() as u16;
            if k + 16 <= u16::MAX {
                match gen_params(args.args@, emit(fresh_code(st), op16(Opcode::AllocFrame, 16))) {
                    Some(s1) => match gen_stmts(body@, s1) {
                        Some(s2) => {
                            let s3 = emit(s2, seq![Opcode::Return.byte()]);
                            let s4 = close_fn(s3, st.cur, name@, (k + 16) as u16, k);
                            emit_named(
                                emit(s4, op16(Opcode::MakeClosure, s3.funcs.len() as u16)),
                                Opcode::StoreGlobal,
                                name@,
                            )
                        },
                        None => None,
                    },
                    None => None,
                }
            } else {
                None
            }
        },
        Stmt::ClassDef { .. } => gen_class(s, st),
        Stmt::Import { names } => gen_imports(names@, names@.len() as int, st),
        Stmt::ImportFrom { module, names, .. } => match module {
            Some(m) => match emit_named(st, Opcode::Import, m@) {
                Some(s1) => if s1.fc < u32::MAX {
                    match intern_name(bump_fc(s1), module_slot_name(s1.fc)) {
                        Some((s2, slot)) => gen_from_names(
                            names@,
                            slot,
                            names@.len() as int,
                            emit(s2, op16(Opcode::StoreGlobal, slot)),
                        ),
                        None => None,
                    }
                } else {
                    None
                },
                None => None,
            },
            None => Some(st),
        },
        Stmt::Pass => Some(st),
        Stmt::Break => Some(emit(st, op16(Opcode::Jump, 0))),
        Stmt::Continue => Some(emit(st, op16(Opcode::Jump, 0))),
        Stmt::With { items, body } => match gen_with(items@, items@.len() as int, st) {
            Some(s1) => gen_stmts(body@, s1),
            None => None,
        },
        Stmt::Try { body, .. } => gen_stmts(body@, st),
        _ => Some(st),
    }
}

/// The code of a `for` loop over an array: hidden globals hold the array
/// and the index, which counts up to the array's length.
pub open spec fn gen_for(s: Stmt, st: CgState) -> Option<CgState>
    decreases s, 2int,
{
    match s {
        Stmt::For { target, iter, body, .. } => if st.fc < u32::MAX {
            let id = st.fc;
            match intern_name(bump_fc(st), iter_name(id)) {
                Some((s1, its)) => match intern_name(s1, index_name(id)) {
                    Some((s2, iis)) => match gen_expr(iter, s2) {
                        Some(s3) => {
                            let s4 = emit(
                                s3,
                                op16(Opcode::StoreGlobal, its) + push_i32_code(0) + op16(
                                    Opcode::StoreGlobal,
                                    iis,
                                ),
                            );
                            let ls = s4.cur.len() as int;
                            let s5 = emit(
                                s4,
                                op16(Opcode::LoadGlobal, iis) + op16(Opcode::LoadGlobal, its) + seq![
                                    Opcode::ArrayLen.byte(),
                                    Opcode::Lt.byte(),
                                ],
                            );
                            let ex = s5.cur.len() as int;
                            let s6 = emit(
                                s5,
                                op16(Opcode::JumpIfFalse, 0) + op16(Opcode::LoadGlobal, its) + op16(
                                    Opcode::LoadGlobal,
                                    iis,
                                ) + seq![Opcode::ArrayGet.byte()],
                            );
                            let s7 = match target {
                                Expr::Name(v) => emit_named(s6, Opcode::StoreGlobal, v@),
                                _ => Some(s6),
                            };
                            match s7 {
                                Some(s7) => match gen_stmts(body@, s7) {
                                    Some(s8) => {
                                        let s9 = emit(
                                            s8,
                                            op16(Opcode::LoadGlobal, iis) + push_i32_code(1) + seq![
                                                Opcode::Add.byte(),
                                            ] + op16(Opcode::StoreGlobal, iis),
                                        );
                                        match rel(ls, s9.cur.len() as int) {
                                            Some(back) => patch_forward(
                                                emit(s9, op16(Opcode::Jump, back as u16)),
                                                ex,
                                            ),
                                            None => None,
                                        }
                                    },
                                    None => None,
                                },
                                None => None,
                            }
                        },
                        None => None,
                    },
                    None => None,
                },
                None => None,
            }
        } else {
            None
        },
        _ => Some(st),
    }
}

/// The methods among the first `n` statements of a class body, compiled
/// in order: the state after them and each method's name and index.
pub open spec fn gen_methods(body: Seq<Stmt>, n: int, st: CgState) -> Option<
    (CgState, Seq<(Seq<char>, u32)>),
>
    decreases body, n,
{
    if n <= 0 || n > body.len() {
        Some((st, Seq::empty()))
    } else {
        match gen_methods(body, n - 1, st) {
            Some((s0, ms)) => match body[n - 1] {
                Stmt::FuncDef { name, args, body: fbody, .. } => {
                    let k = args.args@.len() as u16;
                    if k + 17 <= u16::MAX {
                        match gen_params(
                            args.args@,
                            emit(fresh_code(s0), op16(Opcode::AllocFrame, 16)),
                        ) {
                            Some(s1) => match gen_stmts(fbody@, s1) {
                                Some(s2) => {
                                    let s3 = emit(s2, seq![Opcode::Return.byte()]);
                                    Some(
                                        (
                                            close_fn(s3, s0.cur, name@, (k + 17) as u16, k),
                                            ms.push((name@, (s3.funcs.len() as u16) as u32)),
                                        ),
                                    )
                                },
                                None => None,
                            },
                            None => None,
                        }
                    } else {
                        None
                    }
                },
                _ => Some((s0, ms)),
            },
            None => None,
        }
    }
}

/// The code of a class definition: its methods are compiled first, then a
/// namespace and class are made, its fields and methods added, and the
/// class stored under its name.
pub open spec fn gen_class(s: Stmt, st: CgState) -> Option<CgState>
    decreases s, 2int,
{
    match s {
        Stmt::ClassDef { name, body, .. } => match gen_methods(body@, body@.len() as int, st) {
            Some((s1, methods)) => {
                let fields = class_fields(body@, body@.len() as int);
                match intern_name(s1, name@) {
                    Some((s2, nsid)) => {
                        let s3 = emit(
                            s2,
                            op16(Opcode::NewNamespace, nsid) + seq![Opcode::NewClass.byte()],
                        );
                        match gen_field_adds(fields, fields.len() as int, s3) {
                            Some(s4) => match gen_method_adds(methods, methods.len() as int, s4) {
                                Some(s5) => Some(emit(s5, op16(Opcode::StoreGlobal, nsid))),
                                None => None,
                            },
                            None => None,
                        }
                    },
                    None => None,
                }
            },
            None => None,
        },
        _ => Some(st),
    }
}

/// The code of statements in order.
pub open spec fn gen_stmts(ss: Seq<Stmt>, st: CgState) -> Option<CgState>
    decreases ss, 0int,
{
    if ss.len() == 0 {
        Some(st)
    } else {
        match gen_stmts(ss.drop_last(), st) {
            Some(s0) => gen_stmt(ss.last(), s0),
            None => None,
        }
    }
}


// ── Statement code ──

proof fn lemma_stmts_prefix(ss: Seq<Stmt>, st: CgState, k: int)
    requires
        gen_stmts(ss, st) is Some,
        0 <= k <= ss.len(),
    ensures
        gen_stmts(ss.take(k), st) is Some,
    decreases ss.len(),
{
    if k < ss.len() {
        lemma_stmts_prefix(ss.drop_last(), st, k);
        assert(ss.drop_last().take(k) =~= ss.take(k));
    } else {
        assert(ss.take(k) =~= ss);
    }
}

proof fn lemma_assign_prefix(ts: Seq<Expr>, v: Expr, n: int, st: CgState, k: int)
    requires
        gen_assign(ts, v, n, st) is Some,
        0 <= k <= n <= ts.len(),
    ensures
        gen_assign(ts, v, k, st) is Some,
    decreases n - k,
{
    if k < n {
        lemma_assign_prefix(ts, v, n - 1, st, k);
    }
}

proof fn lemma_aug_prefix(ts: Seq<Expr>, v: Expr, op: BinOp, n: int, st: CgState, k: int)
    requires
        gen_aug(ts, v, op, n, st) is Some,
        0 <= k <= n <= ts.len(),
    ensures
        gen_aug(ts, v, op, k, st) is Some,
    decreases n - k,
{
    if k < n {
        lemma_aug_prefix(ts, v, op, n - 1, st, k);
    }
}

proof fn lemma_with_prefix(items: Seq<WithItem>, n: int, st: CgState, k: int)
    requires
        gen_with(items, n, st) is Some,
        0 <= k <= n <= items.len(),
    ensures
        gen_with(items, k, st) is Some,
    decreases n - k,
{
    if k < n {
        lemma_with_prefix(items, n - 1, st, k);
    }
}

proof fn lemma_imports_prefix(names: Seq<Alias>, n: int, st: CgState, k: int)
    requires
        gen_imports(names, n, st) is Some,
        0 <= k <= n <= names.len(),
    ensures
        gen_imports(names, k, st) is Some,
    decreases n - k,
{
    if k < n {
        lemma_imports_prefix(names, n - 1, st, k);
    }
}

proof fn lemma_from_names_prefix(names: Seq<Alias>, slot: u16, n: int, st: CgState, k: int)
    requires
        gen_from_names(names, slot, n, st) is Some,
        0 <= k <= n <= names.len(),
    ensures
        gen_from_names(names, slot, k, st) is Some,
    decreases n - k,
{
    if k < n {
        lemma_from_names_prefix(names, slot, n - 1, st, k);
    }
}

proof fn lemma_field_adds_prefix(fields: Seq<Seq<char>>, n: int, st: CgState, k: int)
    requires
        gen_field_adds(fields, n, st) is Some,
        0 <= k <= n <= fields.len(),
    ensures
        gen_field_adds(fields, k, st) is Some,
    decreases n - k,
{
    if k < n {
        lemma_field_adds_prefix(fields, n - 1, st, k);
    }
}

proof fn lemma_method_adds_prefix(ms: Seq<(Seq<char>, u32)>, n: int, st: CgState, k: int)
    requires
        gen_method_adds(ms, n, st) is Some,
        0 <= k <= n <= ms.len(),
    ensures
        gen_method_adds(ms, k, st) is Some,
    decreases n - k,
{
    if k < n {
        lemma_method_adds_prefix(ms, n - 1, st, k);
    }
}

proof fn lemma_methods_prefix(body: Seq<Stmt>, n: int, st: CgState, k: int)
    requires
        gen_methods(body, n, st) is Some,
        0 <= k <= n <= body.len(),
    ensures
        gen_methods(body, k, st) is Some,
    decreases n - k,
{
    if k < n {
        lemma_methods_prefix(body, n - 1, st, k);
    }
}

/// The names and indices of compiled methods.
pub open spec fn methods_view(ms: Seq<(String, FuncRef)>) -> Seq<(Seq<char>, u32)> {
    ms.map_values(|m: (String, FuncRef)| (m.0@, m.1))
}

/// Adds the fields assigned as `self.<name> = ...` by assignment targets.
fn collect_target_fields(ts: &Vec<Expr>, fields: &mut Vec<String>)
    ensures
        string_views(final(fields)@) == fields_in_targets(
            ts@,
            ts@.len() as int,
            string_views(old(fields)@),
        ),
{
    let ghost acc = string_views(fields@);
    let mut i: usize = 0;
    proof {
        reveal_strlit("self");
    }
    while i < ts.len()
        invariant
            i <= ts@.len(),
            string_views(fields@) == fields_in_targets(ts@, i as int, acc),
        decreases ts@.len() - i,
    {
        match &ts[i] {
            Expr::Attribute { value: obj, attr } => {
                let is_self = match &**obj {
                    Expr::Name(o) => str_is(o, "self"),
                    _ => false,
                };
                if is_self && !contains_str(fields, attr) {
                    let ghost before = fields@;
                    fields.push(attr.clone());
                    assert(string_views(fields@) =~= string_views(before).push(attr@));
                }
            },
            _ => {},
        }
        i = i + 1;
    }
}

/// Adds the fields a statement assigns through `self`.
fn collect_stmt_fields(s: &Stmt, fields: &mut Vec<String>)
    ensures
        string_views(final(fields)@) == fields_in_stmt(*s, string_views(old(fields)@)),
    decreases s, 1int,
{
    match s {
        Stmt::Assign { targets, .. } => collect_target_fields(targets, fields),
        Stmt::If { body, orelse, .. } => {
            collect_fields(body, fields);
            collect_fields(orelse, fields);
        },
        Stmt::While { body, .. } => collect_fields(body, fields),
        Stmt::For { body, .. } => collect_fields(body, fields),
        Stmt::With { body, .. } => collect_fields(body, fields),
        Stmt::Try { body, orelse, .. } => {
            collect_fields(body, fields);
            collect_fields(orelse, fields);
        },
        _ => {},
    }
}

/// Adds the fields statements assign through `self`, in order.
pub fn collect_fields(stmts: &Vec<Stmt>, fields: &mut Vec<String>)
    ensures
        string_views(final(fields)@) == fields_in(stmts@, string_views(old(fields)@)),
    decreases stmts@, 0int,
{
    let ghost acc = string_views(fields@);
    let mut i: usize = 0;
    assert(stmts@.take(0) =~= Seq::<Stmt>::empty());
    while i < stmts.len()
        invariant
            i <= stmts@.len(),
            string_views(fields@) == fields_in(stmts@.take(i as int), acc),
        decreases stmts@.len() - i,
    {
        proof {
            assert(stmts@.take(i + 1).drop_last() =~= stmts@.take(i as int));
            assert(stmts@.take(i + 1).last() == stmts@[i as int]);
        }
        collect_stmt_fields(&stmts[i], fields);
        i = i + 1;
    }
    assert(stmts@.take(stmts@.len() as int) =~= stmts@);
}

/// A hidden name: `prefix`, the number `id`, then `__`.
fn hidden_name(prefix: &str, id: u32) -> (r: String)
    ensures
        r@ == prefix@ + decimal(id as nat) + "__"@,
{
    let mut s = String::from_str(prefix);
    let d = u32_to_decimal(id);
    s.append(d.as_str());
    s.append("__");
    s
}

/// The code of statements in order.
pub fn stmts(ss: &Vec<Stmt>, c: &mut Ctx) -> (ok: bool)
    requires
        old(c).wf(),
    ensures
        final(c).wf(),
        ok == (gen_stmts(ss@, old(c).state()) is Some),
        ok ==> final(c).state() == gen_stmts(ss@, old(c).state())->0,
        same_but_strings(old(c).module, final(c).module),
    decreases ss@, 0int,
{
    let ghost st0 = c.state();
    let ghost m0 = c.module;
    let mut i: usize = 0;
    assert(ss@.take(0) =~= Seq::<Stmt>::empty());
    while i < ss.len()
        invariant
            i <= ss@.len(),
            c.wf(),
            st0 == old(c).state(),
            gen_stmts(ss@.take(i as int), st0) == Some(c.state()),
            same_but_strings(m0, c.module),
            m0 == old(c).module,
        decreases ss@.len() - i,
    {
        proof {
            assert(ss@.take(i + 1).drop_last() =~= ss@.take(i as int));
            assert(ss@.take(i + 1).last() == ss@[i as int]);
        }
        if !stmt(&ss[i], c) {
            proof {
                if gen_stmts(ss@, st0) is Some {
                    lemma_stmts_prefix(ss@, st0, i + 1);
                }
            }
            return false;
        }
        i = i + 1;
    }
    assert(ss@.take(ss@.len() as int) =~= ss@);
    true
}

/// The code of a statement.
pub fn stmt(s: &Stmt, c: &mut Ctx) -> (ok: bool)
    requires
        old(c).wf(),
    ensures
        final(c).wf(),
        ok == (gen_stmt(*s, old(c).state()) is Some),
        ok ==> final(c).state() == gen_stmt(*s, old(c).state())->0,
        same_but_strings(old(c).module, final(c).module),
    decreases s, 4int,
{
    let ghost st = c.state();
    match s {
        Stmt::Expr(e) => {
            let is_print = match e {
                Expr::Call { func, .. } => match &**func {
                    Expr::Name(n) => {
                        proof {
                            reveal_strlit("print");
                        }
                        str_is(n, "print")
                    },
                    _ => false,
                },
                _ => false,
            };
            if !expr(e, c) {
                return false;
            }
            if !is_print {
                c.cur.push_op(Opcode::Pop);
            }
            assert(c.state() =~= gen_stmt(*s, st)->0);
            true
        },
        Stmt::Assign { .. } => assign_stmt(s, c),
        Stmt::AnnAssign { target, value, .. } => {
            match target {
                Expr::Name(n) => match value {
                    Some(v) => {
                        if !expr(v, c) {
                            return false;
                        }
                        push_named(c, Opcode::StoreGlobal, n.as_str())
                    },
                    None => true,
                },
                _ => true,
            }
        },
        Stmt::If { .. } => if_stmt(s, c),
        Stmt::While { .. } => while_stmt(s, c),
        Stmt::For { .. } => for_stmt(s, c),
        Stmt::Return(r) => {
            match r {
                Some(e) => {
                    if !expr(e, c) {
                        return false;
                    }
                    c.cur.push_op(Opcode::ReturnValue);
                },
                None => {
                    c.cur.push_op(Opcode::Return);
                },
            }
            assert(c.state() =~= gen_stmt(*s, st)->0);
            true
        },
        Stmt::FuncDef { .. } => funcdef_stmt(s, c),
        Stmt::ClassDef { .. } => class_stmt(s, c),
        Stmt::Import { .. } => import_stmt(s, c),
        Stmt::ImportFrom { .. } => import_from_stmt(s, c),
        Stmt::Pass => true,
        Stmt::Break => {
            c.cur.push_op16(Opcode::Jump, 0);
            assert(c.state() =~= gen_stmt(*s, st)->0);
            true
        },
        Stmt::Continue => {
            c.cur.push_op16(Opcode::Jump, 0);
            assert(c.state() =~= gen_stmt(*s, st)->0);
            true
        },
        Stmt::With { .. } => with_stmt(s, c),
        Stmt::Try { body, .. } => stmts(body, c),
        _ => true,
    }
}

/// The code of an assignment.
#[verifier::loop_isolation(false)]
fn assign_stmt(s: &Stmt, c: &mut Ctx) -> (ok: bool)
    requires
        old(c).wf(),
        s is Assign,
    ensures
        final(c).wf(),
        ok == (gen_stmt(*s, old(c).state()) is Some),
        ok ==> final(c).state() == gen_stmt(*s, old(c).state())->0,
        same_but_strings(old(c).module, final(c).module),
    decreases s, 3int,
{
    let ghost st = c.state();
    let ghost m0 = c.module;
    match s {
        Stmt::Assign { targets, value, aug } => {
            match aug {
                None => {
                    let mut i: usize = 0;
                    while i < targets.len()
                        invariant
                            i <= targets@.len(),
                            c.wf(),
                            gen_assign(targets@, *value, i as int, st) == Some(c.state()),
                            same_but_strings(m0, c.module),
                        decreases targets@.len() - i,
                    {
                        let done = match &targets[i] {
                            Expr::Name(n) => {
                                if expr(value, c) {
                                    push_named(c, Opcode::StoreGlobal, n.as_str())
                                } else {
                                    false
                                }
                            },
                            Expr::Attribute { value: obj, attr } => {
                                if expr(obj, c) {
                                    if expr(value, c) {
                                        push_named(c, Opcode::SetAttr, attr.as_str())
                                    } else {
                                        false
                                    }
                                } else {
                                    false
                                }
                            },
                            _ => {
                                if expr(value, c) {
                                    c.cur.push_op(Opcode::Pop);
                                    true
                                } else {
                                    false
                                }
                            },
                        };
                        if !done {
                            proof {
                                if gen_assign(targets@, *value, targets@.len() as int, st) is Some {
                                    lemma_assign_prefix(targets@, *value, targets@.len() as int, st, i + 1);
                                }
                            }
                            return false;
                        }
                        assert(c.state() =~= gen_assign(targets@, *value, i + 1, st)->0);
                        i = i + 1;
                    }
                    true
                },
                Some(op) => {
                    let mut i: usize = 0;
                    while i < targets.len()
                        invariant
                            i <= targets@.len(),
                            c.wf(),
                            gen_aug(targets@, *value, *op, i as int, st) == Some(c.state()),
                            same_but_strings(m0, c.module),
                        decreases targets@.len() - i,
                    {
                        let done = match &targets[i] {
                            Expr::Name(n) => {
                                match try_intern(c, n.as_str()) {
                                    Some(sid) => {
                                        let ghost s1 = c.state();
                                        c.cur.push_op16(Opcode::LoadGlobal, sid);
                                        assert(c.state() =~= emit(s1, op16(Opcode::LoadGlobal, sid)));
                                        if expr(value, c) {
                                            c.cur.push(bop(*op));
                                            c.cur.push_op16(Opcode::StoreGlobal, sid);
                                            true
                                        } else {
                                            false
                                        }
                                    },
                                    None => false,
                                }
                            },
                            _ => true,
                        };
                        if !done {
                            proof {
                                if gen_aug(targets@, *value, *op, targets@.len() as int, st) is Some {
                                    lemma_aug_prefix(targets@, *value, *op, targets@.len() as int, st, i + 1);
                                }
                            }
                            return false;
                        }
                        assert(c.state() =~= gen_aug(targets@, *value, *op, i + 1, st)->0);
                        i = i + 1;
                    }
                    true
                },
            }
        },
        _ => true,
    }
}

/// The code of an `if` statement.
fn if_stmt(s: &Stmt, c: &mut Ctx) -> (ok: bool)
    requires
        old(c).wf(),
        s is If,
    ensures
        final(c).wf(),
        ok == (gen_stmt(*s, old(c).state()) is Some),
        ok ==> final(c).state() == gen_stmt(*s, old(c).state())->0,
        same_but_strings(old(c).module, final(c).module),
    decreases s, 3int,
{
    let ghost st = c.state();
    match s {
        Stmt::If { test, body, orelse } => {
            if !expr(test, c) {
                return false;
            }
            let j1 = c.cur.len();
            let ghost s1 = c.state();
            c.cur.push_op16(Opcode::JumpIfFalse, 0);
            assert(c.state() =~= emit(s1, op16(Opcode::JumpIfFalse, 0)));
            if !stmts(body, c) {
                return false;
            }
            let j2 = c.cur.len();
            let ghost s2 = c.state();
            c.cur.push_op16(Opcode::Jump, 0);
            assert(c.state() =~= emit(s2, op16(Opcode::Jump, 0)));
            if !patch_jump(c, j1) {
                return false;
            }
            if !stmts(orelse, c) {
                return false;
            }
            patch_jump(c, j2)
        },
        _ => true,
    }
}

/// The code of a `while` statement.
fn while_stmt(s: &Stmt, c: &mut Ctx) -> (ok: bool)
    requires
        old(c).wf(),
        s is While,
    ensures
        final(c).wf(),
        ok == (gen_stmt(*s, old(c).state()) is Some),
        ok ==> final(c).state() == gen_stmt(*s, old(c).state())->0,
        same_but_strings(old(c).module, final(c).module),
    decreases s, 3int,
{
    let ghost st = c.state();
    match s {
        Stmt::While { test, body, .. } => {
            let ls = c.cur.len();
            if !expr(test, c) {
                return false;
            }
            let ex = c.cur.len();
            let ghost s1 = c.state();
            c.cur.push_op16(Opcode::JumpIfFalse, 0);
            assert(c.state() =~= emit(s1, op16(Opcode::JumpIfFalse, 0)));
            if !stmts(body, c) {
                return false;
            }
            let back_opt = rel_of(ls, c.cur.len());
            if back_opt.is_none() {
                return false;
            }
            let back = back_opt.unwrap();
            let ghost s2 = c.state();
            c.cur.push_op16(Opcode::Jump, back as u16);
            assert(c.state() =~= emit(s2, op16(Opcode::Jump, back as u16)));
            patch_jump(c, ex)
        },
        _ => true,
    }
}

/// The code of a `for` loop.
#[verifier::rlimit(60)]
fn for_stmt(s: &Stmt, c: &mut Ctx) -> (ok: bool)
    requires
        old(c).wf(),
        s is For,
    ensures
        final(c).wf(),
        ok == (gen_stmt(*s, old(c).state()) is Some),
        ok ==> final(c).state() == gen_stmt(*s, old(c).state())->0,
        same_but_strings(old(c).module, final(c).module),
    decreases s, 3int,
{
    let ghost st = c.state();
    assert(gen_stmt(*s, st) == gen_for(*s, st));
    proof {
        reveal_strlit("__it_");
        reveal_strlit("__i_");
    }
    match s {
        Stmt::For { target, iter, body, .. } => {
            if c.fc == u32::MAX {
                return false;
            }
            let id = c.fc;
            c.push_fc();
            assert(c.state() =~= bump_fc(st));
            let its_name = hidden_name("__it_", id);
            assert(its_name@ == iter_name(id as int));
            let its_opt = try_intern(c, its_name.as_str());
            if its_opt.is_none() {
                return false;
            }
            let its = its_opt.unwrap();
            let ghost s1 = c.state();
            let iis_name = hidden_name("__i_", id);
            assert(iis_name@ == index_name(id as int));
            let iis_opt = try_intern(c, iis_name.as_str());
            if iis_opt.is_none() {
                return false;
            }
            let iis = iis_opt.unwrap();
            if !expr(iter, c) {
                return false;
            }
            let ghost s3 = c.state();
            c.cur.push_op16(Opcode::StoreGlobal, its);
            c.cur.push_op(Opcode::PushI32);
            c.cur.push_i32(0);
            c.cur.push_op16(Opcode::StoreGlobal, iis);
            let ghost s4 = emit(
                s3,
                op16(Opcode::StoreGlobal, its) + push_i32_code(0) + op16(Opcode::StoreGlobal, iis),
            );
            assert(c.state() =~= s4);
            let ls = c.cur.len();
            c.cur.push_op16(Opcode::LoadGlobal, iis);
            c.cur.push_op16(Opcode::LoadGlobal, its);
            c.cur.push_op(Opcode::ArrayLen);
            c.cur.push_op(Opcode::Lt);
            let ghost s5 = emit(
                s4,
                op16(Opcode::LoadGlobal, iis) + op16(Opcode::LoadGlobal, its) + seq![
                    Opcode::ArrayLen.byte(),
                    Opcode::Lt.byte(),
                ],
            );
            assert(c.state() =~= s5);
            let ex = c.cur.len();
            c.cur.push_op16(Opcode::JumpIfFalse, 0);
            c.cur.push_op16(Opcode::LoadGlobal, its);
            c.cur.push_op16(Opcode::LoadGlobal, iis);
            c.cur.push_op(Opcode::ArrayGet);
            let ghost s6 = emit(
                s5,
                op16(Opcode::JumpIfFalse, 0) + op16(Opcode::LoadGlobal, its) + op16(
                    Opcode::LoadGlobal,
                    iis,
                ) + seq![Opcode::ArrayGet.byte()],
            );
            assert(c.state() =~= s6);
            match target {
                Expr::Name(v) => {
                    if !push_named(c, Opcode::StoreGlobal, v.as_str()) {
                        return false;
                    }
                },
                _ => {},
            }
            if !stmts(body, c) {
                return false;
            }
            let ghost s8 = c.state();
            c.cur.push_op16(Opcode::LoadGlobal, iis);
            c.cur.push_op(Opcode::PushI32);
            c.cur.push_i32(1);
            c.cur.push_op(Opcode::Add);
            c.cur.push_op16(Opcode::StoreGlobal, iis);
            let ghost s9 = emit(
                s8,
                op16(Opcode::LoadGlobal, iis) + push_i32_code(1) + seq![Opcode::Add.byte()] + op16(
                    Opcode::StoreGlobal,
                    iis,
                ),
            );
            assert(c.state() =~= s9);
            let back_opt = rel_of(ls, c.cur.len());
            if back_opt.is_none() {
                return false;
            }
            let back = back_opt.unwrap();
            c.cur.push_op16(Opcode::Jump, back as u16);
            assert(c.state() =~= emit(s9, op16(Opcode::Jump, back as u16)));
            patch_jump(c, ex)
        },
        _ => true,
    }
}

/// Compiles the body of a function: a fresh frame, its parameters bound,
/// its statements and a final `Return`. Leaves the function's code current.
fn function_body(args: &Vec<Arg>, body: &Vec<Stmt>, c: &mut Ctx) -> (ok: bool)
    requires
        old(c).wf(),
    ensures
        final(c).wf(),
        ok == (match gen_params(args@, emit(old(c).state(), op16(Opcode::AllocFrame, 16))) {
            Some(s1) => gen_stmts(body@, s1) is Some,
            None => false,
        }),
        ok ==> final(c).state() == emit(
            gen_stmts(
                body@,
                gen_params(args@, emit(old(c).state(), op16(Opcode::AllocFrame, 16)))->0,
            )->0,
            seq![Opcode::Return.byte()],
        ),
        same_but_strings(old(c).module, final(c).module),
    decreases body@, 1int,
{
    let ghost st = c.state();
    c.cur.push_op16(Opcode::AllocFrame, 16);
    assert(c.state() =~= emit(st, op16(Opcode::AllocFrame, 16)));
    if !params(args, c) {
        return false;
    }
    if !stmts(body, c) {
        return false;
    }
    let ghost s2 = c.state();
    c.cur.push_op(Opcode::Return);
    assert(c.state() =~= emit(s2, seq![Opcode::Return.byte()]));
    true
}

/// Records the function whose code is current under `name` and resumes
/// the code `saved`. Returns the new function's index.
fn finish(c: &mut Ctx, saved: Vec<u8>, name: &String, n_locals: u16, n_params: u16) -> (fi: u16)
    requires
        old(c).wf(),
    ensures
        final(c).wf(),
        fi == old(c).funcs@.len() as u16,
        final(c).state() == close_fn(old(c).state(), saved@, name@, n_locals, n_params),
        final(c).module == old(c).module,
{
    let inner_bc = c.cur.take();
    let fi = c.nf();
    let ghost funcs_before = c.funcs@;
    c.funcs.push(
        FunctionDef {
            name: name.clone(),
            bytecode: inner_bc,
            n_locals,
            n_params,
            is_variadic: false,
            n_captures: 0,
            return_type: None,
            param_types: Vec::new(),
            hotness: 0,
        },
    );
    c.cur = Buf(saved);
    proof {
        assert(fn_models(c.funcs@) =~= fn_models(funcs_before).push(fn_model(c.funcs@.last())));
        assert(c.state() =~= close_fn(old(c).state(), saved@, name@, n_locals, n_params));
    }
    fi
}

/// The code of a function definition.
fn funcdef_stmt(s: &Stmt, c: &mut Ctx) -> (ok: bool)
    requires
        old(c).wf(),
        s is FuncDef,
    ensures
        final(c).wf(),
        ok == (gen_stmt(*s, old(c).state()) is Some),
        ok ==> final(c).state() == gen_stmt(*s, old(c).state())->0,
        same_but_strings(old(c).module, final(c).module),
    decreases s, 3int,
{
    let ghost st = c.state();
    match s {
        Stmt::FuncDef { name, args, body, .. } => {
            let n = args.args.len() as u16;
            if n > u16::MAX - 16 {
                return false;
            }
            let saved = c.cur.take();
            assert(c.state() =~= fresh_code(st));
            if !function_body(&args.args, body, c) {
                return false;
            }
            let ghost s3 = c.state();
            let fi = finish(c, saved, name, n + 16, n);
            c.cur.push_op16(Opcode::MakeClosure, fi);
            let ghost s5 = c.state();
            assert(s5 =~= emit(close_fn(s3, st.cur, name@, (n + 16) as u16, n), op16(Opcode::MakeClosure, s3.funcs.len() as u16)));
            push_named(c, Opcode::StoreGlobal, name.as_str())
        },
        _ => true,
    }
}

/// Compiles the methods of a class body in order; returns each method's
/// name and index.
#[verifier::loop_isolation(false)]
fn class_methods(body: &Vec<Stmt>, c: &mut Ctx) -> (r: Option<Vec<(String, FuncRef)>>)
    requires
        old(c).wf(),
    ensures
        final(c).wf(),
        r is Some == (gen_methods(body@, body@.len() as int, old(c).state()) is Some),
        r is Some ==> gen_methods(body@, body@.len() as int, old(c).state()) == Some(
            (final(c).state(), methods_view(r->0@)),
        ),
        same_but_strings(old(c).module, final(c).module),
    decreases body@, 2int,
{
    let ghost st = c.state();
    let ghost m0 = c.module;
    let mut methods: Vec<(String, FuncRef)> = Vec::new();
    let mut i: usize = 0;
    assert(methods_view(methods@) =~= Seq::<(Seq<char>, u32)>::empty());
    while i < body.len()
        invariant
            i <= body@.len(),
            c.wf(),
            gen_methods(body@, i as int, st) == Some((c.state(), methods_view(methods@))),
            same_but_strings(m0, c.module),
        decreases body@.len() - i,
    {
        let ghost s0 = c.state();
        let ghost ms0 = methods@;
        let done = match &body[i] {
            Stmt::FuncDef { name: fn_name, args, body: fn_body, .. } => {
                let n = args.args.len() as u16;
                if n > u16::MAX - 17 {
                    false
                } else {
                    let saved = c.cur.take();
                    assert(c.state() =~= fresh_code(s0));
                    if function_body(&args.args, fn_body, c) {
                        let fi = finish(c, saved, fn_name, n + 17, n);
                        methods.push((fn_name.clone(), fi as FuncRef));
                        assert(methods_view(methods@) =~= methods_view(ms0).push((fn_name@, fi as u32)));
                        true
                    } else {
                        false
                    }
                }
            },
            _ => true,
        };
        if !done {
            proof {
                if gen_methods(body@, body@.len() as int, st) is Some {
                    lemma_methods_prefix(body@, body@.len() as int, st, i + 1);
                }
            }
            return None;
        }
        i = i + 1;
    }
    Some(methods)
}

/// The fields assigned through `self` in the methods of a class body.
fn class_field_names(body: &Vec<Stmt>) -> (fields: Vec<String>)
    ensures
        string_views(fields@) == class_fields(body@, body@.len() as int),
{
    let mut fields: Vec<String> = Vec::new();
    let mut j: usize = 0;
    assert(string_views(fields@) =~= Seq::<Seq<char>>::empty());
    while j < body.len()
        invariant
            j <= body@.len(),
            string_views(fields@) == class_fields(body@, j as int),
        decreases body@.len() - j,
    {
        match &body[j] {
            Stmt::FuncDef { body: fn_body, .. } => collect_fields(fn_body, &mut fields),
            _ => {},
        }
        j = j + 1;
    }
    fields
}

/// Declares the fields of a class.
fn add_fields(fields: &Vec<String>, c: &mut Ctx) -> (ok: bool)
    requires
        old(c).wf(),
    ensures
        final(c).wf(),
        ok == (gen_field_adds(string_views(fields@), fields@.len() as int, old(c).state()) is Some),
        ok ==> final(c).state() == gen_field_adds(string_views(fields@), fields@.len() as int, old(c).state())->0,
        same_but_strings(old(c).module, final(c).module),
{
    let ghost st = c.state();
    let ghost fs = string_views(fields@);
    let ghost m0 = c.module;
    let mut k: usize = 0;
    while k < fields.len()
        invariant
            k <= fields@.len(),
            fs == string_views(fields@),
            c.wf(),
            st == old(c).state(),
            gen_field_adds(fs, k as int, st) == Some(c.state()),
            same_but_strings(m0, c.module),
            m0 == old(c).module,
        decreases fields@.len() - k,
    {
        let ghost sa = c.state();
        c.cur.push_op(Opcode::Dup);
        assert(c.state() =~= emit(sa, seq![Opcode::Dup.byte()]));
        if !push_named(c, Opcode::ClassAddField, fields[k].as_str()) {
            proof {
                if gen_field_adds(fs, fs.len() as int, st) is Some {
                    lemma_field_adds_prefix(fs, fs.len() as int, st, k + 1);
                }
            }
            return false;
        }
        k = k + 1;
    }
    true
}

/// Declares the methods of a class, marking `__init__` as the constructor.
fn add_methods(methods: &Vec<(String, FuncRef)>, c: &mut Ctx) -> (ok: bool)
    requires
        old(c).wf(),
    ensures
        final(c).wf(),
        ok == (gen_method_adds(methods_view(methods@), methods@.len() as int, old(c).state()) is Some),
        ok ==> final(c).state() == gen_method_adds(methods_view(methods@), methods@.len() as int, old(c).state())->0,
        same_but_strings(old(c).module, final(c).module),
{
    let ghost st = c.state();
    let ghost ms = methods_view(methods@);
    let ghost m0 = c.module;
    proof {
        reveal_strlit("__init__");
    }
    let mut m: usize = 0;
    while m < methods.len()
        invariant
            m <= methods@.len(),
            ms == methods_view(methods@),
            c.wf(),
            st == old(c).state(),
            gen_method_adds(ms, m as int, st) == Some(c.state()),
            same_but_strings(m0, c.module),
            m0 == old(c).module,
        decreases methods@.len() - m,
    {
        let method_name = &methods[m].0;
        let fi = methods[m].1;
        let ghost s0 = c.state();
        c.cur.push_op(Opcode::Dup);
        c.cur.push_op16(Opcode::MakeClosure, fi as u16);
        assert(c.state() =~= emit(s0, seq![Opcode::Dup.byte()] + op16(Opcode::MakeClosure, fi as u16)));
        let is_init = str_is(method_name, "__init__");
        let msid_opt = try_intern(c, method_name.as_str());
        if msid_opt.is_none() {
            proof {
                if gen_method_adds(ms, ms.len() as int, st) is Some {
                    lemma_method_adds_prefix(ms, ms.len() as int, st, m + 1);
                }
            }
            return false;
        }
        let msid = msid_opt.unwrap();
        let operand = if is_init {
            msid | 0x8000
        } else {
            msid
        };
        c.cur.push(Opcode::ClassAddMethod.to_byte());
        c.cur.push_u16(operand);
        assert(c.state() =~= gen_method_adds(ms, m + 1, st)->0);
        m = m + 1;
    }
    true
}

/// The code of a class definition.
fn class_stmt(s: &Stmt, c: &mut Ctx) -> (ok: bool)
    requires
        old(c).wf(),
        s is ClassDef,
    ensures
        final(c).wf(),
        ok == (gen_stmt(*s, old(c).state()) is Some),
        ok ==> final(c).state() == gen_stmt(*s, old(c).state())->0,
        same_but_strings(old(c).module, final(c).module),
    decreases s, 3int,
{
    let ghost st = c.state();
    assert(gen_stmt(*s, st) == gen_class(*s, st));
    match s {
        Stmt::ClassDef { name, body, .. } => {
            let methods_opt = class_methods(body, c);
            if methods_opt.is_none() {
                return false;
            }
            let methods = methods_opt.unwrap();
            let fields = class_field_names(body);
            let ghost s1 = c.state();
            let sid_opt = try_intern(c, name.as_str());
            if sid_opt.is_none() {
                return false;
            }
            let name_sid = sid_opt.unwrap();
            c.cur.push_op16(Opcode::NewNamespace, name_sid);
            c.cur.push_op(Opcode::NewClass);
            assert(c.state() =~= emit(
                (intern_name(s1, name@)->0).0,
                op16(Opcode::NewNamespace, name_sid) + seq![Opcode::NewClass.byte()],
            ));
            if !add_fields(&fields, c) {
                return false;
            }
            if !add_methods(&methods, c) {
                return false;
            }
            c.cur.push_op16(Opcode::StoreGlobal, name_sid);
            assert(c.state() =~= gen_class(*s, st)->0);
            true
        },
        _ => true,
    }
}

/// The code of an `import` statement.
#[verifier::loop_isolation(false)]
fn import_stmt(s: &Stmt, c: &mut Ctx) -> (ok: bool)
    requires
        old(c).wf(),
        s is Import,
    ensures
        final(c).wf(),
        ok == (gen_stmt(*s, old(c).state()) is Some),
        ok ==> final(c).state() == gen_stmt(*s, old(c).state())->0,
        same_but_strings(old(c).module, final(c).module),
    decreases s, 3int,
{
    let ghost st = c.state();
    let ghost m0 = c.module;
    match s {
        Stmt::Import { names } => {
            let mut i: usize = 0;
            while i < names.len()
                invariant
                    i <= names@.len(),
                    c.wf(),
                    gen_imports(names@, i as int, st) == Some(c.state()),
                    same_but_strings(m0, c.module),
                decreases names@.len() - i,
            {
                let done = if push_named(c, Opcode::Import, names[i].name.as_str()) {
                    push_named(c, Opcode::StoreGlobal, names[i].name.as_str())
                } else {
                    false
                };
                if !done {
                    proof {
                        if gen_imports(names@, names@.len() as int, st) is Some {
                            lemma_imports_prefix(names@, names@.len() as int, st, i + 1);
                        }
                    }
                    return false;
                }
                i = i + 1;
            }
            true
        },
        _ => true,
    }
}

/// The code of a `from ... import` statement.
#[verifier::loop_isolation(false)]
fn import_from_stmt(s: &Stmt, c: &mut Ctx) -> (ok: bool)
    requires
        old(c).wf(),
        s is ImportFrom,
    ensures
        final(c).wf(),
        ok == (gen_stmt(*s, old(c).state()) is Some),
        ok ==> final(c).state() == gen_stmt(*s, old(c).state())->0,
        same_but_strings(old(c).module, final(c).module),
    decreases s, 3int,
{
    let ghost st = c.state();
    let ghost m0 = c.module;
    proof {
        reveal_strlit("__mod_");
    }
    match s {
        Stmt::ImportFrom { module, names, .. } => {
            match module {
                Some(module_name) => {
                    if !push_named(c, Opcode::Import, module_name.as_str()) {
                        return false;
                    }
                    let ghost s1 = c.state();
                    if c.fc == u32::MAX {
                        return false;
                    }
                    let id = c.fc;
                    c.push_fc();
                    assert(c.state() =~= bump_fc(s1));
                    let local_name = hidden_name("__mod_", id);
                    let sid_opt = try_intern(c, local_name.as_str());
                    if sid_opt.is_none() {
                        return false;
                    }
                    let local_sid = sid_opt.unwrap();
                    c.cur.push_op16(Opcode::StoreGlobal, local_sid);
                    let ghost s2 = c.state();
                    assert(s2 =~= emit((intern_name(bump_fc(s1), module_slot_name(s1.fc))->0).0, op16(Opcode::StoreGlobal, local_sid)));
                    let mut i: usize = 0;
                    while i < names.len()
                        invariant
                            i <= names@.len(),
                            c.wf(),
                            gen_from_names(names@, local_sid, i as int, s2) == Some(c.state()),
                            same_but_strings(m0, c.module),
                        decreases names@.len() - i,
                    {
                        let ghost sa = c.state();
                        c.cur.push_op16(Opcode::LoadGlobal, local_sid);
                        assert(c.state() =~= emit(sa, op16(Opcode::LoadGlobal, local_sid)));
                        let store_name = match &names[i].asname {
                            Some(a) => a,
                            None => &names[i].name,
                        };
                        let done = if push_named(c, Opcode::ImportFunc, names[i].name.as_str()) {
                            push_named(c, Opcode::StoreGlobal, store_name.as_str())
                        } else {
                            false
                        };
                        if !done {
                            proof {
                                if gen_from_names(names@, local_sid, names@.len() as int, s2) is Some {
                                    lemma_from_names_prefix(names@, local_sid, names@.len() as int, s2, i + 1);
                                }
                            }
                            return false;
                        }
                        i = i + 1;
                    }
                    true
                },
                None => true,
            }
        },
        _ => true,
    }
}

/// The code of a `with` statement: the context expressions are evaluated
/// and dropped, then the body runs.
#[verifier::loop_isolation(false)]
fn with_stmt(s: &Stmt, c: &mut Ctx) -> (ok: bool)
    requires
        old(c).wf(),
        s is With,
    ensures
        final(c).wf(),
        ok == (gen_stmt(*s, old(c).state()) is Some),
        ok ==> final(c).state() == gen_stmt(*s, old(c).state())->0,
        same_but_strings(old(c).module, final(c).module),
    decreases s, 3int,
{
    let ghost st = c.state();
    let ghost m0 = c.module;
    match s {
        Stmt::With { items, body } => {
            let mut i: usize = 0;
            while i < items.len()
                invariant
                    i <= items@.len(),
                    c.wf(),
                    gen_with(items@, i as int, st) == Some(c.state()),
                    same_but_strings(m0, c.module),
                decreases items@.len() - i,
            {
                if !expr(&items[i].context_expr, c) {
                    proof {
                        if gen_with(items@, items@.len() as int, st) is Some {
                            lemma_with_prefix(items@, items@.len() as int, st, i + 1);
                        }
                    }
                    return false;
                }
                c.cur.push_op(Opcode::Pop);
                assert(c.state() =~= gen_with(items@, i + 1, st)->0);
                i = i + 1;
            }
            stmts(body, c)
        },
        _ => true,
    }
}


// ── Programs ──

/// The context a compilation starts from.
pub open spec fn start_state() -> CgState {
    CgState { pool: Seq::empty(), funcs: Seq::empty(), cur: Seq::empty(), fc: 0 }
}

/// A program's code: its statements, then `Return`, closed as the
/// function `<module>` with 64 locals, which comes last.
pub open spec fn gen_program(stmts: Seq<Stmt>, st: CgState) -> Option<CgState> {
    match gen_stmts(stmts, st) {
        Some(s1) => Some(
            close_fn(emit(s1, seq![Opcode::Return.byte()]), Seq::empty(), "<module>"@, 64, 0),
        ),
        None => None,
    }
}

/// The message of a program whose code cannot be generated.
pub open spec fn limit_message() -> Seq<char> {
    "program exceeds a limit of the bytecode format"@
}

/// Compiles a program into the context: its statements, then the module
/// function.
pub fn compile_into_ctx(p: &Program, c: &mut Ctx) -> (ok: bool)
    requires
        old(c).wf(),
    ensures
        final(c).wf(),
        ok == (gen_program(p.stmts@, old(c).state()) is Some),
        ok ==> final(c).state() == gen_program(p.stmts@, old(c).state())->0,
        same_but_strings(old(c).module, final(c).module),
{
    let ghost st = c.state();
    if !stmts(&p.stmts, c) {
        return false;
    }
    let ghost s0 = c.state();
    c.cur.push_op(Opcode::Return);
    let ghost s1 = c.state();
    assert(s1 =~= emit(s0, seq![Opcode::Return.byte()]));
    proof {
        reveal_strlit("<module>");
    }
    let name = "<module>".to_owned();
    let empty: Vec<u8> = Vec::new();
    assert(empty@ =~= Seq::<u8>::empty());
    let _ = finish(c, empty, &name, 64, 0);
    assert(c.state() =~= gen_program(p.stmts@, st)->0);
    true
}

/// The error of a program whose code cannot be generated.
fn limit_error() -> (r: Result<(), String>)
    ensures
        r matches Err(m) && m@ == limit_message(),
{
    proof {
        reveal_strlit("program exceeds a limit of the bytecode format");
    }
    Err("program exceeds a limit of the bytecode format".to_owned())
}

/// The header a compiled Python module gets: named `name`, source
/// language `python`, and otherwise that of a new module.
pub open spec fn python_header(h: ModuleHeader, name: Seq<char>) -> bool {
    &&& h.name@ == name
    &&& h.source_lang@ == "python"@
    &&& h.compiler@ == "utencore"@
    &&& h.compiler_version@ == "0.0.5"@
    &&& h.gc_strategy@ == "generational"@
    &&& !h.jit_recommended
    &&& h.metadata@.len() == 0
    &&& h.line_map@.len() == 0
}

/// `b` equals `a` apart from its header, string pool and functions.
pub open spec fn same_tables(a: UtenModule, b: UtenModule) -> bool {
    &&& b.magic == a.magic
    &&& b.version == a.version
    &&& b.bytecode_version == a.bytecode_version
    &&& b.constants == a.constants
    &&& b.structs == a.structs
    &&& b.globals == a.globals
    &&& b.exports == a.exports
    &&& b.imports == a.imports
    &&& b.exceptions == a.exceptions
}

/// Compiles a program in a fresh context for the module `name`; `None`
/// where its code overruns a limit of the format.
fn compile_program(p: &Program, name: &str) -> (r: Option<Ctx>)
    ensures
        r is Some == (gen_program(p.stmts@, start_state()) is Some),
        r matches Some(c) ==> {
            &&& c.wf()
            &&& c.state() == gen_program(p.stmts@, start_state())->0
            &&& python_header(c.module.header, name@)
        },
{
    let mut c = Ctx::new(name);
    proof {
        reveal_strlit("python");
    }
    c.module.header.source_lang = "python".to_owned();
    assert(c.state() =~= start_state());
    if compile_into_ctx(p, &mut c) {
        Some(c)
    } else {
        None
    }
}

/// Compiles a program into a module builder: the builder receives the
/// functions (the module function last), the module the string pool and a
/// header naming the module `name`, with source language `python`.
/// Finalizing the builder is left to the caller. Where the program's code
/// overruns a limit of the format, the builder is left as it was and the
/// error says so.
pub fn compile_into_builder(p: &Program, name: &str, b: &mut ModuleBuilder) -> (r: Result<(), String>)
    ensures
        r is Ok == (gen_program(p.stmts@, start_state()) is Some),
        r matches Err(m) ==> m@ == limit_message(),
        r is Ok ==> fn_models(final(b).functions@) == gen_program(p.stmts@, start_state())->0.funcs,
        r is Ok ==> forall|i: int|
            0 <= i < final(b).functions@.len() ==> plain_fn(#[trigger] final(b).functions@[i]),
        r is Ok ==> final(b).module.pool() == gen_program(p.stmts@, start_state())->0.pool,
        r is Ok ==> python_header(final(b).module.header, name@),
        r is Err ==> final(b).functions == old(b).functions,
        r is Err ==> final(b).module.strings == old(b).module.strings,
        r is Err ==> final(b).module.header == old(b).module.header,
        same_tables(*old(b).module, *final(b).module),
        final(b).module.functions == old(b).module.functions,
        final(b).writer@ == old(b).writer@,
{
    match compile_program(p, name) {
        Some(c) => {
            b.functions = c.funcs;
            b.module.strings = c.module.strings;
            b.module.header = c.module.header;
            Ok(())
        },
        None => limit_error(),
    }
}

/// Compiles a program into the module `module`, as `compile_into_builder`
/// does with a builder over it whose functions are then dropped: the
/// module takes the string pool and header, and keeps its functions.
pub fn compile_into(p: &Program, name: &str, module: &mut UtenModule) -> (r: Result<(), String>)
    ensures
        r is Ok == (gen_program(p.stmts@, start_state()) is Some),
        r matches Err(m) ==> m@ == limit_message(),
        r is Ok ==> final(module).pool() == gen_program(p.stmts@, start_state())->0.pool,
        r is Ok ==> python_header(final(module).header, name@),
        r is Err ==> *final(module) == *old(module),
        same_tables(*old(module), *final(module)),
        final(module).functions == old(module).functions,
{
    match compile_program(p, name) {
        Some(c) => {
            module.strings = c.module.strings;
            module.header = c.module.header;
            Ok(())
        },
        None => limit_error(),
    }
}

/// Compiles a program into `module` as `compile_into_builder` into a
/// builder over it, then finalizing the builder, does: the module takes
/// the functions, the string pool and the header. On an error it is left
/// as it was.
pub(crate) fn compile_into_finalized(p: &Program, name: &str, module: &mut UtenModule) -> (r: Result<(), String>)
    ensures
        r is Ok == (gen_program(p.stmts@, start_state()) is Some),
        r matches Err(m) ==> m@ == limit_message(),
        r is Ok ==> fn_models(final(module).functions@) == gen_program(p.stmts@, start_state())->0.funcs,
        r is Ok ==> forall|i: int|
            0 <= i < final(module).functions@.len() ==> plain_fn(#[trigger] final(module).functions@[i]),
        r is Ok ==> final(module).pool() == gen_program(p.stmts@, start_state())->0.pool,
        r is Ok ==> python_header(final(module).header, name@),
        r is Err ==> *final(module) == *old(module),
        same_tables(*old(module), *final(module)),
{
    match compile_program(p, name) {
        Some(c) => {
            module.functions = c.funcs;
            module.strings = c.module.strings;
            module.header = c.module.header;
            Ok(())
        },
        None => limit_error(),
    }
}

} // verus!
