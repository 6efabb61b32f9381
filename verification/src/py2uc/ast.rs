//! Python 3 syntax trees: statements, expressions and operators.
//! Floating-point literals are held as their IEEE-754 bit patterns.
use vstd::prelude::*;

verus! {

/// A parsed module: its statements in order.
#[derive(Debug)]
pub struct Program {
    pub stmts: Vec<Stmt>,
}

/// A statement.
#[derive(Debug)]
pub enum Stmt {
    Expr(Expr),
    Assign { targets: Vec<Expr>, value: Expr, aug: Option<BinOp> },
    AnnAssign { target: Expr, annotation: Expr, value: Option<Expr> },
    If { test: Expr, body: Vec<Stmt>, orelse: Vec<Stmt> },
    While { test: Expr, body: Vec<Stmt>, orelse: Vec<Stmt> },
    For { target: Expr, iter: Expr, body: Vec<Stmt>, orelse: Vec<Stmt> },
    FuncDef {
        name: String,
        args: Arguments,
        body: Vec<Stmt>,
        decorators: Vec<Expr>,
        returns: Option<Expr>,
    },
    ClassDef { name: String, bases: Vec<Expr>, body: Vec<Stmt>, decorators: Vec<Expr> },
    Return(Option<Expr>),
    Yield(Option<Box<Expr>>),
    YieldFrom(Expr),
    Import { names: Vec<Alias> },
    ImportFrom { module: Option<String>, names: Vec<Alias>, level: usize },
    Try { body: Vec<Stmt>, handlers: Vec<ExceptHandler>, orelse: Vec<Stmt>, finalbody: Vec<Stmt> },
    Raise { exc: Option<Expr>, cause: Option<Expr> },
    With { items: Vec<WithItem>, body: Vec<Stmt> },
    Pass,
    Break,
    Continue,
    Global(Vec<String>),
    Nonlocal(Vec<String>),
    Del(Expr),
    Assert { test: Expr, msg: Option<Expr> },
}

/// One `with` item.
#[derive(Debug)]
pub struct WithItem {
    pub context_expr: Expr,
    pub optional_vars: Option<Expr>,
}

/// An `except` clause.
#[derive(Debug)]
pub struct ExceptHandler {
    pub typ: Option<Expr>,
    pub name: Option<String>,
    pub body: Vec<Stmt>,
}

/// An imported name, possibly renamed.
#[derive(Debug)]
pub struct Alias {
    pub name: String,
    pub asname: Option<String>,
}

/// A function parameter.
#[derive(Debug)]
pub struct Arg {
    pub arg: String,
    pub annotation: Option<Box<Expr>>,
}

/// The parameters of a function or lambda.
#[derive(Debug)]
pub struct Arguments {
    pub args: Vec<Arg>,
    pub vararg: Option<Box<Arg>>,
    pub kwonlyargs: Vec<Arg>,
    pub kw_defaults: Vec<Expr>,
    pub kwarg: Option<Box<Arg>>,
    pub defaults: Vec<Expr>,
}

/// An expression.
#[derive(Debug)]
pub enum Expr {
    Name(String),
    Int(i64),
    /// A float literal, by its bit pattern.
    Float(u64),
    /// A complex literal, by the bit patterns of its parts.
    Complex { real: u64, imag: u64 },
    Str(String),
    Bytes(Vec<u8>),
    Bool(bool),
    None_,
    Ellipsis,
    FString(Vec<FStringPart>),
    List(Vec<Expr>),
    Tuple(Vec<Expr>),
    /// A set display `{a, b}`.
    SetLiteral(Vec<Expr>),
    Dict(Vec<(Box<Expr>, Box<Expr>)>),
    ListComp { elt: Box<Expr>, generators: Vec<Comprehension> },
    SetComp { elt: Box<Expr>, generators: Vec<Comprehension> },
    DictComp { key: Box<Expr>, value: Box<Expr>, generators: Vec<Comprehension> },
    Generator(Box<Expr>, Vec<Comprehension>),
    UnaryOp { op: UnaryOp, operand: Box<Expr> },
    BinOp { left: Box<Expr>, op: BinOp, right: Box<Expr> },
    BoolOp { op: BoolOp, values: Vec<Expr> },
    Compare { left: Box<Expr>, ops: Vec<CmpOp>, comparators: Vec<Expr> },
    IfExpr { test: Box<Expr>, body: Box<Expr>, orelse: Box<Expr> },
    Call { func: Box<Expr>, args: Vec<Expr>, keywords: Vec<Keyword> },
    Attribute { value: Box<Expr>, attr: String },
    Subscript { value: Box<Expr>, slice: Box<Slice> },
    Lambda { args: Arguments, body: Box<Expr> },
    Yield(Option<Box<Expr>>),
    YieldFrom(Box<Expr>),
    Await(Box<Expr>),
    Starred(Box<Expr>),
    NamedExpr { target: Box<Expr>, value: Box<Expr> },
}

/// A piece of an f-string.
#[derive(Debug)]
pub enum FStringPart {
    Literal(String),
    Expr(Expr),
}

/// A `for ... in ... if ...` clause of a comprehension.
#[derive(Debug)]
pub struct Comprehension {
    pub target: Box<Expr>,
    pub iter: Box<Expr>,
    pub ifs: Vec<Expr>,
}

/// A subscript.
#[derive(Debug)]
pub enum Slice {
    Index(Expr),
    Range { lower: Option<Expr>, upper: Option<Expr>, step: Option<Expr> },
}

/// A keyword argument.
#[derive(Debug)]
pub struct Keyword {
    pub name: Option<String>,
    pub value: Expr,
}

#[derive(Clone, Copy, Debug, PartialEq, Eq, Structural)]
pub enum UnaryOp {
    Not,
    Invert,
    UAdd,
    USub,
}

#[derive(Clone, Copy, Debug, PartialEq, Eq, Structural)]
pub enum BinOp {
    Add,
    Sub,
    Mul,
    Div,
    Mod,
    Pow,
    FloorDiv,
    LShift,
    RShift,
    BitOr,
    BitXor,
    BitAnd,
    MatMult,
}

#[derive(Clone, Copy, Debug, PartialEq, Eq, Structural)]
pub enum BoolOp {
    And,
    Or,
}

#[derive(Clone, Copy, Debug, PartialEq, Eq, Structural)]
pub enum CmpOp {
    Eq,
    NotEq,
    Lt,
    LtE,
    Gt,
    GtE,
    Is,
    IsNot,
    In,
    NotIn,
}

// ── Trees as values ──

/// A parameter list as a value.
#[verifier::ext_equal]
pub struct ArgsV {
    pub args: Seq<Seq<char>>,
    pub vararg: Option<Seq<char>>,
    pub kwonlyargs: Seq<Seq<char>>,
    pub kw_defaults: Seq<ExprV>,
    pub kwarg: Option<Seq<char>>,
    pub defaults: Seq<ExprV>,
}

/// An expression as a value; `Other` stands for the forms the parser
/// never builds.
pub enum ExprV {
    Name(Seq<char>),
    Int(i64),
    Float(u64),
    Str(Seq<char>),
    Bool(bool),
    None_,
    Ellipsis,
    FString(Seq<PartV>),
    List(Seq<ExprV>),
    Tuple(Seq<ExprV>),
    SetLiteral(Seq<ExprV>),
    Dict(Seq<(ExprV, ExprV)>),
    Generator(Box<ExprV>, nat),
    UnaryOp { op: UnaryOp, operand: Box<ExprV> },
    BinOp { left: Box<ExprV>, op: BinOp, right: Box<ExprV> },
    BoolOp { op: BoolOp, values: Seq<ExprV> },
    Compare { left: Box<ExprV>, ops: Seq<CmpOp>, comparators: Seq<ExprV> },
    IfExpr { test: Box<ExprV>, body: Box<ExprV>, orelse: Box<ExprV> },
    Call { func: Box<ExprV>, args: Seq<ExprV>, keywords: Seq<(Option<Seq<char>>, ExprV)> },
    Attribute { value: Box<ExprV>, attr: Seq<char> },
    Subscript { value: Box<ExprV>, slice: Box<SliceV> },
    Lambda { args: Box<ArgsV>, body: Box<ExprV> },
    Yield(Option<Box<ExprV>>),
    Await(Box<ExprV>),
    Starred(Box<ExprV>),
    NamedExpr { target: Box<ExprV>, value: Box<ExprV> },
    Other,
}

/// An f-string piece as a value.
pub enum PartV {
    Literal(Seq<char>),
    Expr(ExprV),
}

/// A subscript as a value.
pub enum SliceV {
    Index(ExprV),
    Range { lower: Option<ExprV>, upper: Option<ExprV>, step: Option<ExprV> },
}

/// A statement as a value; `Other` stands for the forms the parser never
/// builds.
pub enum StmtV {
    Expr(ExprV),
    Assign { targets: Seq<ExprV>, value: ExprV, aug: Option<BinOp> },
    If { test: ExprV, body: Seq<StmtV>, orelse: Seq<StmtV> },
    While { test: ExprV, body: Seq<StmtV>, orelse: Seq<StmtV> },
    For { target: ExprV, iter: ExprV, body: Seq<StmtV>, orelse: Seq<StmtV> },
    FuncDef { name: Seq<char>, args: ArgsV, body: Seq<StmtV>, decorators: Seq<ExprV>, returns: Option<ExprV> },
    ClassDef { name: Seq<char>, nbases: nat, body: Seq<StmtV>, decorators: Seq<ExprV> },
    Return(Option<ExprV>),
    Import { names: Seq<(Seq<char>, Option<Seq<char>>)> },
    ImportFrom { module: Option<Seq<char>>, names: Seq<(Seq<char>, Option<Seq<char>>)>, level: nat },
    Raise { exc: Option<ExprV>, cause: Option<ExprV> },
    With { items: Seq<(ExprV, Option<ExprV>)>, body: Seq<StmtV> },
    Pass,
    Break,
    Continue,
    Global(Seq<Seq<char>>),
    Other,
}

pub open spec fn arg_names(s: Seq<Arg>) -> Seq<Seq<char>> {
    s.map_values(|a: Arg| a.arg@)
}

pub open spec fn opt_arg_name(o: Option<Box<Arg>>) -> Option<Seq<char>> {
    match o {
        Some(a) => Some(a.arg@),
        None => None,
    }
}

pub open spec fn opt_name(o: Option<String>) -> Option<Seq<char>> {
    match o {
        Some(s) => Some(s@),
        None => None,
    }
}

pub open spec fn args_view(a: Arguments) -> ArgsV
    decreases a, 2int,
{
    ArgsV {
        args: arg_names(a.args@),
        vararg: opt_arg_name(a.vararg),
        kwonlyargs: arg_names(a.kwonlyargs@),
        kw_defaults: exprs_view(a.kw_defaults@),
        kwarg: opt_arg_name(a.kwarg),
        defaults: exprs_view(a.defaults@),
    }
}

pub open spec fn opt_expr_view(o: Option<Expr>) -> Option<ExprV>
    decreases o, 2int,
{
    match o {
        Some(e) => Some(expr_view(e)),
        None => None,
    }
}

pub open spec fn expr_view(e: Expr) -> ExprV
    decreases e, 1int,
{
    match e {
        Expr::Name(n) => ExprV::Name(n@),
        Expr::Int(v) => ExprV::Int(v),
        Expr::Float(b) => ExprV::Float(b),
        Expr::Str(s) => ExprV::Str(s@),
        Expr::Bool(b) => ExprV::Bool(b),
        Expr::None_ => ExprV::None_,
        Expr::Ellipsis => ExprV::Ellipsis,
        Expr::FString(parts) => ExprV::FString(parts_view(parts@)),
        Expr::List(items) => ExprV::List(exprs_view(items@)),
        Expr::Tuple(items) => ExprV::Tuple(exprs_view(items@)),
        Expr::SetLiteral(items) => ExprV::SetLiteral(exprs_view(items@)),
        Expr::Dict(pairs) => ExprV::Dict(pairs_view(pairs@)),
        Expr::Generator(elt, gens) => ExprV::Generator(Box::new(expr_view(*elt)), gens@.len()),
        Expr::UnaryOp { op, operand } => ExprV::UnaryOp { op, operand: Box::new(expr_view(*operand)) },
        Expr::BinOp { left, op, right } => ExprV::BinOp {
            left: Box::new(expr_view(*left)),
            op,
            right: Box::new(expr_view(*right)),
        },
        Expr::BoolOp { op, values } => ExprV::BoolOp { op, values: exprs_view(values@) },
        Expr::Compare { left, ops, comparators } => ExprV::Compare {
            left: Box::new(expr_view(*left)),
            ops: ops@,
            comparators: exprs_view(comparators@),
        },
        Expr::IfExpr { test, body, orelse } => ExprV::IfExpr {
            test: Box::new(expr_view(*test)),
            body: Box::new(expr_view(*body)),
            orelse: Box::new(expr_view(*orelse)),
        },
        Expr::Call { func, args, keywords } => ExprV::Call {
            func: Box::new(expr_view(*func)),
            args: exprs_view(args@),
            keywords: keywords_view(keywords@),
        },
        Expr::Attribute { value, attr } => ExprV::Attribute { value: Box::new(expr_view(*value)), attr: attr@ },
        Expr::Subscript { value, slice } => ExprV::Subscript {
            value: Box::new(expr_view(*value)),
            slice: Box::new(slice_view(*slice)),
        },
        Expr::Lambda { args, body } => ExprV::Lambda {
            args: Box::new(args_view(args)),
            body: Box::new(expr_view(*body)),
        },
        Expr::Yield(v) => ExprV::Yield(
            match v {
                Some(b) => Some(Box::new(expr_view(*b))),
                None => None,
            },
        ),
        Expr::Await(b) => ExprV::Await(Box::new(expr_view(*b))),
        Expr::Starred(b) => ExprV::Starred(Box::new(expr_view(*b))),
        Expr::NamedExpr { target, value } => ExprV::NamedExpr {
            target: Box::new(expr_view(*target)),
            value: Box::new(expr_view(*value)),
        },
        _ => ExprV::Other,
    }
}

pub open spec fn exprs_view(s: Seq<Expr>) -> Seq<ExprV>
    decreases s, 0int,
{
    if s.len() == 0 {
        Seq::empty()
    } else {
        exprs_view(s.drop_last()).push(expr_view(s.last()))
    }
}

pub open spec fn pairs_view(s: Seq<(Box<Expr>, Box<Expr>)>) -> Seq<(ExprV, ExprV)>
    decreases s, 0int,
{
    if s.len() == 0 {
        Seq::empty()
    } else {
        pairs_view(s.drop_last()).push((expr_view(*s.last().0), expr_view(*s.last().1)))
    }
}

pub open spec fn keywords_view(s: Seq<Keyword>) -> Seq<(Option<Seq<char>>, ExprV)>
    decreases s, 0int,
{
    if s.len() == 0 {
        Seq::empty()
    } else {
        keywords_view(s.drop_last()).push((opt_name(s.last().name), expr_view(s.last().value)))
    }
}

pub open spec fn parts_view(s: Seq<FStringPart>) -> Seq<PartV>
    decreases s, 0int,
{
    if s.len() == 0 {
        Seq::empty()
    } else {
        parts_view(s.drop_last()).push(
            match s.last() {
                FStringPart::Literal(t) => PartV::Literal(t@),
                FStringPart::Expr(e) => PartV::Expr(expr_view(e)),
            },
        )
    }
}

pub open spec fn slice_view(s: Slice) -> SliceV
    decreases s, 2int,
{
    match s {
        Slice::Index(e) => SliceV::Index(expr_view(e)),
        Slice::Range { lower, upper, step } => SliceV::Range {
            lower: opt_expr_view(lower),
            upper: opt_expr_view(upper),
            step: opt_expr_view(step),
        },
    }
}

pub open spec fn alias_view(a: Alias) -> (Seq<char>, Option<Seq<char>>) {
    (a.name@, opt_name(a.asname))
}

pub open spec fn aliases_view(s: Seq<Alias>) -> Seq<(Seq<char>, Option<Seq<char>>)> {
    s.map_values(|a: Alias| alias_view(a))
}

pub open spec fn with_items_view(s: Seq<WithItem>) -> Seq<(ExprV, Option<ExprV>)>
    decreases s, 0int,
{
    if s.len() == 0 {
        Seq::empty()
    } else {
        with_items_view(s.drop_last()).push(
            (expr_view(s.last().context_expr), opt_expr_view(s.last().optional_vars)),
        )
    }
}

pub open spec fn stmt_view(st: Stmt) -> StmtV
    decreases st, 1int,
{
    match st {
        Stmt::Expr(e) => StmtV::Expr(expr_view(e)),
        Stmt::Assign { targets, value, aug } => StmtV::Assign {
            targets: exprs_view(targets@),
            value: expr_view(value),
            aug,
        },
        Stmt::If { test, body, orelse } => StmtV::If {
            test: expr_view(test),
            body: stmts_view(body@),
            orelse: stmts_view(orelse@),
        },
        Stmt::While { test, body, orelse } => StmtV::While {
            test: expr_view(test),
            body: stmts_view(body@),
            orelse: stmts_view(orelse@),
        },
        Stmt::For { target, iter, body, orelse } => StmtV::For {
            target: expr_view(target),
            iter: expr_view(iter),
            body: stmts_view(body@),
            orelse: stmts_view(orelse@),
        },
        Stmt::FuncDef { name, args, body, decorators, returns: ret } => StmtV::FuncDef {
            name: name@,
            args: args_view(args),
            body: stmts_view(body@),
            decorators: exprs_view(decorators@),
            returns: opt_expr_view(ret),
        },
        Stmt::ClassDef { name, bases, body, decorators } => StmtV::ClassDef {
            name: name@,
            nbases: bases@.len(),
            body: stmts_view(body@),
            decorators: exprs_view(decorators@),
        },
        Stmt::Return(v) => StmtV::Return(opt_expr_view(v)),
        Stmt::Import { names } => StmtV::Import { names: aliases_view(names@) },
        Stmt::ImportFrom { module, names, level } => StmtV::ImportFrom {
            module: opt_name(module),
            names: aliases_view(names@),
            level: level as nat,
        },
        Stmt::Raise { exc, cause } => StmtV::Raise { exc: opt_expr_view(exc), cause: opt_expr_view(cause) },
        Stmt::With { items, body } => StmtV::With { items: with_items_view(items@), body: stmts_view(body@) },
        Stmt::Pass => StmtV::Pass,
        Stmt::Break => StmtV::Break,
        Stmt::Continue => StmtV::Continue,
        Stmt::Global(ns) => StmtV::Global(ns@.map_values(|n: String| n@)),
        _ => StmtV::Other,
    }
}

pub open spec fn stmts_view(s: Seq<Stmt>) -> Seq<StmtV>
    decreases s, 0int,
{
    if s.len() == 0 {
        Seq::empty()
    } else {
        stmts_view(s.drop_last()).push(stmt_view(s.last()))
    }
}

} // verus!
