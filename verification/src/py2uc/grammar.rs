//! What the Python parser builds, stated over the token stream: each rule
//! takes the tokens, the position it starts at and the bound on f-string
//! lengths, and gives its result (a tree or an error message) and the
//! position it stops at, also when it fails.
//!
//! A float literal's value comes from a table of literal texts and their
//! IEEE-754 bit patterns (0 for a text the table lacks).
use vstd::prelude::*;

use crate::driver::trim;
use crate::py2uc::ast::{ArgsV, BinOp, BoolOp, CmpOp, ExprV, PartV, SliceV, StmtV, UnaryOp};
use crate::py2uc::tokenizer::{
    kind_view, op_spec, start_view, token_stream, KindView, TokView, TokenKind, TokenView,
};

verus! {

/// The tokens a parser reads.
pub type Toks = Seq<TokenView>;

/// Float literal texts and their bit patterns.
pub type Floats = Seq<(Seq<char>, u64)>;

/// The text `{:?}` gives for a string: the string in double quotes, with
/// the escapes that `str::escape_debug` writes.
pub uninterp spec fn str_debug(s: Seq<char>) -> Seq<char>;

/// `format!("{:?}", s)` for a string. The contract names the quoted and
/// escaped text and does not spell out the escapes.
#[verifier::external_body]
fn debug_str(s: &str) -> (r: String)
    ensures
        r@ == str_debug(s@),
{
    format!("{:?}", s)
}

/// The text `{:?}` gives for a token kind: the variant's name, with the
/// quoted text of a string payload in brackets.
pub open spec fn kind_debug(k: KindView) -> Seq<char> {
    match k {
        KindView::KwDef => "KwDef"@,
        KindView::KwIf => "KwIf"@,
        KindView::KwElif => "KwElif"@,
        KindView::KwElse => "KwElse"@,
        KindView::KwWhile => "KwWhile"@,
        KindView::KwFor => "KwFor"@,
        KindView::KwIn => "KwIn"@,
        KindView::KwReturn => "KwReturn"@,
        KindView::KwBreak => "KwBreak"@,
        KindView::KwContinue => "KwContinue"@,
        KindView::KwPass => "KwPass"@,
        KindView::KwImport => "KwImport"@,
        KindView::KwFrom => "KwFrom"@,
        KindView::KwAs => "KwAs"@,
        KindView::KwClass => "KwClass"@,
        KindView::KwTry => "KwTry"@,
        KindView::KwExcept => "KwExcept"@,
        KindView::KwFinally => "KwFinally"@,
        KindView::KwRaise => "KwRaise"@,
        KindView::KwWith => "KwWith"@,
        KindView::KwYield => "KwYield"@,
        KindView::KwLambda => "KwLambda"@,
        KindView::KwAnd => "KwAnd"@,
        KindView::KwOr => "KwOr"@,
        KindView::KwNot => "KwNot"@,
        KindView::KwIs => "KwIs"@,
        KindView::KwNone => "KwNone"@,
        KindView::KwTrue => "KwTrue"@,
        KindView::KwFalse => "KwFalse"@,
        KindView::KwGlobal => "KwGlobal"@,
        KindView::KwNonlocal => "KwNonlocal"@,
        KindView::KwDel => "KwDel"@,
        KindView::KwAssert => "KwAssert"@,
        KindView::KwAsync => "KwAsync"@,
        KindView::KwAwait => "KwAwait"@,
        KindView::KwMatch => "KwMatch"@,
        KindView::KwCase => "KwCase"@,
        KindView::Plus => "Plus"@,
        KindView::Minus => "Minus"@,
        KindView::Star => "Star"@,
        KindView::Slash => "Slash"@,
        KindView::Percent => "Percent"@,
        KindView::DoubleStar => "DoubleStar"@,
        KindView::Eq => "Eq"@,
        KindView::PlusEq => "PlusEq"@,
        KindView::MinusEq => "MinusEq"@,
        KindView::StarEq => "StarEq"@,
        KindView::SlashEq => "SlashEq"@,
        KindView::PercentEq => "PercentEq"@,
        KindView::DoubleStarEq => "DoubleStarEq"@,
        KindView::EqEq => "EqEq"@,
        KindView::NotEq => "NotEq"@,
        KindView::Lt => "Lt"@,
        KindView::Gt => "Gt"@,
        KindView::LtE => "LtE"@,
        KindView::GtE => "GtE"@,
        KindView::And => "And"@,
        KindView::Or => "Or"@,
        KindView::Not => "Not"@,
        KindView::BitAnd => "BitAnd"@,
        KindView::BitOr => "BitOr"@,
        KindView::BitXor => "BitXor"@,
        KindView::BitNot => "BitNot"@,
        KindView::LShift => "LShift"@,
        KindView::RShift => "RShift"@,
        KindView::Walrus => "Walrus"@,
        KindView::Arrow => "Arrow"@,
        KindView::Ellipsis => "Ellipsis"@,
        KindView::At => "At"@,
        KindView::Is => "Is"@,
        KindView::IsNot => "IsNot"@,
        KindView::InKw => "InKw"@,
        KindView::NotIn => "NotIn"@,
        KindView::Pipe => "Pipe"@,
        KindView::FloorDiv => "FloorDiv"@,
        KindView::LParen => "LParen"@,
        KindView::RParen => "RParen"@,
        KindView::LBracket => "LBracket"@,
        KindView::RBracket => "RBracket"@,
        KindView::LBrace => "LBrace"@,
        KindView::RBrace => "RBrace"@,
        KindView::Comma => "Comma"@,
        KindView::Colon => "Colon"@,
        KindView::Semicolon => "Semicolon"@,
        KindView::Dot => "Dot"@,
        KindView::Newline => "Newline"@,
        KindView::Indent => "Indent"@,
        KindView::Dedent => "Dedent"@,
        KindView::EndOfFile => "EndOfFile"@,
        KindView::Name(s) => "Name("@ + str_debug(s) + ")"@,
        KindView::Int => "Int"@,
        KindView::Float => "Float"@,
        KindView::String(s) => "String("@ + str_debug(s) + ")"@,
        KindView::FStringStart => "FStringStart"@,
        KindView::FStringMiddle(s) => "FStringMiddle("@ + str_debug(s) + ")"@,
        KindView::FStringExpr => "FStringExpr"@,
        KindView::FStringEnd(s) => "FStringEnd("@ + str_debug(s) + ")"@,
        KindView::Comment => "Comment"@,
        KindView::TypeComment => "TypeComment"@,
    }
}

/// The `{:?}` text of a token kind.
pub fn debug_kind(k: &TokenKind) -> (r: String)
    ensures
        r@ == kind_debug(kind_view(*k)),
{
    match k {
        TokenKind::KwDef => "KwDef".to_owned(),
        TokenKind::KwIf => "KwIf".to_owned(),
        TokenKind::KwElif => "KwElif".to_owned(),
        TokenKind::KwElse => "KwElse".to_owned(),
        TokenKind::KwWhile => "KwWhile".to_owned(),
        TokenKind::KwFor => "KwFor".to_owned(),
        TokenKind::KwIn => "KwIn".to_owned(),
        TokenKind::KwReturn => "KwReturn".to_owned(),
        TokenKind::KwBreak => "KwBreak".to_owned(),
        TokenKind::KwContinue => "KwContinue".to_owned(),
        TokenKind::KwPass => "KwPass".to_owned(),
        TokenKind::KwImport => "KwImport".to_owned(),
        TokenKind::KwFrom => "KwFrom".to_owned(),
        TokenKind::KwAs => "KwAs".to_owned(),
        TokenKind::KwClass => "KwClass".to_owned(),
        TokenKind::KwTry => "KwTry".to_owned(),
        TokenKind::KwExcept => "KwExcept".to_owned(),
        TokenKind::KwFinally => "KwFinally".to_owned(),
        TokenKind::KwRaise => "KwRaise".to_owned(),
        TokenKind::KwWith => "KwWith".to_owned(),
        TokenKind::KwYield => "KwYield".to_owned(),
        TokenKind::KwLambda => "KwLambda".to_owned(),
        TokenKind::KwAnd => "KwAnd".to_owned(),
        TokenKind::KwOr => "KwOr".to_owned(),
        TokenKind::KwNot => "KwNot".to_owned(),
        TokenKind::KwIs => "KwIs".to_owned(),
        TokenKind::KwNone => "KwNone".to_owned(),
        TokenKind::KwTrue => "KwTrue".to_owned(),
        TokenKind::KwFalse => "KwFalse".to_owned(),
        TokenKind::KwGlobal => "KwGlobal".to_owned(),
        TokenKind::KwNonlocal => "KwNonlocal".to_owned(),
        TokenKind::KwDel => "KwDel".to_owned(),
        TokenKind::KwAssert => "KwAssert".to_owned(),
        TokenKind::KwAsync => "KwAsync".to_owned(),
        TokenKind::KwAwait => "KwAwait".to_owned(),
        TokenKind::KwMatch => "KwMatch".to_owned(),
        TokenKind::KwCase => "KwCase".to_owned(),
        TokenKind::Plus => "Plus".to_owned(),
        TokenKind::Minus => "Minus".to_owned(),
        TokenKind::Star => "Star".to_owned(),
        TokenKind::Slash => "Slash".to_owned(),
        TokenKind::Percent => "Percent".to_owned(),
        TokenKind::DoubleStar => "DoubleStar".to_owned(),
        TokenKind::Eq => "Eq".to_owned(),
        TokenKind::PlusEq => "PlusEq".to_owned(),
        TokenKind::MinusEq => "MinusEq".to_owned(),
        TokenKind::StarEq => "StarEq".to_owned(),
        TokenKind::SlashEq => "SlashEq".to_owned(),
        TokenKind::PercentEq => "PercentEq".to_owned(),
        TokenKind::DoubleStarEq => "DoubleStarEq".to_owned(),
        TokenKind::EqEq => "EqEq".to_owned(),
        TokenKind::NotEq => "NotEq".to_owned(),
        TokenKind::Lt => "Lt".to_owned(),
        TokenKind::Gt => "Gt".to_owned(),
        TokenKind::LtE => "LtE".to_owned(),
        TokenKind::GtE => "GtE".to_owned(),
        TokenKind::And => "And".to_owned(),
        TokenKind::Or => "Or".to_owned(),
        TokenKind::Not => "Not".to_owned(),
        TokenKind::BitAnd => "BitAnd".to_owned(),
        TokenKind::BitOr => "BitOr".to_owned(),
        TokenKind::BitXor => "BitXor".to_owned(),
        TokenKind::BitNot => "BitNot".to_owned(),
        TokenKind::LShift => "LShift".to_owned(),
        TokenKind::RShift => "RShift".to_owned(),
        TokenKind::Walrus => "Walrus".to_owned(),
        TokenKind::Arrow => "Arrow".to_owned(),
        TokenKind::Ellipsis => "Ellipsis".to_owned(),
        TokenKind::At => "At".to_owned(),
        TokenKind::Is => "Is".to_owned(),
        TokenKind::IsNot => "IsNot".to_owned(),
        TokenKind::InKw => "InKw".to_owned(),
        TokenKind::NotIn => "NotIn".to_owned(),
        TokenKind::Pipe => "Pipe".to_owned(),
        TokenKind::FloorDiv => "FloorDiv".to_owned(),
        TokenKind::LParen => "LParen".to_owned(),
        TokenKind::RParen => "RParen".to_owned(),
        TokenKind::LBracket => "LBracket".to_owned(),
        TokenKind::RBracket => "RBracket".to_owned(),
        TokenKind::LBrace => "LBrace".to_owned(),
        TokenKind::RBrace => "RBrace".to_owned(),
        TokenKind::Comma => "Comma".to_owned(),
        TokenKind::Colon => "Colon".to_owned(),
        TokenKind::Semicolon => "Semicolon".to_owned(),
        TokenKind::Dot => "Dot".to_owned(),
        TokenKind::Newline => "Newline".to_owned(),
        TokenKind::Indent => "Indent".to_owned(),
        TokenKind::Dedent => "Dedent".to_owned(),
        TokenKind::EndOfFile => "EndOfFile".to_owned(),
        TokenKind::Name(s) => {
            let mut r = "Name(".to_owned();
            r.append(debug_str(s.as_str()).as_str());
            r.append(")");
            r
        },
        TokenKind::Int => "Int".to_owned(),
        TokenKind::Float => "Float".to_owned(),
        TokenKind::String(s) => {
            let mut r = "String(".to_owned();
            r.append(debug_str(s.as_str()).as_str());
            r.append(")");
            r
        },
        TokenKind::FStringStart => "FStringStart".to_owned(),
        TokenKind::FStringMiddle(s) => {
            let mut r = "FStringMiddle(".to_owned();
            r.append(debug_str(s.as_str()).as_str());
            r.append(")");
            r
        },
        TokenKind::FStringExpr => "FStringExpr".to_owned(),
        TokenKind::FStringEnd(s) => {
            let mut r = "FStringEnd(".to_owned();
            r.append(debug_str(s.as_str()).as_str());
            r.append(")");
            r
        },
        TokenKind::Comment => "Comment".to_owned(),
        TokenKind::TypeComment => "TypeComment".to_owned(),
    }
}

/// The bit pattern of the float literal `text`: its first entry in `fl`,
/// else 0.
pub open spec fn float_of(fl: Floats, text: Seq<char>) -> u64
    decreases fl.len(),
{
    if fl.len() == 0 {
        0
    } else if fl[0].0 == text {
        fl[0].1
    } else {
        float_of(fl.drop_first(), text)
    }
}

/// A token stream that ends with `EndOfFile`, with `p` in it.
pub open spec fn tok_ok(ts: Toks, p: int) -> bool {
    0 <= p < ts.len() && ts.last().kind is EndOfFile
}

/// Whether `q` is a position past `p` in the stream.
pub open spec fn moved(ts: Toks, p: int, q: int) -> bool {
    p < q < ts.len()
}

/// The kind of the token at `p`.
pub open spec fn kind(ts: Toks, p: int) -> KindView {
    ts[p].kind
}

/// The position after `p`; the last token is never passed.
pub open spec fn adv(ts: Toks, p: int) -> int {
    if p + 1 < ts.len() {
        p + 1
    } else {
        p
    }
}

/// The position past any newline tokens at `p`.
pub open spec fn skip_nl(ts: Toks, p: int) -> int
    decreases ts.len() - p,
{
    if tok_ok(ts, p) && kind(ts, p) is Newline && p + 1 < ts.len() {
        skip_nl(ts, p + 1)
    } else {
        p
    }
}

/// The position of the first `)` or end of file from `p`.
pub open spec fn skip_to_rparen(ts: Toks, p: int) -> int
    decreases ts.len() - p,
{
    if tok_ok(ts, p) && !(kind(ts, p) is RParen || kind(ts, p) is EndOfFile) && p + 1 < ts.len() {
        skip_to_rparen(ts, p + 1)
    } else {
        p
    }
}

/// The position of the first `]` (or `}` where `brace`) or end of file from
/// `p`.
pub open spec fn skip_to_close(ts: Toks, p: int, brace: bool) -> int
    decreases ts.len() - p,
{
    if tok_ok(ts, p) && !((if brace {
        kind(ts, p) is RBrace
    } else {
        kind(ts, p) is RBracket
    }) || kind(ts, p) is EndOfFile) && p + 1 < ts.len() {
        skip_to_close(ts, p + 1, brace)
    } else {
        p
    }
}

/// Past a bracketed run, `depth` brackets deep: stops on the `)` that
/// closes it (not passed) or at end of file.
pub open spec fn skip_parens(ts: Toks, p: int, depth: int) -> int
    decreases ts.len() - p,
{
    if !tok_ok(ts, p) || depth <= 0 || kind(ts, p) is EndOfFile {
        p
    } else if kind(ts, p) is LParen {
        if p + 1 < ts.len() {
            skip_parens(ts, p + 1, depth + 1)
        } else {
            p
        }
    } else if kind(ts, p) is RParen {
        if depth - 1 > 0 && p + 1 < ts.len() {
            skip_parens(ts, p + 1, depth - 1)
        } else {
            p
        }
    } else if p + 1 < ts.len() {
        skip_parens(ts, p + 1, depth)
    } else {
        p
    }
}

/// Past an indented block, `depth` levels deep: stops past the `Dedent`
/// that closes it or at end of file.
pub open spec fn skip_block(ts: Toks, p: int, depth: int) -> int
    decreases ts.len() - p,
{
    if !tok_ok(ts, p) || kind(ts, p) is EndOfFile || p + 1 >= ts.len() {
        p
    } else if kind(ts, p) is Indent {
        skip_block(ts, p + 1, depth + 1)
    } else if kind(ts, p) is Dedent {
        if depth - 1 == 0 {
            p + 1
        } else {
            skip_block(ts, p + 1, depth - 1)
        }
    } else {
        skip_block(ts, p + 1, depth)
    }
}

/// Past the `try` blocks and the `except`, `else` and `finally` blocks
/// that follow them, `depth` levels deep.
pub open spec fn skip_try(ts: Toks, p: int, depth: int) -> int
    decreases ts.len() - p,
{
    if !tok_ok(ts, p) || kind(ts, p) is EndOfFile || p + 1 >= ts.len() {
        p
    } else if kind(ts, p) is Indent {
        skip_try(ts, p + 1, depth + 1)
    } else if kind(ts, p) is Dedent {
        let p1 = p + 1;
        if depth - 1 == 0 {
            if kind(ts, p1) is KwExcept || kind(ts, p1) is KwFinally || kind(ts, p1) is KwElse {
                let p2 = skip_to_colon(ts, p1);
                let p3 = if kind(ts, p2) is Colon {
                    adv(ts, p2)
                } else {
                    p2
                };
                let p4 = skip_nl(ts, p3);
                if kind(ts, p4) is Indent && p1 <= p4 < ts.len() {
                    skip_try(ts, adv(ts, p4), 1)
                } else if p1 <= p4 < ts.len() {
                    skip_try(ts, p4, 0)
                } else {
                    p4
                }
            } else {
                p1
            }
        } else {
            skip_try(ts, p1, depth - 1)
        }
    } else {
        skip_try(ts, p + 1, depth)
    }
}

/// The position of the first `:` or end of file from `p`.
pub open spec fn skip_to_colon(ts: Toks, p: int) -> int
    decreases ts.len() - p,
{
    if tok_ok(ts, p) && !(kind(ts, p) is Colon || kind(ts, p) is EndOfFile) && p + 1 < ts.len() {
        skip_to_colon(ts, p + 1)
    } else {
        p
    }
}

/// The position of the end of file from `p`.
pub open spec fn skip_to_end(ts: Toks, p: int) -> int
    decreases ts.len() - p,
{
    if tok_ok(ts, p) && !(kind(ts, p) is EndOfFile) && p + 1 < ts.len() {
        skip_to_end(ts, p + 1)
    } else {
        p
    }
}

// ── Single tokens ──

/// A token of kind `k`, giving its text; else the error that names `ctx`.
pub open spec fn expect(ts: Toks, p: int, k: KindView, ctx: Seq<char>) -> (Result<Seq<char>, Seq<char>>, int) {
    if kind(ts, p) == k {
        (Ok(ts[p].lexeme), adv(ts, p))
    } else {
        (Err(ctx + ": expected "@ + kind_debug(k) + ", got "@ + kind_debug(kind(ts, p))), p)
    }
}

/// A name.
pub open spec fn name(ts: Toks, p: int) -> (Result<Seq<char>, Seq<char>>, int) {
    match kind(ts, p) {
        KindView::Name(n) => (Ok(n), adv(ts, p)),
        _ => (Err("Expected name, got "@ + kind_debug(kind(ts, p))), p),
    }
}

/// The rest of a dotted name after `acc`.
pub open spec fn dotted_rest(ts: Toks, p: int, acc: Seq<char>) -> (Result<Seq<char>, Seq<char>>, int)
    decreases ts.len() - p,
{
    if !tok_ok(ts, p) || !(kind(ts, p) is Dot) {
        (Ok(acc), p)
    } else {
        let (r, p2) = name(ts, adv(ts, p));
        match r {
            Err(e) => (Err(e), p2),
            Ok(part) => if moved(ts, p, p2) {
                dotted_rest(ts, p2, acc + "."@ + part)
            } else {
                (Ok(acc + "."@ + part), p2)
            },
        }
    }
}

/// A dotted name: names joined by `.`.
pub open spec fn dotted_name(ts: Toks, p: int) -> (Result<Seq<char>, Seq<char>>, int) {
    let (r, p1) = name(ts, p);
    match r {
        Err(e) => (Err(e), p1),
        Ok(n) => dotted_rest(ts, p1, n),
    }
}

/// Names separated by commas, as many as there are.
pub open spec fn name_list(ts: Toks, p: int, acc: Seq<Seq<char>>) -> (Seq<Seq<char>>, int)
    decreases ts.len() - p,
{
    if !tok_ok(ts, p) {
        (acc, p)
    } else {
        match kind(ts, p) {
            KindView::Name(n) => {
                let p1 = adv(ts, p);
                if kind(ts, p1) is Comma && adv(ts, p1) > p {
                    name_list(ts, adv(ts, p1), acc.push(n))
                } else {
                    (acc.push(n), p1)
                }
            },
            _ => (acc, p),
        }
    }
}

/// The operator of an augmented assignment.
pub open spec fn aug_assign(k: KindView) -> Option<BinOp> {
    match k {
        KindView::PlusEq => Some(BinOp::Add),
        KindView::MinusEq => Some(BinOp::Sub),
        KindView::StarEq => Some(BinOp::Mul),
        KindView::SlashEq => Some(BinOp::Div),
        KindView::PercentEq => Some(BinOp::Mod),
        KindView::DoubleStarEq => Some(BinOp::Pow),
        _ => None,
    }
}

// ── Precedence ──

/// The binding powers of an infix operator: lowest 0, atoms 14; the left
/// one decides whether it binds, the right one is passed to its operand.
pub open spec fn infix_bp(k: KindView) -> Option<(u8, u8)> {
    match k {
        KindView::KwOr => Some((1, 2)),
        KindView::KwAnd => Some((2, 3)),
        KindView::EqEq | KindView::NotEq | KindView::Lt | KindView::Gt | KindView::LtE | KindView::GtE
        | KindView::KwIn | KindView::Is => Some((4, 5)),
        KindView::Pipe => Some((5, 6)),
        KindView::BitXor => Some((6, 7)),
        KindView::BitAnd => Some((7, 8)),
        KindView::LShift | KindView::RShift => Some((8, 9)),
        KindView::Plus | KindView::Minus => Some((9, 10)),
        KindView::Star | KindView::Slash | KindView::Percent | KindView::FloorDiv | KindView::At => Some(
            (10, 11),
        ),
        KindView::DoubleStar => Some((13, 13)),
        _ => None,
    }
}

/// Whether `k` is a binary-operator token.
pub open spec fn is_binop_token(k: KindView) -> bool {
    k is Plus || k is Minus || k is Star || k is Slash || k is Percent || k is DoubleStar
        || k is FloorDiv || k is LShift || k is RShift || k is Pipe || k is BitXor || k is BitAnd
        || k is At
}

/// How Python spells a binary operator.
pub open spec fn binop_symbol(o: BinOp) -> Seq<char> {
    match o {
        BinOp::Add => seq!['+'],
        BinOp::Sub => seq!['-'],
        BinOp::Mul => seq!['*'],
        BinOp::Div => seq!['/'],
        BinOp::Mod => seq!['%'],
        BinOp::Pow => seq!['*', '*'],
        BinOp::FloorDiv => seq!['/', '/'],
        BinOp::LShift => seq!['<', '<'],
        BinOp::RShift => seq!['>', '>'],
        BinOp::BitOr => seq!['|'],
        BinOp::BitXor => seq!['^'],
        BinOp::BitAnd => seq!['&'],
        BinOp::MatMult => seq!['@'],
    }
}

/// Distinct binary-operator tokens parse to distinct operators.
pub proof fn lemma_binop_tokens_distinct(k1: KindView, k2: KindView)
    requires
        is_binop_token(k1),
        is_binop_token(k2),
        binop_tok(k1) == binop_tok(k2),
    ensures
        k1 == k2,
{
}

/// A binary-operator token parses to the operator its text spells: the
/// operator the tokenizer reads from the source is the one whose symbol it
/// read.
pub proof fn lemma_binop_spelled_by_token(src: Seq<char>, v: TokView, ch: char)
    ensures
        is_binop_token(op_spec(src, v, ch).1.kind) ==> op_spec(src, v, ch).1.lexeme == binop_symbol(
            binop_tok(op_spec(src, v, ch).1.kind),
        ),
{
    reveal_strlit("+");
    reveal_strlit("-");
    reveal_strlit("*");
    reveal_strlit("/");
    reveal_strlit("%");
    reveal_strlit("**");
    reveal_strlit("//");
    reveal_strlit("<<");
    reveal_strlit(">>");
    reveal_strlit("|");
    reveal_strlit("^");
    reveal_strlit("&");
    reveal_strlit("@");
    assert("+"@ =~= seq!['+']);
    assert("-"@ =~= seq!['-']);
    assert("*"@ =~= seq!['*']);
    assert("/"@ =~= seq!['/']);
    assert("%"@ =~= seq!['%']);
    assert("**"@ =~= seq!['*', '*']);
    assert("//"@ =~= seq!['/', '/']);
    assert("<<"@ =~= seq!['<', '<']);
    assert(">>"@ =~= seq!['>', '>']);
    assert("|"@ =~= seq!['|']);
    assert("^"@ =~= seq!['^']);
    assert("&"@ =~= seq!['&']);
    assert("@"@ =~= seq!['@']);
}

/// How Python spells a comparison operator (`None` for the identity and
/// membership tests, which are words).
pub open spec fn cmp_symbol(o: CmpOp) -> Option<Seq<char>> {
    match o {
        CmpOp::Eq => Some(seq!['=', '=']),
        CmpOp::NotEq => Some(seq!['!', '=']),
        CmpOp::Lt => Some(seq!['<']),
        CmpOp::LtE => Some(seq!['<', '=']),
        CmpOp::Gt => Some(seq!['>']),
        CmpOp::GtE => Some(seq!['>', '=']),
        _ => None,
    }
}

/// A comparison token parses to the comparison its text spells, and an
/// augmented-assignment token to the operator its text spells before `=`.
pub proof fn lemma_comparisons_and_updates_spelled_by_token(src: Seq<char>, v: TokView, ch: char)
    ensures
        cmp_op_tok(op_spec(src, v, ch).1.kind) matches Some(o) ==> cmp_symbol(o) == Some(
            op_spec(src, v, ch).1.lexeme,
        ),
        aug_assign(op_spec(src, v, ch).1.kind) matches Some(o) ==> op_spec(src, v, ch).1.lexeme
            == binop_symbol(o).push('='),
{
    reveal_strlit("==");
    reveal_strlit("!=");
    reveal_strlit("<");
    reveal_strlit("<=");
    reveal_strlit(">");
    reveal_strlit(">=");
    reveal_strlit("+=");
    reveal_strlit("-=");
    reveal_strlit("*=");
    reveal_strlit("/=");
    reveal_strlit("%=");
    reveal_strlit("**=");
    assert("=="@ =~= seq!['=', '=']);
    assert("!="@ =~= seq!['!', '=']);
    assert("<"@ =~= seq!['<']);
    assert("<="@ =~= seq!['<', '=']);
    assert(">"@ =~= seq!['>']);
    assert(">="@ =~= seq!['>', '=']);
    assert("+="@ =~= seq!['+', '=']);
    assert("-="@ =~= seq!['-', '=']);
    assert("*="@ =~= seq!['*', '=']);
    assert("/="@ =~= seq!['/', '=']);
    assert("%="@ =~= seq!['%', '=']);
    assert("**="@ =~= seq!['*', '*', '=']);
}

/// Distinct comparison tokens parse to distinct comparisons.
pub proof fn lemma_comparison_tokens_distinct(k1: KindView, k2: KindView)
    requires
        cmp_op_tok(k1) is Some,
        cmp_op_tok(k2) is Some,
        cmp_op_tok(k1) == cmp_op_tok(k2),
    ensures
        k1 == k2,
{
}

/// Whether `k` is a prefix operator (their binding power is 12).
pub open spec fn is_prefix(k: KindView) -> bool {
    k is Not || k is BitNot || k is Plus || k is Minus
}

/// The binary operator of a token; `+` for any other.
pub open spec fn binop_tok(k: KindView) -> BinOp {
    match k {
        KindView::Plus => BinOp::Add,
        KindView::Minus => BinOp::Sub,
        KindView::Star => BinOp::Mul,
        KindView::Slash => BinOp::Div,
        KindView::Percent => BinOp::Mod,
        KindView::DoubleStar => BinOp::Pow,
        KindView::FloorDiv => BinOp::FloorDiv,
        KindView::LShift => BinOp::LShift,
        KindView::RShift => BinOp::RShift,
        KindView::Pipe => BinOp::BitOr,
        KindView::BitXor => BinOp::BitXor,
        KindView::BitAnd => BinOp::BitAnd,
        KindView::At => BinOp::MatMult,
        _ => BinOp::Add,
    }
}

/// The comparison operator of a token.
pub open spec fn cmp_op_tok(k: KindView) -> Option<CmpOp> {
    match k {
        KindView::EqEq => Some(CmpOp::Eq),
        KindView::NotEq => Some(CmpOp::NotEq),
        KindView::Lt => Some(CmpOp::Lt),
        KindView::Gt => Some(CmpOp::Gt),
        KindView::LtE => Some(CmpOp::LtE),
        KindView::GtE => Some(CmpOp::GtE),
        _ => None,
    }
}

// ── f-strings ──

/// The UTF-8 bytes of `c`.
pub open spec fn utf8_bytes(c: char) -> Seq<u8> {
    let v = c as u32;
    if v < 0x80 {
        seq![v as u8]
    } else if v < 0x800 {
        seq![(0xC0 + v / 64) as u8, (0x80 + v % 64) as u8]
    } else if v < 0x10000 {
        seq![(0xE0 + v / 4096) as u8, (0x80 + (v / 64) % 64) as u8, (0x80 + v % 64) as u8]
    } else {
        seq![
            (0xF0 + v / 262144) as u8,
            (0x80 + (v / 4096) % 64) as u8,
            (0x80 + (v / 64) % 64) as u8,
            (0x80 + v % 64) as u8,
        ]
    }
}

/// What a literal piece of an f-string keeps of `c`: each of its UTF-8
/// bytes, read as a character.
pub open spec fn byte_chars(c: char) -> Seq<char> {
    utf8_bytes(c).map_values(|b: u8| b as char)
}

/// Where the expression of an f-string that starts at `i` ends, and the
/// brace depth left: the `}` that closes it (depth 0), or the end (depth
/// above 0). Quoted strings inside are passed over, with their escapes.
pub open spec fn expr_end(s: Seq<char>, i: int, depth: int) -> (int, int)
    decreases s.len() + 2 - i,
{
    if i >= s.len() || i < 0 || depth <= 0 {
        (i, depth)
    } else if s[i] == '{' {
        expr_end(s, i + 1, depth + 1)
    } else if s[i] == '}' {
        if depth - 1 > 0 {
            expr_end(s, i + 1, depth - 1)
        } else {
            (i, 0)
        }
    } else if s[i] == '"' || s[i] == '\'' {
        let q = quoted_end(s, i + 1, s[i]);
        if i < q <= s.len() + 2 {
            expr_end(s, q, depth)
        } else {
            (q, depth)
        }
    } else {
        expr_end(s, i + 1, depth)
    }
}

/// Past a quoted string inside an f-string expression whose body starts at
/// `i`: past its closing quote, or beyond the end.
pub open spec fn quoted_end(s: Seq<char>, i: int, q: char) -> int
    decreases s.len() + 2 - i,
{
    if i < 0 || i >= s.len() {
        i
    } else if s[i] == q {
        i + 1
    } else if s[i] == '\\' {
        if i + 2 >= s.len() {
            i + 2
        } else {
            quoted_end(s, i + 2, q)
        }
    } else {
        quoted_end(s, i + 1, q)
    }
}

/// The index of the first `:` outside brackets in `s` from `j`.
pub open spec fn format_colon(s: Seq<char>, j: int, depth: nat) -> Option<int>
    decreases s.len() - j,
{
    if j < 0 || j >= s.len() {
        None
    } else if s[j] == '[' || s[j] == '(' || s[j] == '{' {
        format_colon(s, j + 1, depth + 1)
    } else if s[j] == ']' || s[j] == ')' || s[j] == '}' {
        format_colon(
            s,
            j + 1,
            if depth > 0 {
                (depth - 1) as nat
            } else {
                0
            },
        )
    } else if s[j] == ':' && depth == 0 {
        Some(j)
    } else {
        format_colon(s, j + 1, depth)
    }
}

/// The expression of an f-string field: up to a format spec, trimmed.
pub open spec fn field_expr(s: Seq<char>) -> Seq<char> {
    match format_colon(s, 0, 0) {
        Some(c) => trim(s.subrange(0, c)),
        None => trim(s),
    }
}

/// The pieces an f-string ends with: the pending literal if any, and one
/// empty literal for an empty f-string.
pub open spec fn fstring_done(literal: Seq<char>, parts: Seq<PartV>) -> Seq<PartV> {
    let p = if literal.len() > 0 {
        parts.push(PartV::Literal(literal))
    } else {
        parts
    };
    if p.len() == 0 {
        seq![PartV::Literal(Seq::empty())]
    } else {
        p
    }
}

/// The pieces of the f-string `s` from `i`: literal text (`{{` and `}}`
/// stand for braces) and fields `{expr}`, each parsed as an expression
/// (an empty one is an empty string, one that does not parse is kept as
/// text); an unclosed field and what follows is literal text.
pub open spec fn fstring(s: Seq<char>, fl: Floats, i: int, literal: Seq<char>, parts: Seq<PartV>) -> Seq<PartV>
    decreases s.len(), s.len() - i, 10int,
{
    if i < 0 || i >= s.len() {
        fstring_done(literal, parts)
    } else if s[i] == '{' {
        if i + 1 < s.len() && s[i + 1] == '{' {
            fstring(s, fl, i + 2, literal.push('{'), parts)
        } else {
            let parts1 = if literal.len() > 0 {
                parts.push(PartV::Literal(literal))
            } else {
                parts
            };
            let (j, depth) = expr_end(s, i + 1, 1);
            if depth != 0 || j < i + 1 || j >= s.len() {
                fstring_done(seq!['{'] + s.subrange(i, s.len() as int), parts1)
            } else {
                let text = field_expr(s.subrange(i + 1, j));
                let e = if text.len() == 0 {
                    ExprV::Str(Seq::empty())
                } else if text.len() < s.len() {
                    match embedded(text, fl) {
                        Ok(x) => x,
                        Err(_) => ExprV::Str("{"@ + text + ":...}"@),
                    }
                } else {
                    ExprV::Str(Seq::empty())
                };
                fstring(s, fl, j + 1, Seq::empty(), parts1.push(PartV::Expr(e)))
            }
        }
    } else if s[i] == '}' && i + 1 < s.len() && s[i + 1] == '}' {
        fstring(s, fl, i + 2, literal.push('}'), parts)
    } else {
        fstring(s, fl, i + 1, literal + byte_chars(s[i]), parts)
    }
}

/// An f-string field's expression, parsed on its own.
pub open spec fn embedded(text: Seq<char>, fl: Floats) -> Result<ExprV, Seq<char>>
    decreases text.len(), token_stream(text, start_view()).len() as int, 50int,
{
    expr(token_stream(text, start_view()), fl, text.len() as int, 0, 0).0
}

// ── Expressions ──

/// An expression binding at least as tightly as `min`, then an optional
/// `if ... else ...`.
pub open spec fn expr(ts: Toks, fl: Floats, n: int, p: int, min: u8) -> (Result<ExprV, Seq<char>>, int)
    decreases n, ts.len() - p, 40int,
{
    if !tok_ok(ts, p) {
        (Err(Seq::empty()), p)
    } else {
        let (r, p1) = atom(ts, fl, n, p);
        match r {
            Err(e) => (Err(e), p1),
            Ok(lhs) => if moved(ts, p, p1) {
                expr_loop(ts, fl, n, p1, lhs, min)
            } else {
                (Ok(lhs), p1)
            },
        }
    }
}

/// Calls, subscripts, attributes and infix operators applied to `lhs`.
pub open spec fn expr_loop(ts: Toks, fl: Floats, n: int, p: int, lhs: ExprV, min: u8) -> (
    Result<ExprV, Seq<char>>,
    int,
)
    decreases n, ts.len() - p, 35int,
{
    if !tok_ok(ts, p) {
        (Err(Seq::empty()), p)
    } else if kind(ts, p) is LParen {
        let (r, p2) = call(ts, fl, n, p, lhs);
        match r {
            Err(e) => (Err(e), p2),
            Ok(l2) => if moved(ts, p, p2) {
                expr_loop(ts, fl, n, p2, l2, min)
            } else {
                (Ok(l2), p2)
            },
        }
    } else if kind(ts, p) is LBracket {
        let (r, p2) = subscript(ts, fl, n, p, lhs);
        match r {
            Err(e) => (Err(e), p2),
            Ok(l2) => if moved(ts, p, p2) {
                expr_loop(ts, fl, n, p2, l2, min)
            } else {
                (Ok(l2), p2)
            },
        }
    } else if kind(ts, p) is Dot {
        let (r, p2) = name(ts, adv(ts, p));
        match r {
            Err(e) => (Err(e), p2),
            Ok(a) => if moved(ts, p, p2) {
                expr_loop(ts, fl, n, p2, ExprV::Attribute { value: Box::new(lhs), attr: a }, min)
            } else {
                (Ok(ExprV::Attribute { value: Box::new(lhs), attr: a }), p2)
            },
        }
    } else {
        match infix_bp(kind(ts, p)) {
            None => ternary(ts, fl, n, p, lhs),
            Some((lbp, rbp)) => if lbp < min {
                ternary(ts, fl, n, p, lhs)
            } else {
                let (r, p2) = infix(ts, fl, n, p, lhs, rbp);
                match r {
                    Err(e) => (Err(e), p2),
                    Ok(l2) => if moved(ts, p, p2) {
                        expr_loop(ts, fl, n, p2, l2, min)
                    } else {
                        (Ok(l2), p2)
                    },
                }
            },
        }
    }
}

/// `body if test else orelse`, where `if` follows `body`.
pub open spec fn ternary(ts: Toks, fl: Floats, n: int, p: int, body: ExprV) -> (Result<ExprV, Seq<char>>, int)
    decreases n, ts.len() - p, 25int,
{
    if !tok_ok(ts, p) || !(kind(ts, p) is KwIf) {
        (Ok(body), p)
    } else {
        let (r1, p2) = expr(ts, fl, n, adv(ts, p), 0);
        match r1 {
            Err(e) => (Err(e), p2),
            Ok(test) => {
                let (r2, p3) = expect(ts, p2, KindView::KwElse, "ternary else"@);
                match r2 {
                    Err(e) => (Err(e), p3),
                    Ok(_) => if moved(ts, p, p3) {
                        let (r3, p4) = expr(ts, fl, n, p3, 0);
                        match r3 {
                            Err(e) => (Err(e), p4),
                            Ok(orelse) => (
                                Ok(
                                    ExprV::IfExpr {
                                        test: Box::new(test),
                                        body: Box::new(body),
                                        orelse: Box::new(orelse),
                                    },
                                ),
                                p4,
                            ),
                        }
                    } else {
                        (Err(Seq::empty()), p3)
                    },
                }
            },
        }
    }
}

/// The infix operator at `p` applied to `lhs`.
pub open spec fn infix(ts: Toks, fl: Floats, n: int, p: int, lhs: ExprV, rbp: u8) -> (
    Result<ExprV, Seq<char>>,
    int,
)
    decreases n, ts.len() - p, 25int,
{
    if !tok_ok(ts, p) {
        (Err(Seq::empty()), p)
    } else {
        let k = kind(ts, p);
        if k is KwOr || k is KwAnd {
            let op = if k is KwOr {
                BoolOp::Or
            } else {
                BoolOp::And
            };
            let (r, p2) = expr(ts, fl, n, adv(ts, p), rbp);
            match r {
                Err(e) => (Err(e), p2),
                Ok(rhs) => (
                    Ok(
                        match lhs {
                            ExprV::BoolOp { op: eo, values } => if eo == op {
                                ExprV::BoolOp { op, values: values.push(rhs) }
                            } else {
                                ExprV::BoolOp { op, values: seq![lhs, rhs] }
                            },
                            _ => ExprV::BoolOp { op, values: seq![lhs, rhs] },
                        },
                    ),
                    p2,
                ),
            }
        } else if k is EqEq || k is NotEq || k is Lt || k is Gt || k is LtE || k is GtE {
            let (r, p2) = cmp_chain(ts, fl, n, p, rbp, Seq::empty(), Seq::empty());
            match r {
                Err(e) => (Err(e), p2),
                Ok((ops, comps)) => (
                    Ok(ExprV::Compare { left: Box::new(lhs), ops, comparators: comps }),
                    p2,
                ),
            }
        } else if k is Not {
            let p1 = adv(ts, p);
            if kind(ts, p1) is KwIn {
                let (r, p2) = expr(ts, fl, n, adv(ts, p1), rbp);
                match r {
                    Err(e) => (Err(e), p2),
                    Ok(c) => (
                        Ok(ExprV::Compare { left: Box::new(lhs), ops: seq![CmpOp::NotIn], comparators: seq![c] }),
                        p2,
                    ),
                }
            } else {
                (Err("Expected 'in' after 'not'"@), p1)
            }
        } else if k is Is {
            let p1 = adv(ts, p);
            let is_not = kind(ts, p1) is Not;
            let p2 = if is_not {
                adv(ts, p1)
            } else {
                p1
            };
            let (r, p3) = expr(ts, fl, n, p2, rbp);
            match r {
                Err(e) => (Err(e), p3),
                Ok(c) => (
                    Ok(
                        ExprV::Compare {
                            left: Box::new(lhs),
                            ops: seq![
                                if is_not {
                                    CmpOp::IsNot
                                } else {
                                    CmpOp::Is
                                },
                            ],
                            comparators: seq![c],
                        },
                    ),
                    p3,
                ),
            }
        } else if k is KwIn {
            let (r, p2) = expr(ts, fl, n, adv(ts, p), rbp);
            match r {
                Err(e) => (Err(e), p2),
                Ok(c) => (
                    Ok(ExprV::Compare { left: Box::new(lhs), ops: seq![CmpOp::In], comparators: seq![c] }),
                    p2,
                ),
            }
        } else if adv(ts, p) > p {
            let (r, p2) = expr(ts, fl, n, adv(ts, p), rbp);
            match r {
                Err(e) => (Err(e), p2),
                Ok(rhs) => (
                    Ok(ExprV::BinOp { left: Box::new(lhs), op: binop_tok(k), right: Box::new(rhs) }),
                    p2,
                ),
            }
        } else {
            (Err(Seq::empty()), p)
        }
    }
}

/// A run of comparisons: each operator and the operand after it.
pub open spec fn cmp_chain(
    ts: Toks,
    fl: Floats,
    n: int,
    p: int,
    rbp: u8,
    ops: Seq<CmpOp>,
    comps: Seq<ExprV>,
) -> (Result<(Seq<CmpOp>, Seq<ExprV>), Seq<char>>, int)
    decreases n, ts.len() - p, 22int,
{
    if !tok_ok(ts, p) {
        (Err(Seq::empty()), p)
    } else {
        match cmp_op_tok(kind(ts, p)) {
            None => (Ok((ops, comps)), p),
            Some(op) => {
                let (r, p2) = expr(ts, fl, n, adv(ts, p), rbp);
                match r {
                    Err(e) => (Err(e), p2),
                    Ok(c) => if moved(ts, p, p2) {
                        cmp_chain(ts, fl, n, p2, rbp, ops.push(op), comps.push(c))
                    } else {
                        (Ok((ops.push(op), comps.push(c))), p2)
                    },
                }
            },
        }
    }
}

/// A prefix operator token parses to the unary operator it spells: `-` to
/// negation, `+` to unary plus, `~` to inversion, `not` to negation of a
/// truth value.
pub proof fn lemma_prefix_operators(ts: Toks, fl: Floats, n: int, p: int)
    requires
        tok_ok(ts, p),
        is_prefix(kind(ts, p)),
    ensures
        atom(ts, fl, n, p).0 matches Ok(e) ==> (e matches ExprV::UnaryOp { op, .. } && (kind(ts, p) is Minus
            <==> op == UnaryOp::USub) && (kind(ts, p) is Plus <==> op == UnaryOp::UAdd) && (kind(
            ts,
            p,
        ) is BitNot <==> op == UnaryOp::Invert) && (kind(ts, p) is Not <==> op == UnaryOp::Not)),
{
}

/// An operand: a prefix operator and its operand, a name (or `name :=
/// value`), a literal, a bracketed form, `lambda`, `yield`, `await` or a
/// starred expression.
pub open spec fn atom(ts: Toks, fl: Floats, n: int, p: int) -> (Result<ExprV, Seq<char>>, int)
    decreases n, ts.len() - p, 30int,
{
    if !tok_ok(ts, p) {
        (Err(Seq::empty()), p)
    } else {
        let k = kind(ts, p);
        let p1 = adv(ts, p);
        if is_prefix(k) {
            let op = if k is Minus {
                UnaryOp::USub
            } else if k is Plus {
                UnaryOp::UAdd
            } else if k is BitNot {
                UnaryOp::Invert
            } else {
                UnaryOp::Not
            };
            let (r, p2) = expr(ts, fl, n, p1, 12);
            match r {
                Err(e) => (Err(e), p2),
                Ok(x) => (Ok(ExprV::UnaryOp { op, operand: Box::new(x) }), p2),
            }
        } else {
            match k {
                KindView::Name(s) => if kind(ts, p1) is Walrus {
                    let (r, p3) = expr(ts, fl, n, adv(ts, p1), 0);
                    match r {
                        Err(e) => (Err(e), p3),
                        Ok(v) => (
                            Ok(ExprV::NamedExpr { target: Box::new(ExprV::Name(s)), value: Box::new(v) }),
                            p3,
                        ),
                    }
                } else {
                    (Ok(ExprV::Name(s)), p1)
                },
                KindView::Int => (
                    Ok(
                        ExprV::Int(
                            match ts[p].int_value {
                                Some(v) => v,
                                None => 0,
                            },
                        ),
                    ),
                    p1,
                ),
                KindView::Float => (Ok(ExprV::Float(float_of(fl, ts[p].lexeme))), p1),
                KindView::String(s) => (Ok(ExprV::Str(s)), p1),
                KindView::KwTrue => (Ok(ExprV::Bool(true)), p1),
                KindView::KwFalse => (Ok(ExprV::Bool(false)), p1),
                KindView::KwNone => (Ok(ExprV::None_), p1),
                KindView::KwLambda => lambda(ts, fl, n, p),
                KindView::KwYield => {
                    let (r, p2) = expr(ts, fl, n, p1, 0);
                    match r {
                        Err(e) => (Err(e), p2),
                        Ok(x) => (Ok(ExprV::Yield(Some(Box::new(x)))), p2),
                    }
                },
                KindView::KwAwait => {
                    let (r, p2) = expr(ts, fl, n, p1, 0);
                    match r {
                        Err(e) => (Err(e), p2),
                        Ok(x) => (Ok(ExprV::Await(Box::new(x))), p2),
                    }
                },
                KindView::LParen => paren(ts, fl, n, p),
                KindView::LBracket => list(ts, fl, n, p),
                KindView::LBrace => dict_set(ts, fl, n, p),
                KindView::Star => {
                    let (r, p2) = expr(ts, fl, n, p1, 0);
                    match r {
                        Err(e) => (Err(e), p2),
                        Ok(x) => (Ok(ExprV::Starred(Box::new(x))), p2),
                    }
                },
                KindView::Ellipsis => (Ok(ExprV::Ellipsis), p1),
                KindView::FStringStart => {
                    let content = ts[p].lexeme;
                    if content.len() < n {
                        (Ok(ExprV::FString(fstring(content, fl, 0, Seq::empty(), Seq::empty()))), p1)
                    } else {
                        (Err(Seq::empty()), p1)
                    }
                },
                _ => (Err("Unexpected token: "@ + kind_debug(k)), p),
            }
        }
    }
}

/// Expressions after commas up to the closing bracket `close` (where a
/// trailing comma may stand).
pub open spec fn items(ts: Toks, fl: Floats, n: int, p: int, close: KindView, acc: Seq<ExprV>) -> (
    Result<Seq<ExprV>, Seq<char>>,
    int,
)
    decreases n, ts.len() - p, 18int,
{
    if !tok_ok(ts, p) || !(kind(ts, p) is Comma) {
        (Ok(acc), p)
    } else {
        let p1 = adv(ts, p);
        if kind(ts, p1) == close {
            (Ok(acc), p1)
        } else {
            let (r, p2) = expr(ts, fl, n, p1, 0);
            match r {
                Err(e) => (Err(e), p2),
                Ok(x) => if moved(ts, p, p2) {
                    items(ts, fl, n, p2, close, acc.push(x))
                } else {
                    (Ok(acc.push(x)), p2)
                },
            }
        }
    }
}

/// A parenthesized form: `()`, a tuple, a generator (its clauses skipped)
/// or a parenthesized expression.
pub open spec fn paren(ts: Toks, fl: Floats, n: int, p: int) -> (Result<ExprV, Seq<char>>, int)
    decreases n, ts.len() - p, 20int,
{
    if !tok_ok(ts, p) || kind(ts, p) is EndOfFile {
        (Err(Seq::empty()), p)
    } else {
        let p1 = adv(ts, p);
        if kind(ts, p1) is RParen {
            (Ok(ExprV::Tuple(Seq::empty())), adv(ts, p1))
        } else {
            let (r, p2) = expr(ts, fl, n, p1, 0);
            match r {
                Err(e) => (Err(e), p2),
                Ok(first) => if !tok_ok(ts, p2) || !moved(ts, p, p2) {
                    (Err(Seq::empty()), p2)
                } else if kind(ts, p2) is Comma {
                    let (r2, p3) = items(ts, fl, n, p2, KindView::RParen, seq![first]);
                    match r2 {
                        Err(e) => (Err(e), p3),
                        Ok(xs) => {
                            let (r3, p4) = expect(ts, p3, KindView::RParen, "tuple )"@);
                            match r3 {
                                Err(e) => (Err(e), p4),
                                Ok(_) => (Ok(ExprV::Tuple(xs)), p4),
                            }
                        },
                    }
                } else if kind(ts, p2) is KwFor {
                    let p3 = skip_parens(ts, p2, 1);
                    let p4 = if kind(ts, p3) is RParen {
                        adv(ts, p3)
                    } else {
                        p3
                    };
                    (Ok(ExprV::Generator(Box::new(first), 0)), p4)
                } else {
                    let (r3, p3) = expect(ts, p2, KindView::RParen, "expr )"@);
                    match r3 {
                        Err(e) => (Err(e), p3),
                        Ok(_) => (Ok(first), p3),
                    }
                },
            }
        }
    }
}

/// A list display; a comprehension is skipped and gives an empty list.
pub open spec fn list(ts: Toks, fl: Floats, n: int, p: int) -> (Result<ExprV, Seq<char>>, int)
    decreases n, ts.len() - p, 20int,
{
    if !tok_ok(ts, p) || kind(ts, p) is EndOfFile {
        (Err(Seq::empty()), p)
    } else {
        let p1 = adv(ts, p);
        if kind(ts, p1) is RBracket {
            (Ok(ExprV::List(Seq::empty())), adv(ts, p1))
        } else {
            let (r, p2) = expr(ts, fl, n, p1, 0);
            match r {
                Err(e) => (Err(e), p2),
                Ok(first) => if !tok_ok(ts, p2) || !moved(ts, p, p2) {
                    (Err(Seq::empty()), p2)
                } else if kind(ts, p2) is KwFor {
                    (Ok(ExprV::List(Seq::empty())), adv(ts, skip_to_close(ts, p2, false)))
                } else {
                    let (r2, p3) = items(ts, fl, n, p2, KindView::RBracket, seq![first]);
                    match r2 {
                        Err(e) => (Err(e), p3),
                        Ok(xs) => {
                            let (r3, p4) = expect(ts, p3, KindView::RBracket, "list ]"@);
                            match r3 {
                                Err(e) => (Err(e), p4),
                                Ok(_) => (Ok(ExprV::List(xs)), p4),
                            }
                        },
                    }
                },
            }
        }
    }
}

/// `key: value` pairs after commas up to `}`.
pub open spec fn dict_items(ts: Toks, fl: Floats, n: int, p: int, acc: Seq<(ExprV, ExprV)>) -> (
    Result<Seq<(ExprV, ExprV)>, Seq<char>>,
    int,
)
    decreases n, ts.len() - p, 18int,
{
    if !tok_ok(ts, p) || !(kind(ts, p) is Comma) {
        (Ok(acc), p)
    } else {
        let p1 = adv(ts, p);
        if kind(ts, p1) is RBrace {
            (Ok(acc), p1)
        } else {
            let (r, p2) = expr(ts, fl, n, p1, 0);
            match r {
                Err(e) => (Err(e), p2),
                Ok(k) => {
                    let (rc, p3) = expect(ts, p2, KindView::Colon, "dict colon"@);
                    match rc {
                        Err(e) => (Err(e), p3),
                        Ok(_) => if moved(ts, p, p3) {
                            let (rv, p4) = expr(ts, fl, n, p3, 0);
                            match rv {
                                Err(e) => (Err(e), p4),
                                Ok(v) => if moved(ts, p, p4) {
                                    dict_items(ts, fl, n, p4, acc.push((k, v)))
                                } else {
                                    (Ok(acc.push((k, v))), p4)
                                },
                            }
                        } else {
                            (Err(Seq::empty()), p3)
                        },
                    }
                },
            }
        }
    }
}

/// A dict or set display; a comprehension is skipped and gives an empty
/// one.
pub open spec fn dict_set(ts: Toks, fl: Floats, n: int, p: int) -> (Result<ExprV, Seq<char>>, int)
    decreases n, ts.len() - p, 20int,
{
    if !tok_ok(ts, p) || kind(ts, p) is EndOfFile {
        (Err(Seq::empty()), p)
    } else {
        let p1 = adv(ts, p);
        if kind(ts, p1) is RBrace {
            (Ok(ExprV::Dict(Seq::empty())), adv(ts, p1))
        } else {
            let (r, p2) = expr(ts, fl, n, p1, 0);
            match r {
                Err(e) => (Err(e), p2),
                Ok(first) => if !tok_ok(ts, p2) || !moved(ts, p, p2) {
                    (Err(Seq::empty()), p2)
                } else if kind(ts, p2) is KwFor {
                    (Ok(ExprV::SetLiteral(Seq::empty())), adv(ts, skip_to_close(ts, p2, true)))
                } else if kind(ts, p2) is Colon {
                    let (rv, p3) = expr(ts, fl, n, adv(ts, p2), 0);
                    match rv {
                        Err(e) => (Err(e), p3),
                        Ok(val) => if !tok_ok(ts, p3) || !moved(ts, p, p3) {
                            (Err(Seq::empty()), p3)
                        } else if kind(ts, p3) is KwFor {
                            (Ok(ExprV::Dict(Seq::empty())), adv(ts, skip_to_close(ts, p3, true)))
                        } else {
                            let (r2, p4) = dict_items(ts, fl, n, p3, seq![(first, val)]);
                            match r2 {
                                Err(e) => (Err(e), p4),
                                Ok(xs) => {
                                    let (r3, p5) = expect(ts, p4, KindView::RBrace, "dict }"@);
                                    match r3 {
                                        Err(e) => (Err(e), p5),
                                        Ok(_) => (Ok(ExprV::Dict(xs)), p5),
                                    }
                                },
                            }
                        },
                    }
                } else {
                    let (r2, p3) = items(ts, fl, n, p2, KindView::RBrace, seq![first]);
                    match r2 {
                        Err(e) => (Err(e), p3),
                        Ok(xs) => {
                            let (r3, p4) = expect(ts, p3, KindView::RBrace, "set }"@);
                            match r3 {
                                Err(e) => (Err(e), p4),
                                Ok(_) => (Ok(ExprV::SetLiteral(xs)), p4),
                            }
                        },
                    }
                },
            }
        }
    }
}

/// The arguments of a call: positional and starred ones, and `name=value`
/// keywords.
pub open spec fn call_args(
    ts: Toks,
    fl: Floats,
    n: int,
    p: int,
    args: Seq<ExprV>,
    kws: Seq<(Option<Seq<char>>, ExprV)>,
) -> (Result<(Seq<ExprV>, Seq<(Option<Seq<char>>, ExprV)>), Seq<char>>, int)
    decreases n, ts.len() - p, 45int,
{
    if !tok_ok(ts, p) {
        (Err(Seq::empty()), p)
    } else {
        let (r, p2) = if kind(ts, p) is Star || kind(ts, p) is DoubleStar {
            let (r1, q) = expr(ts, fl, n, adv(ts, p), 0);
            (
                match r1 {
                    Err(e) => Err(e),
                    Ok(x) => Ok((args.push(ExprV::Starred(Box::new(x))), kws)),
                },
                q,
            )
        } else {
            let (r1, q) = expr(ts, fl, n, p, 0);
            match r1 {
                Err(e) => (Err(e), q),
                Ok(a) => if tok_ok(ts, q) && kind(ts, q) is Eq && q >= p {
                    match a {
                        ExprV::Name(nm) => {
                            let (r2, q2) = expr(ts, fl, n, adv(ts, q), 0);
                            (
                                match r2 {
                                    Err(e) => Err(e),
                                    Ok(v) => Ok((args, kws.push((Some(nm), v)))),
                                },
                                q2,
                            )
                        },
                        _ => (Err("Keyword arg must be name"@), adv(ts, q)),
                    }
                } else {
                    (Ok((args.push(a), kws)), q)
                },
            }
        };
        match r {
            Err(e) => (Err(e), p2),
            Ok((a2, k2)) => if tok_ok(ts, p2) && kind(ts, p2) is Comma && adv(ts, p2) > p {
                call_args(ts, fl, n, adv(ts, p2), a2, k2)
            } else {
                (Ok((a2, k2)), p2)
            },
        }
    }
}

/// A call of `func`.
pub open spec fn call(ts: Toks, fl: Floats, n: int, p: int, func: ExprV) -> (Result<ExprV, Seq<char>>, int)
    decreases n, ts.len() - p, 20int,
{
    if !tok_ok(ts, p) || kind(ts, p) is EndOfFile {
        (Err(Seq::empty()), p)
    } else {
        let p1 = adv(ts, p);
        let (r, p2) = if kind(ts, p1) is RParen {
            (Ok((Seq::<ExprV>::empty(), Seq::<(Option<Seq<char>>, ExprV)>::empty())), p1)
        } else if moved(ts, p, p1) {
            call_args(ts, fl, n, p1, Seq::empty(), Seq::empty())
        } else {
            (Err(Seq::empty()), p1)
        };
        match r {
            Err(e) => (Err(e), p2),
            Ok((args, kws)) => {
                let (r2, p3) = expect(ts, p2, KindView::RParen, "call )"@);
                match r2 {
                    Err(e) => (Err(e), p3),
                    Ok(_) => (Ok(ExprV::Call { func: Box::new(func), args, keywords: kws }), p3),
                }
            },
        }
    }
}

/// A subscript of `value`: an index or a slice.
pub open spec fn subscript(ts: Toks, fl: Floats, n: int, p: int, value: ExprV) -> (
    Result<ExprV, Seq<char>>,
    int,
)
    decreases n, ts.len() - p, 20int,
{
    if !tok_ok(ts, p) || kind(ts, p) is EndOfFile {
        (Err(Seq::empty()), p)
    } else {
        let (r, p2) = expr(ts, fl, n, adv(ts, p), 0);
        match r {
            Err(e) => (Err(e), p2),
            Ok(lower) => {
                let (rs, p3) = if tok_ok(ts, p2) && kind(ts, p2) is Colon && p2 >= p {
                    let q = adv(ts, p2);
                    let (ru, q2) = if kind(ts, q) is RBracket || kind(ts, q) is Colon {
                        (Ok(None::<ExprV>), q)
                    } else {
                        let (x, q1) = expr(ts, fl, n, q, 0);
                        (
                            match x {
                                Err(e) => Err(e),
                                Ok(u) => Ok(Some(u)),
                            },
                            q1,
                        )
                    };
                    match ru {
                        Err(e) => (Err(e), q2),
                        Ok(upper) => if tok_ok(ts, q2) && kind(ts, q2) is Colon && q2 >= p {
                            let q3 = adv(ts, q2);
                            if kind(ts, q3) is RBracket {
                                (Ok(SliceV::Range { lower: Some(lower), upper, step: None }), q3)
                            } else {
                                let (x, q4) = expr(ts, fl, n, q3, 0);
                                match x {
                                    Err(e) => (Err(e), q4),
                                    Ok(st) => (
                                        Ok(SliceV::Range { lower: Some(lower), upper, step: Some(st) }),
                                        q4,
                                    ),
                                }
                            }
                        } else {
                            (Ok(SliceV::Range { lower: Some(lower), upper, step: None }), q2)
                        },
                    }
                } else {
                    (Ok(SliceV::Index(lower)), p2)
                };
                match rs {
                    Err(e) => (Err(e), p3),
                    Ok(sl) => {
                        let (r2, p4) = expect(ts, p3, KindView::RBracket, "sub ]"@);
                        match r2 {
                            Err(e) => (Err(e), p4),
                            Ok(_) => (Ok(ExprV::Subscript { value: Box::new(value), slice: Box::new(sl) }), p4),
                        }
                    },
                }
            },
        }
    }
}

/// `lambda params: body`.
pub open spec fn lambda(ts: Toks, fl: Floats, n: int, p: int) -> (Result<ExprV, Seq<char>>, int)
    decreases n, ts.len() - p, 20int,
{
    if !tok_ok(ts, p) || kind(ts, p) is EndOfFile {
        (Err(Seq::empty()), p)
    } else {
        let (r, p2) = params(ts, fl, n, adv(ts, p));
        match r {
            Err(e) => (Err(e), p2),
            Ok(a) => {
                let (r2, p3) = expect(ts, p2, KindView::Colon, "lambda :"@);
                match r2 {
                    Err(e) => (Err(e), p3),
                    Ok(_) => if moved(ts, p, p3) {
                        let (r3, p4) = expr(ts, fl, n, p3, 0);
                        match r3 {
                            Err(e) => (Err(e), p4),
                            Ok(body) => (Ok(ExprV::Lambda { args: Box::new(a), body: Box::new(body) }), p4),
                        }
                    } else {
                        (Err(Seq::empty()), p3)
                    },
                }
            },
        }
    }
}

/// No parameters.
pub open spec fn no_args() -> ArgsV {
    ArgsV {
        args: Seq::empty(),
        vararg: None,
        kwonlyargs: Seq::empty(),
        kw_defaults: Seq::empty(),
        kwarg: None,
        defaults: Seq::empty(),
    }
}

/// A parameter list: `()`-empty, or names with defaults, `*` or `*name`
/// (after which names are keyword-only) and a final `**name`.
pub open spec fn params(ts: Toks, fl: Floats, n: int, p: int) -> (Result<ArgsV, Seq<char>>, int)
    decreases n, ts.len() - p, 16int,
{
    if !tok_ok(ts, p) {
        (Err(Seq::empty()), p)
    } else if kind(ts, p) is RParen {
        (Ok(no_args()), p)
    } else {
        params_loop(ts, fl, n, p, no_args(), false)
    }
}

/// One parameter of a list and the rest.
pub open spec fn params_loop(ts: Toks, fl: Floats, n: int, p: int, a: ArgsV, saw_star: bool) -> (
    Result<ArgsV, Seq<char>>,
    int,
)
    decreases n, ts.len() - p, 14int,
{
    if !tok_ok(ts, p) {
        (Err(Seq::empty()), p)
    } else if kind(ts, p) is DoubleStar {
        let (r, p2) = name(ts, adv(ts, p));
        match r {
            Err(e) => (Err(e), p2),
            Ok(nm) => (Ok(ArgsV { kwarg: Some(nm), ..a }), p2),
        }
    } else {
        let (r, p2) = if kind(ts, p) is Star {
            let p1 = adv(ts, p);
            if kind(ts, p1) is Comma || kind(ts, p1) is RParen {
                (Ok((a, true)), p1)
            } else {
                let (rn, q) = name(ts, p1);
                (
                    match rn {
                        Err(e) => Err(e),
                        Ok(nm) => Ok((ArgsV { vararg: Some(nm), ..a }, true)),
                    },
                    q,
                )
            }
        } else {
            let (rn, q) = name(ts, p);
            match rn {
                Err(e) => (Err(e), q),
                Ok(nm) => if tok_ok(ts, q) && kind(ts, q) is Eq && q >= p {
                    let (rd, q2) = expr(ts, fl, n, adv(ts, q), 0);
                    match rd {
                        Err(e) => (Err(e), q2),
                        Ok(d) => (
                            Ok(
                                (
                                    if saw_star {
                                        ArgsV {
                                            kwonlyargs: a.kwonlyargs.push(nm),
                                            kw_defaults: a.kw_defaults.push(d),
                                            ..a
                                        }
                                    } else {
                                        ArgsV { args: a.args.push(nm), defaults: a.defaults.push(d), ..a }
                                    },
                                    saw_star,
                                ),
                            ),
                            q2,
                        ),
                    }
                } else {
                    (
                        Ok(
                            (
                                if saw_star {
                                    ArgsV { kwonlyargs: a.kwonlyargs.push(nm), ..a }
                                } else {
                                    ArgsV { args: a.args.push(nm), ..a }
                                },
                                saw_star,
                            ),
                        ),
                        q,
                    )
                },
            }
        };
        match r {
            Err(e) => (Err(e), p2),
            Ok((a2, s2)) => if tok_ok(ts, p2) && kind(ts, p2) is Comma && adv(ts, p2) > p {
                params_loop(ts, fl, n, adv(ts, p2), a2, s2)
            } else {
                (Ok(a2), p2)
            },
        }
    }
}

// ── Statements ──

/// Whether `q` is a position at or past `p` in the stream.
pub open spec fn stayed(ts: Toks, p: int, q: int) -> bool {
    p <= q < ts.len()
}

/// An indented block or a single statement after `:`.
pub open spec fn suite(ts: Toks, fl: Floats, n: int, p: int) -> (Result<Seq<StmtV>, Seq<char>>, int)
    decreases n, ts.len() - p, 70int,
{
    let p1 = skip_nl(ts, p);
    if !tok_ok(ts, p) || !stayed(ts, p, p1) {
        (Err(Seq::empty()), p1)
    } else if kind(ts, p1) is Indent {
        let p2 = adv(ts, p1);
        if moved(ts, p, p2) {
            let (r, p3) = block(ts, fl, n, p2, Seq::empty());
            match r {
                Err(e) => (Err(e), p3),
                Ok(b) => {
                    let p4 = skip_nl(ts, p3);
                    (Ok(b), if kind(ts, p4) is Dedent {
                        adv(ts, p4)
                    } else {
                        p4
                    })
                },
            }
        } else {
            (Err(Seq::empty()), p2)
        }
    } else {
        let (r, p2) = stmt(ts, fl, n, p1);
        match r {
            Err(e) => (Err(e), p2),
            Ok(st) => (Ok(seq![st]), skip_nl(ts, p2)),
        }
    }
}

/// The statements of a block up to the `Dedent` that ends it (not passed)
/// or the end of file; a `Dedent` directly followed by an `Indent` is
/// passed over.
pub open spec fn block(ts: Toks, fl: Floats, n: int, p: int, acc: Seq<StmtV>) -> (
    Result<Seq<StmtV>, Seq<char>>,
    int,
)
    decreases n, ts.len() - p, 65int,
{
    let p1 = skip_nl(ts, p);
    if !tok_ok(ts, p) || !stayed(ts, p, p1) {
        (Err(Seq::empty()), p1)
    } else if kind(ts, p1) is Dedent {
        let p3 = skip_nl(ts, adv(ts, p1));
        if kind(ts, p3) is Indent && moved(ts, p, adv(ts, p3)) {
            block(ts, fl, n, adv(ts, p3), acc)
        } else {
            (Ok(acc), p1)
        }
    } else if kind(ts, p1) is EndOfFile {
        (Ok(acc), p1)
    } else {
        let (r, p2) = stmt(ts, fl, n, p1);
        match r {
            Err(e) => (Err(e), p2),
            Ok(st) => {
                let p3 = skip_nl(ts, p2);
                if moved(ts, p, p3) {
                    block(ts, fl, n, p3, acc.push(st))
                } else {
                    (Ok(acc.push(st)), p3)
                }
            },
        }
    }
}

/// An optional expression after `return` or `raise`: none before the end
/// of a statement; an expression that does not parse stands as `None`.
pub open spec fn opt_expr(ts: Toks, fl: Floats, n: int, p: int) -> (Option<ExprV>, int)
    decreases n, ts.len() - p, 55int,
{
    let p1 = skip_nl(ts, p);
    if !tok_ok(ts, p) || !stayed(ts, p, p1) {
        (None, p1)
    } else {
        let k = kind(ts, p1);
        if k is Newline || k is EndOfFile || k is Semicolon || k is Dedent || k is Colon {
            (None, p1)
        } else {
            let (r, p2) = expr(ts, fl, n, p1, 0);
            (
                Some(
                    match r {
                        Ok(e) => e,
                        Err(_) => ExprV::None_,
                    },
                ),
                p2,
            )
        }
    }
}

/// A statement, after any blank lines.
#[verifier::opaque]
pub open spec fn stmt(ts: Toks, fl: Floats, n: int, p: int) -> (Result<StmtV, Seq<char>>, int)
    decreases n, ts.len() - p, 60int,
{
    let p1 = skip_nl(ts, p);
    if !tok_ok(ts, p) || !stayed(ts, p, p1) {
        (Err(Seq::empty()), p1)
    } else {
        let k = kind(ts, p1);
        let p2 = adv(ts, p1);
        match k {
            KindView::KwDef => func_def(ts, fl, n, p1),
            KindView::KwClass => class_def(ts, fl, n, p1),
            KindView::KwIf => if_stmt(ts, fl, n, p1),
            KindView::KwWhile => while_stmt(ts, fl, n, p1),
            KindView::KwFor => for_stmt(ts, fl, n, p1),
            KindView::KwReturn => {
                let (v, p3) = opt_expr(ts, fl, n, p2);
                (Ok(StmtV::Return(v)), p3)
            },
            KindView::KwMatch => {
                let (_, p3) = expr(ts, fl, n, p2, 0);
                let (rc, p4) = expect(ts, p3, KindView::Colon, "match :"@);
                match rc {
                    Err(e) => (Err(e), p4),
                    Ok(_) => {
                        let p5 = skip_nl(ts, p4);
                        (Ok(StmtV::Pass), if kind(ts, p5) is Indent {
                            skip_block(ts, adv(ts, p5), 1)
                        } else {
                            p5
                        })
                    },
                }
            },
            KindView::KwBreak => (Ok(StmtV::Break), p2),
            KindView::KwContinue => (Ok(StmtV::Continue), p2),
            KindView::KwPass => (Ok(StmtV::Pass), p2),
            KindView::KwImport => import_stmt(ts, p1),
            KindView::KwFrom => import_from(ts, p1),
            KindView::KwTry => try_stmt(ts, p1),
            KindView::KwAsync => if kind(ts, p2) is KwDef {
                func_def(ts, fl, n, p2)
            } else {
                (Ok(StmtV::Pass), skip_to_end(ts, p2))
            },
            KindView::KwRaise => {
                let (v, p3) = opt_expr(ts, fl, n, p2);
                (Ok(StmtV::Raise { exc: v, cause: None }), p3)
            },
            KindView::KwWith => with_stmt(ts, fl, n, p1),
            KindView::KwGlobal => {
                let (ns, p3) = name_list(ts, p2, Seq::empty());
                (Ok(StmtV::Global(ns)), p3)
            },
            KindView::At => decorated(ts, fl, n, p1),
            _ => assign_or_expr(ts, fl, n, p1),
        }
    }
}

/// `def name(params) -> returns: body`; the tokens after the parameters
/// up to `)` (annotations) are passed over.
#[verifier::opaque]
pub open spec fn func_def(ts: Toks, fl: Floats, n: int, p: int) -> (Result<StmtV, Seq<char>>, int)
    decreases n, ts.len() - p, 50int,
{
    if !tok_ok(ts, p) || kind(ts, p) is EndOfFile {
        (Err(Seq::empty()), p)
    } else {
        let (rn, p2) = name(ts, adv(ts, p));
        match rn {
            Err(e) => (Err(e), p2),
            Ok(nm) => {
                let (rl, p3) = expect(ts, p2, KindView::LParen, "func ("@);
                match rl {
                    Err(e) => (Err(e), p3),
                    Ok(_) => if moved(ts, p, p3) {
                        let (ra, p4) = params(ts, fl, n, p3);
                        match ra {
                            Err(e) => (Err(e), p4),
                            Ok(args) => {
                                let (rr, p6) = expect(ts, skip_to_rparen(ts, p4), KindView::RParen, "func )"@);
                                match rr {
                                    Err(e) => (Err(e), p6),
                                    Ok(_) => {
                                        let (rret, p8) = if tok_ok(ts, p6) && kind(ts, p6) is Arrow && moved(ts, p, p6) {
                                            let (x, q) = expr(ts, fl, n, adv(ts, p6), 0);
                                            (
                                                match x {
                                                    Err(e) => Err(e),
                                                    Ok(v) => Ok(Some(v)),
                                                },
                                                q,
                                            )
                                        } else {
                                            (Ok(None::<ExprV>), p6)
                                        };
                                        match rret {
                                            Err(e) => (Err(e), p8),
                                            Ok(ret) => {
                                                let (rc, p9) = expect(ts, p8, KindView::Colon, "func :"@);
                                                match rc {
                                                    Err(e) => (Err(e), p9),
                                                    Ok(_) => if moved(ts, p, p9) {
                                                        let (rb, p10) = suite(ts, fl, n, p9);
                                                        match rb {
                                                            Err(e) => (Err(e), p10),
                                                            Ok(body) => (
                                                                Ok(
                                                                    StmtV::FuncDef {
                                                                        name: nm,
                                                                        args,
                                                                        body,
                                                                        decorators: Seq::empty(),
                                                                        returns: ret,
                                                                    },
                                                                ),
                                                                p10,
                                                            ),
                                                        }
                                                    } else {
                                                        (Err(Seq::empty()), p9)
                                                    },
                                                }
                                            },
                                        }
                                    },
                                }
                            },
                        }
                    } else {
                        (Err(Seq::empty()), p3)
                    },
                }
            },
        }
    }
}

/// `class name(bases): body`; the bases are passed over.
#[verifier::opaque]
pub open spec fn class_def(ts: Toks, fl: Floats, n: int, p: int) -> (Result<StmtV, Seq<char>>, int)
    decreases n, ts.len() - p, 50int,
{
    if !tok_ok(ts, p) || kind(ts, p) is EndOfFile {
        (Err(Seq::empty()), p)
    } else {
        let (rn, p2) = name(ts, adv(ts, p));
        match rn {
            Err(e) => (Err(e), p2),
            Ok(nm) => {
                let p3 = if kind(ts, p2) is LParen {
                    let q = skip_parens(ts, adv(ts, p2), 1);
                    if kind(ts, q) is RParen {
                        adv(ts, q)
                    } else {
                        q
                    }
                } else {
                    p2
                };
                let (rc, p4) = expect(ts, p3, KindView::Colon, "class :"@);
                match rc {
                    Err(e) => (Err(e), p4),
                    Ok(_) => if moved(ts, p, p4) {
                        let (rb, p5) = suite(ts, fl, n, p4);
                        match rb {
                            Err(e) => (Err(e), p5),
                            Ok(body) => (
                                Ok(StmtV::ClassDef { name: nm, nbases: 0, body, decorators: Seq::empty() }),
                                p5,
                            ),
                        }
                    } else {
                        (Err(Seq::empty()), p4)
                    },
                }
            },
        }
    }
}

/// The decorators `@expr` of a definition, each followed by blank lines.
pub open spec fn decorators(ts: Toks, fl: Floats, n: int, p: int, acc: Seq<ExprV>) -> (
    Result<Seq<ExprV>, Seq<char>>,
    int,
)
    decreases n, ts.len() - p, 54int,
{
    if !tok_ok(ts, p) || !(kind(ts, p) is At) {
        (Ok(acc), p)
    } else {
        let (r, p2) = expr(ts, fl, n, adv(ts, p), 0);
        match r {
            Err(e) => (Err(e), p2),
            Ok(d) => {
                let p3 = skip_nl(ts, p2);
                if moved(ts, p, p3) {
                    decorators(ts, fl, n, p3, acc.push(d))
                } else {
                    (Ok(acc.push(d)), p3)
                }
            },
        }
    }
}

/// A decorated function or class definition.
#[verifier::opaque]
pub open spec fn decorated(ts: Toks, fl: Floats, n: int, p: int) -> (Result<StmtV, Seq<char>>, int)
    decreases n, ts.len() - p, 55int,
{
    let (r, p1) = decorators(ts, fl, n, p, Seq::empty());
    match r {
        Err(e) => (Err(e), p1),
        Ok(decs) => {
            let p2 = skip_nl(ts, p1);
            if !tok_ok(ts, p) || !stayed(ts, p, p2) {
                (Err(Seq::empty()), p2)
            } else if kind(ts, p2) is KwDef {
                let (rf, p3) = func_def(ts, fl, n, p2);
                (
                    match rf {
                        Ok(StmtV::FuncDef { name, args, body, decorators: _, returns: ret }) => Ok(
                            StmtV::FuncDef { name, args, body, decorators: decs, returns: ret },
                        ),
                        other => other,
                    },
                    p3,
                )
            } else if kind(ts, p2) is KwClass {
                let (rc, p3) = class_def(ts, fl, n, p2);
                (
                    match rc {
                        Ok(StmtV::ClassDef { name, nbases, body, decorators: _ }) => Ok(
                            StmtV::ClassDef { name, nbases, body, decorators: decs },
                        ),
                        other => other,
                    },
                    p3,
                )
            } else {
                (Err("Decorator on non-def/class"@), p2)
            }
        },
    }
}

/// `if test: body`, then an `elif` chain or an `else` block.
#[verifier::opaque]
pub open spec fn if_stmt(ts: Toks, fl: Floats, n: int, p: int) -> (Result<StmtV, Seq<char>>, int)
    decreases n, ts.len() - p, 50int,
{
    if !tok_ok(ts, p) || kind(ts, p) is EndOfFile {
        (Err(Seq::empty()), p)
    } else {
        let (rt, p2) = expr(ts, fl, n, adv(ts, p), 0);
        match rt {
            Err(e) => (Err(e), p2),
            Ok(test) => {
                let (rc, p3) = expect(ts, p2, KindView::Colon, "if :"@);
                match rc {
                    Err(e) => (Err(e), p3),
                    Ok(_) => if moved(ts, p, p3) {
                        let (rb, p4) = suite(ts, fl, n, p3);
                        match rb {
                            Err(e) => (Err(e), p4),
                            Ok(body) => {
                                let p5 = skip_nl(ts, p4);
                                if !moved(ts, p, p5) {
                                    (Err(Seq::empty()), p5)
                                } else if kind(ts, p5) is KwElif {
                                    let (re, p6) = if_stmt(ts, fl, n, p5);
                                    match re {
                                        Err(e) => (Err(e), p6),
                                        Ok(s2) => (Ok(StmtV::If { test, body, orelse: seq![s2] }), p6),
                                    }
                                } else if kind(ts, p5) is KwElse {
                                    let (rc2, p7) = expect(ts, adv(ts, p5), KindView::Colon, "else :"@);
                                    match rc2 {
                                        Err(e) => (Err(e), p7),
                                        Ok(_) => if moved(ts, p, p7) {
                                            let (ro, p8) = suite(ts, fl, n, p7);
                                            match ro {
                                                Err(e) => (Err(e), p8),
                                                Ok(orelse) => (Ok(StmtV::If { test, body, orelse }), p8),
                                            }
                                        } else {
                                            (Err(Seq::empty()), p7)
                                        },
                                    }
                                } else {
                                    (Ok(StmtV::If { test, body, orelse: Seq::empty() }), p5)
                                }
                            },
                        }
                    } else {
                        (Err(Seq::empty()), p3)
                    },
                }
            },
        }
    }
}

/// An `else: block` right after a loop body, if there is one.
pub open spec fn loop_else(ts: Toks, fl: Floats, n: int, p: int) -> (Result<Seq<StmtV>, Seq<char>>, int)
    decreases n, ts.len() - p, 72int,
{
    if !tok_ok(ts, p) || !(kind(ts, p) is KwElse) {
        (Ok(Seq::empty()), p)
    } else {
        let (rc, p2) = expect(ts, adv(ts, p), KindView::Colon, "else :"@);
        match rc {
            Err(e) => (Err(e), p2),
            Ok(_) => if moved(ts, p, p2) {
                suite(ts, fl, n, p2)
            } else {
                (Err(Seq::empty()), p2)
            },
        }
    }
}

/// `while test: body`, with an optional `else` block.
#[verifier::opaque]
pub open spec fn while_stmt(ts: Toks, fl: Floats, n: int, p: int) -> (Result<StmtV, Seq<char>>, int)
    decreases n, ts.len() - p, 50int,
{
    if !tok_ok(ts, p) || kind(ts, p) is EndOfFile {
        (Err(Seq::empty()), p)
    } else {
        let (rt, p2) = expr(ts, fl, n, adv(ts, p), 0);
        match rt {
            Err(e) => (Err(e), p2),
            Ok(test) => {
                let (rc, p3) = expect(ts, p2, KindView::Colon, "while :"@);
                match rc {
                    Err(e) => (Err(e), p3),
                    Ok(_) => if moved(ts, p, p3) {
                        let (rb, p4) = suite(ts, fl, n, p3);
                        match rb {
                            Err(e) => (Err(e), p4),
                            Ok(body) => if moved(ts, p, p4) {
                                let (ro, p5) = loop_else(ts, fl, n, p4);
                                match ro {
                                    Err(e) => (Err(e), p5),
                                    Ok(orelse) => (Ok(StmtV::While { test, body, orelse }), p5),
                                }
                            } else {
                                (Err(Seq::empty()), p4)
                            },
                        }
                    } else {
                        (Err(Seq::empty()), p3)
                    },
                }
            },
        }
    }
}

/// The loop variables of a `for`: names separated by commas.
pub open spec fn for_names(ts: Toks, p: int, acc: Seq<ExprV>) -> (Result<Seq<ExprV>, Seq<char>>, int)
    decreases ts.len() - p,
{
    let (r, p1) = name(ts, p);
    match r {
        Err(e) => (Err(e), p1),
        Ok(nm) => if tok_ok(ts, p1) && kind(ts, p1) is Comma && moved(ts, p, adv(ts, p1)) {
            for_names(ts, adv(ts, p1), acc.push(ExprV::Name(nm)))
        } else {
            (Ok(acc.push(ExprV::Name(nm))), p1)
        },
    }
}

/// `for names in iter: body`, with an optional `else` block.
#[verifier::opaque]
pub open spec fn for_stmt(ts: Toks, fl: Floats, n: int, p: int) -> (Result<StmtV, Seq<char>>, int)
    decreases n, ts.len() - p, 50int,
{
    if !tok_ok(ts, p) || kind(ts, p) is EndOfFile {
        (Err(Seq::empty()), p)
    } else {
        let (rn, p2) = for_names(ts, adv(ts, p), Seq::empty());
        match rn {
            Err(e) => (Err(e), p2),
            Ok(names) => {
                let target = if names.len() == 1 {
                    names[0]
                } else {
                    ExprV::Tuple(names)
                };
                let (ri, p3) = expect(ts, p2, KindView::KwIn, "for in"@);
                match ri {
                    Err(e) => (Err(e), p3),
                    Ok(_) => if moved(ts, p, p3) {
                        let (rx, p4) = expr(ts, fl, n, p3, 0);
                        match rx {
                            Err(e) => (Err(e), p4),
                            Ok(iter) => {
                                let (rc, p5) = expect(ts, p4, KindView::Colon, "for :"@);
                                match rc {
                                    Err(e) => (Err(e), p5),
                                    Ok(_) => if moved(ts, p, p5) {
                                        let (rb, p6) = suite(ts, fl, n, p5);
                                        match rb {
                                            Err(e) => (Err(e), p6),
                                            Ok(body) => if moved(ts, p, p6) {
                                                let (ro, p7) = loop_else(ts, fl, n, p6);
                                                match ro {
                                                    Err(e) => (Err(e), p7),
                                                    Ok(orelse) => (
                                                        Ok(StmtV::For { target, iter, body, orelse }),
                                                        p7,
                                                    ),
                                                }
                                            } else {
                                                (Err(Seq::empty()), p6)
                                            },
                                        }
                                    } else {
                                        (Err(Seq::empty()), p5)
                                    },
                                }
                            },
                        }
                    } else {
                        (Err(Seq::empty()), p3)
                    },
                }
            },
        }
    }
}

/// `try:` and its handlers, passed over as `pass`.
pub open spec fn try_stmt(ts: Toks, p: int) -> (Result<StmtV, Seq<char>>, int) {
    let (rc, p2) = expect(ts, adv(ts, p), KindView::Colon, "try :"@);
    match rc {
        Err(e) => (Err(e), p2),
        Ok(_) => {
            let p3 = skip_nl(ts, p2);
            let p4 = if kind(ts, p3) is Indent {
                adv(ts, p3)
            } else {
                p3
            };
            (Ok(StmtV::Pass), skip_try(ts, p4, 1))
        },
    }
}

/// The items of a `with`: each an expression and an optional `as` target.
pub open spec fn with_items(ts: Toks, fl: Floats, n: int, p: int, acc: Seq<(ExprV, Option<ExprV>)>) -> (
    Result<Seq<(ExprV, Option<ExprV>)>, Seq<char>>,
    int,
)
    decreases n, ts.len() - p, 48int,
{
    if !tok_ok(ts, p) {
        (Err(Seq::empty()), p)
    } else {
        let (rx, p1) = expr(ts, fl, n, p, 0);
        match rx {
            Err(e) => (Err(e), p1),
            Ok(ctx) => {
                let (rv, p2) = if tok_ok(ts, p1) && kind(ts, p1) is KwAs && stayed(ts, p, p1) {
                    let (x, q) = expr(ts, fl, n, adv(ts, p1), 0);
                    (
                        match x {
                            Err(e) => Err(e),
                            Ok(v) => Ok(Some(v)),
                        },
                        q,
                    )
                } else {
                    (Ok(None::<ExprV>), p1)
                };
                match rv {
                    Err(e) => (Err(e), p2),
                    Ok(vars) => if tok_ok(ts, p2) && kind(ts, p2) is Comma && moved(ts, p, adv(ts, p2)) {
                        with_items(ts, fl, n, adv(ts, p2), acc.push((ctx, vars)))
                    } else {
                        (Ok(acc.push((ctx, vars))), p2)
                    },
                }
            },
        }
    }
}

/// `with items: body`.
#[verifier::opaque]
pub open spec fn with_stmt(ts: Toks, fl: Floats, n: int, p: int) -> (Result<StmtV, Seq<char>>, int)
    decreases n, ts.len() - p, 50int,
{
    if !tok_ok(ts, p) || kind(ts, p) is EndOfFile {
        (Err(Seq::empty()), p)
    } else {
        let (ri, p2) = with_items(ts, fl, n, adv(ts, p), Seq::empty());
        match ri {
            Err(e) => (Err(e), p2),
            Ok(its) => {
                let (rc, p3) = expect(ts, p2, KindView::Colon, "with :"@);
                match rc {
                    Err(e) => (Err(e), p3),
                    Ok(_) => if moved(ts, p, p3) {
                        let (rb, p4) = suite(ts, fl, n, p3);
                        match rb {
                            Err(e) => (Err(e), p4),
                            Ok(body) => (Ok(StmtV::With { items: its, body }), p4),
                        }
                    } else {
                        (Err(Seq::empty()), p3)
                    },
                }
            },
        }
    }
}

/// Imported names, each optionally renamed with `as`; dotted where
/// `dotted`.
pub open spec fn import_names(ts: Toks, p: int, dotted: bool, acc: Seq<(Seq<char>, Option<Seq<char>>)>) -> (
    Result<Seq<(Seq<char>, Option<Seq<char>>)>, Seq<char>>,
    int,
)
    decreases ts.len() - p,
{
    let (rn, p1) = if dotted {
        dotted_name(ts, p)
    } else {
        name(ts, p)
    };
    match rn {
        Err(e) => (Err(e), p1),
        Ok(nm) => {
            let (ra, p2) = if tok_ok(ts, p1) && kind(ts, p1) is KwAs {
                let (x, q) = name(ts, adv(ts, p1));
                (
                    match x {
                        Err(e) => Err(e),
                        Ok(a) => Ok(Some(a)),
                    },
                    q,
                )
            } else {
                (Ok(None::<Seq<char>>), p1)
            };
            match ra {
                Err(e) => (Err(e), p2),
                Ok(asn) => if tok_ok(ts, p2) && kind(ts, p2) is Comma && moved(ts, p, adv(ts, p2)) {
                    import_names(ts, adv(ts, p2), dotted, acc.push((nm, asn)))
                } else {
                    (Ok(acc.push((nm, asn))), p2)
                },
            }
        },
    }
}

/// `import a.b as c, ...`.
pub open spec fn import_stmt(ts: Toks, p: int) -> (Result<StmtV, Seq<char>>, int) {
    let (r, p2) = import_names(ts, adv(ts, p), true, Seq::empty());
    match r {
        Err(e) => (Err(e), p2),
        Ok(names) => (Ok(StmtV::Import { names }), p2),
    }
}

/// The leading dots of a relative import: how many, and the position
/// after them.
pub open spec fn count_dots(ts: Toks, p: int, k: nat) -> (nat, int)
    decreases ts.len() - p,
{
    if tok_ok(ts, p) && kind(ts, p) is Dot && p + 1 < ts.len() {
        count_dots(ts, p + 1, k + 1)
    } else {
        (k, p)
    }
}

/// `from .module import names` or `from module import *`.
pub open spec fn import_from(ts: Toks, p: int) -> (Result<StmtV, Seq<char>>, int) {
    let (level, p2) = count_dots(ts, adv(ts, p), 0);
    let (rm, p3) = if kind(ts, p2) is Name {
        let (x, q) = dotted_name(ts, p2);
        (
            match x {
                Err(e) => Err(e),
                Ok(m) => Ok(Some(m)),
            },
            q,
        )
    } else {
        (Ok(None::<Seq<char>>), p2)
    };
    match rm {
        Err(e) => (Err(e), p3),
        Ok(module) => {
            let (ri, p4) = expect(ts, p3, KindView::KwImport, "from import"@);
            match ri {
                Err(e) => (Err(e), p4),
                Ok(_) => if kind(ts, p4) is Star {
                    (Ok(StmtV::ImportFrom { module, names: seq![("*"@, None)], level }), adv(ts, p4))
                } else {
                    let (rn, p5) = import_names(ts, p4, false, Seq::empty());
                    match rn {
                        Err(e) => (Err(e), p5),
                        Ok(names) => (Ok(StmtV::ImportFrom { module, names, level }), p5),
                    }
                },
            }
        },
    }
}

/// Further assignment targets after commas (a trailing comma before `=`
/// ends them), `*rest` among them.
pub open spec fn targets(ts: Toks, fl: Floats, n: int, p: int, acc: Seq<ExprV>) -> (
    Result<Seq<ExprV>, Seq<char>>,
    int,
)
    decreases n, ts.len() - p, 48int,
{
    if !tok_ok(ts, p) || !(kind(ts, p) is Comma) {
        (Ok(acc), p)
    } else {
        let p2 = skip_nl(ts, adv(ts, p));
        if !moved(ts, p, p2) {
            (Err(Seq::empty()), p2)
        } else if kind(ts, p2) is Eq {
            (Ok(acc), p2)
        } else {
            let star = kind(ts, p2) is Star;
            let (r, p3) = expr(ts, fl, n, if star {
                adv(ts, p2)
            } else {
                p2
            }, 0);
            match r {
                Err(e) => (Err(e), p3),
                Ok(x) => {
                    let t = if star {
                        ExprV::Starred(Box::new(x))
                    } else {
                        x
                    };
                    if moved(ts, p, p3) {
                        targets(ts, fl, n, p3, acc.push(t))
                    } else {
                        (Ok(acc.push(t)), p3)
                    }
                },
            }
        }
    }
}

/// Past a type annotation: expressions, each followed by a bracketed
/// expression; what they are and whether they parse does not matter.
pub open spec fn annotation(ts: Toks, fl: Floats, n: int, p: int) -> int
    decreases n, ts.len() - p, 48int,
{
    if !tok_ok(ts, p) {
        p
    } else {
        let (_, q) = expr(ts, fl, n, p, 0);
        if tok_ok(ts, q) && kind(ts, q) is LBracket && stayed(ts, p, q) {
            let (_, q2) = expr(ts, fl, n, adv(ts, q), 0);
            let q3 = adv(ts, q2);
            if moved(ts, p, q3) {
                annotation(ts, fl, n, q3)
            } else {
                q3
            }
        } else {
            q
        }
    }
}

/// An expression statement or an assignment: targets, an optional
/// annotation (on one target), then `=` or an augmented operator and the
/// value.
#[verifier::opaque]
pub open spec fn assign_or_expr(ts: Toks, fl: Floats, n: int, p: int) -> (Result<StmtV, Seq<char>>, int)
    decreases n, ts.len() - p, 50int,
{
    if !tok_ok(ts, p) {
        (Err(Seq::empty()), p)
    } else {
        let (r, p1) = expr(ts, fl, n, p, 0);
        match r {
            Err(e) => (Err(e), p1),
            Ok(first) => {
                let p2 = skip_nl(ts, p1);
                if !stayed(ts, p, p2) {
                    (Err(Seq::empty()), p2)
                } else {
                    let (rt, p3) = targets(ts, fl, n, p2, seq![first]);
                    match rt {
                        Err(e) => (Err(e), p3),
                        Ok(tgts) => if !stayed(ts, p, p3) {
                            (Err(Seq::empty()), p3)
                        } else {
                            let p5 = if tgts.len() == 1 && kind(ts, p3) is Colon && moved(ts, p, adv(ts, p3)) {
                                annotation(ts, fl, n, adv(ts, p3))
                            } else {
                                p3
                            };
                            if !stayed(ts, p, p5) {
                                (Err(Seq::empty()), p5)
                            } else {
                                let aug = aug_assign(kind(ts, p5));
                                if aug is Some || kind(ts, p5) is Eq {
                                    let (rv, p7) = expr(ts, fl, n, adv(ts, p5), 0);
                                    match rv {
                                        Err(e) => (Err(e), p7),
                                        Ok(value) => (Ok(StmtV::Assign { targets: tgts, value, aug }), p7),
                                    }
                                } else if tgts.len() == 1 {
                                    (Ok(StmtV::Expr(tgts[0])), p5)
                                } else {
                                    (Ok(StmtV::Expr(ExprV::Tuple(tgts))), p5)
                                }
                            }
                        },
                    }
                }
            },
        }
    }
}

/// A module: statements up to the end of file, blank lines between them.
pub open spec fn program(ts: Toks, fl: Floats, n: int, p: int, acc: Seq<StmtV>) -> (
    Result<Seq<StmtV>, Seq<char>>,
    int,
)
    decreases ts.len() - p,
{
    if !tok_ok(ts, p) || kind(ts, p) is EndOfFile {
        (Ok(acc), p)
    } else {
        let p1 = skip_nl(ts, p);
        if kind(ts, p1) is EndOfFile {
            (Ok(acc), p1)
        } else {
            let (r, p2) = stmt(ts, fl, n, p1);
            match r {
                Err(e) => (Err(e), p2),
                Ok(st) => if moved(ts, p, p2) {
                    program(ts, fl, n, p2, acc.push(st))
                } else {
                    (Ok(acc.push(st)), p2)
                },
            }
        }
    }
}

} // verus!
