//! The Python tokenizer: layout (indentation, newlines), names and
//! keywords, numbers, strings and operators.
//!
//! Its effect is stated as `next_spec` over the model `TokView` of the
//! tokenizer's position and layout state. Line and column counters
//! saturate at `usize::MAX`; number literals keep their text, and integer
//! ones their value as well.
use vstd::prelude::*;

use crate::text::{char_string, decimal, hex_min};

verus! {

/// The kind of a token.
#[derive(Clone, Debug, PartialEq)]
pub enum TokenKind {
    KwDef,
    KwIf,
    KwElif,
    KwElse,
    KwWhile,
    KwFor,
    KwIn,
    KwReturn,
    KwBreak,
    KwContinue,
    KwPass,
    KwImport,
    KwFrom,
    KwAs,
    KwClass,
    KwTry,
    KwExcept,
    KwFinally,
    KwRaise,
    KwWith,
    KwYield,
    KwLambda,
    KwAnd,
    KwOr,
    KwNot,
    KwIs,
    KwNone,
    KwTrue,
    KwFalse,
    KwGlobal,
    KwNonlocal,
    KwDel,
    KwAssert,
    KwAsync,
    KwAwait,
    KwMatch,
    KwCase,
    Plus,
    Minus,
    Star,
    Slash,
    Percent,
    DoubleStar,
    Eq,
    PlusEq,
    MinusEq,
    StarEq,
    SlashEq,
    PercentEq,
    DoubleStarEq,
    EqEq,
    NotEq,
    Lt,
    Gt,
    LtE,
    GtE,
    And,
    Or,
    Not,
    BitAnd,
    BitOr,
    BitXor,
    BitNot,
    LShift,
    RShift,
    Walrus,
    Arrow,
    Ellipsis,
    At,
    Is,
    IsNot,
    InKw,
    NotIn,
    Pipe,
    FloorDiv,
    LParen,
    RParen,
    LBracket,
    RBracket,
    LBrace,
    RBrace,
    Comma,
    Colon,
    Semicolon,
    Dot,
    Newline,
    Indent,
    Dedent,
    EndOfFile,
    Name(String),
    Int,
    Float,
    String(String),
    FStringStart,
    FStringMiddle(String),
    FStringExpr,
    FStringEnd(String),
    Comment,
    TypeComment,
}

/// The kind of a token, with the characters of its payload.
pub enum KindView {
    KwDef,
    KwIf,
    KwElif,
    KwElse,
    KwWhile,
    KwFor,
    KwIn,
    KwReturn,
    KwBreak,
    KwContinue,
    KwPass,
    KwImport,
    KwFrom,
    KwAs,
    KwClass,
    KwTry,
    KwExcept,
    KwFinally,
    KwRaise,
    KwWith,
    KwYield,
    KwLambda,
    KwAnd,
    KwOr,
    KwNot,
    KwIs,
    KwNone,
    KwTrue,
    KwFalse,
    KwGlobal,
    KwNonlocal,
    KwDel,
    KwAssert,
    KwAsync,
    KwAwait,
    KwMatch,
    KwCase,
    Plus,
    Minus,
    Star,
    Slash,
    Percent,
    DoubleStar,
    Eq,
    PlusEq,
    MinusEq,
    StarEq,
    SlashEq,
    PercentEq,
    DoubleStarEq,
    EqEq,
    NotEq,
    Lt,
    Gt,
    LtE,
    GtE,
    And,
    Or,
    Not,
    BitAnd,
    BitOr,
    BitXor,
    BitNot,
    LShift,
    RShift,
    Walrus,
    Arrow,
    Ellipsis,
    At,
    Is,
    IsNot,
    InKw,
    NotIn,
    Pipe,
    FloorDiv,
    LParen,
    RParen,
    LBracket,
    RBracket,
    LBrace,
    RBrace,
    Comma,
    Colon,
    Semicolon,
    Dot,
    Newline,
    Indent,
    Dedent,
    EndOfFile,
    Name(Seq<char>),
    Int,
    Float,
    String(Seq<char>),
    FStringStart,
    FStringMiddle(Seq<char>),
    FStringExpr,
    FStringEnd(Seq<char>),
    Comment,
    TypeComment,
}

/// The view of a token kind.
pub open spec fn kind_view(k: TokenKind) -> KindView {
    match k {
        TokenKind::KwDef => KindView::KwDef,
        TokenKind::KwIf => KindView::KwIf,
        TokenKind::KwElif => KindView::KwElif,
        TokenKind::KwElse => KindView::KwElse,
        TokenKind::KwWhile => KindView::KwWhile,
        TokenKind::KwFor => KindView::KwFor,
        TokenKind::KwIn => KindView::KwIn,
        TokenKind::KwReturn => KindView::KwReturn,
        TokenKind::KwBreak => KindView::KwBreak,
        TokenKind::KwContinue => KindView::KwContinue,
        TokenKind::KwPass => KindView::KwPass,
        TokenKind::KwImport => KindView::KwImport,
        TokenKind::KwFrom => KindView::KwFrom,
        TokenKind::KwAs => KindView::KwAs,
        TokenKind::KwClass => KindView::KwClass,
        TokenKind::KwTry => KindView::KwTry,
        TokenKind::KwExcept => KindView::KwExcept,
        TokenKind::KwFinally => KindView::KwFinally,
        TokenKind::KwRaise => KindView::KwRaise,
        TokenKind::KwWith => KindView::KwWith,
        TokenKind::KwYield => KindView::KwYield,
        TokenKind::KwLambda => KindView::KwLambda,
        TokenKind::KwAnd => KindView::KwAnd,
        TokenKind::KwOr => KindView::KwOr,
        TokenKind::KwNot => KindView::KwNot,
        TokenKind::KwIs => KindView::KwIs,
        TokenKind::KwNone => KindView::KwNone,
        TokenKind::KwTrue => KindView::KwTrue,
        TokenKind::KwFalse => KindView::KwFalse,
        TokenKind::KwGlobal => KindView::KwGlobal,
        TokenKind::KwNonlocal => KindView::KwNonlocal,
        TokenKind::KwDel => KindView::KwDel,
        TokenKind::KwAssert => KindView::KwAssert,
        TokenKind::KwAsync => KindView::KwAsync,
        TokenKind::KwAwait => KindView::KwAwait,
        TokenKind::KwMatch => KindView::KwMatch,
        TokenKind::KwCase => KindView::KwCase,
        TokenKind::Plus => KindView::Plus,
        TokenKind::Minus => KindView::Minus,
        TokenKind::Star => KindView::Star,
        TokenKind::Slash => KindView::Slash,
        TokenKind::Percent => KindView::Percent,
        TokenKind::DoubleStar => KindView::DoubleStar,
        TokenKind::Eq => KindView::Eq,
        TokenKind::PlusEq => KindView::PlusEq,
        TokenKind::MinusEq => KindView::MinusEq,
        TokenKind::StarEq => KindView::StarEq,
        TokenKind::SlashEq => KindView::SlashEq,
        TokenKind::PercentEq => KindView::PercentEq,
        TokenKind::DoubleStarEq => KindView::DoubleStarEq,
        TokenKind::EqEq => KindView::EqEq,
        TokenKind::NotEq => KindView::NotEq,
        TokenKind::Lt => KindView::Lt,
        TokenKind::Gt => KindView::Gt,
        TokenKind::LtE => KindView::LtE,
        TokenKind::GtE => KindView::GtE,
        TokenKind::And => KindView::And,
        TokenKind::Or => KindView::Or,
        TokenKind::Not => KindView::Not,
        TokenKind::BitAnd => KindView::BitAnd,
        TokenKind::BitOr => KindView::BitOr,
        TokenKind::BitXor => KindView::BitXor,
        TokenKind::BitNot => KindView::BitNot,
        TokenKind::LShift => KindView::LShift,
        TokenKind::RShift => KindView::RShift,
        TokenKind::Walrus => KindView::Walrus,
        TokenKind::Arrow => KindView::Arrow,
        TokenKind::Ellipsis => KindView::Ellipsis,
        TokenKind::At => KindView::At,
        TokenKind::Is => KindView::Is,
        TokenKind::IsNot => KindView::IsNot,
        TokenKind::InKw => KindView::InKw,
        TokenKind::NotIn => KindView::NotIn,
        TokenKind::Pipe => KindView::Pipe,
        TokenKind::FloorDiv => KindView::FloorDiv,
        TokenKind::LParen => KindView::LParen,
        TokenKind::RParen => KindView::RParen,
        TokenKind::LBracket => KindView::LBracket,
        TokenKind::RBracket => KindView::RBracket,
        TokenKind::LBrace => KindView::LBrace,
        TokenKind::RBrace => KindView::RBrace,
        TokenKind::Comma => KindView::Comma,
        TokenKind::Colon => KindView::Colon,
        TokenKind::Semicolon => KindView::Semicolon,
        TokenKind::Dot => KindView::Dot,
        TokenKind::Newline => KindView::Newline,
        TokenKind::Indent => KindView::Indent,
        TokenKind::Dedent => KindView::Dedent,
        TokenKind::EndOfFile => KindView::EndOfFile,
        TokenKind::Name(s) => KindView::Name(s@),
        TokenKind::Int => KindView::Int,
        TokenKind::Float => KindView::Float,
        TokenKind::String(s) => KindView::String(s@),
        TokenKind::FStringStart => KindView::FStringStart,
        TokenKind::FStringMiddle(s) => KindView::FStringMiddle(s@),
        TokenKind::FStringExpr => KindView::FStringExpr,
        TokenKind::FStringEnd(s) => KindView::FStringEnd(s@),
        TokenKind::Comment => KindView::Comment,
        TokenKind::TypeComment => KindView::TypeComment,
    }
}

/// The keyword a word spells, if any.
pub open spec fn keyword_kind(s: Seq<char>) -> Option<KindView> {
    if s == "def"@ {
        Some(KindView::KwDef)
    } else if s == "if"@ {
        Some(KindView::KwIf)
    } else if s == "elif"@ {
        Some(KindView::KwElif)
    } else if s == "else"@ {
        Some(KindView::KwElse)
    } else if s == "while"@ {
        Some(KindView::KwWhile)
    } else if s == "for"@ {
        Some(KindView::KwFor)
    } else if s == "in"@ {
        Some(KindView::KwIn)
    } else if s == "return"@ {
        Some(KindView::KwReturn)
    } else if s == "break"@ {
        Some(KindView::KwBreak)
    } else if s == "continue"@ {
        Some(KindView::KwContinue)
    } else if s == "pass"@ {
        Some(KindView::KwPass)
    } else if s == "import"@ {
        Some(KindView::KwImport)
    } else if s == "from"@ {
        Some(KindView::KwFrom)
    } else if s == "as"@ {
        Some(KindView::KwAs)
    } else if s == "class"@ {
        Some(KindView::KwClass)
    } else if s == "try"@ {
        Some(KindView::KwTry)
    } else if s == "except"@ {
        Some(KindView::KwExcept)
    } else if s == "finally"@ {
        Some(KindView::KwFinally)
    } else if s == "raise"@ {
        Some(KindView::KwRaise)
    } else if s == "with"@ {
        Some(KindView::KwWith)
    } else if s == "yield"@ {
        Some(KindView::KwYield)
    } else if s == "lambda"@ {
        Some(KindView::KwLambda)
    } else if s == "and"@ {
        Some(KindView::KwAnd)
    } else if s == "or"@ {
        Some(KindView::KwOr)
    } else if s == "not"@ {
        Some(KindView::KwNot)
    } else if s == "is"@ {
        Some(KindView::KwIs)
    } else if s == "None"@ {
        Some(KindView::KwNone)
    } else if s == "True"@ {
        Some(KindView::KwTrue)
    } else if s == "False"@ {
        Some(KindView::KwFalse)
    } else if s == "global"@ {
        Some(KindView::KwGlobal)
    } else if s == "nonlocal"@ {
        Some(KindView::KwNonlocal)
    } else if s == "del"@ {
        Some(KindView::KwDel)
    } else if s == "assert"@ {
        Some(KindView::KwAssert)
    } else if s == "async"@ {
        Some(KindView::KwAsync)
    } else if s == "await"@ {
        Some(KindView::KwAwait)
    } else if s == "match"@ {
        Some(KindView::KwMatch)
    } else if s == "case"@ {
        Some(KindView::KwCase)
    } else {
        None
    }
}

/// The keyword a word spells, if any.
pub fn keyword(s: &str) -> (r: Option<TokenKind>)
    ensures
        r is Some <==> keyword_kind(s@) is Some,
        r matches Some(k) ==> keyword_kind(s@) == Some(kind_view(k)),
{
    proof {
        reveal_strlit("def");
        reveal_strlit("if");
        reveal_strlit("elif");
        reveal_strlit("else");
        reveal_strlit("while");
        reveal_strlit("for");
        reveal_strlit("in");
        reveal_strlit("return");
        reveal_strlit("break");
        reveal_strlit("continue");
        reveal_strlit("pass");
        reveal_strlit("import");
        reveal_strlit("from");
        reveal_strlit("as");
        reveal_strlit("class");
        reveal_strlit("try");
        reveal_strlit("except");
        reveal_strlit("finally");
        reveal_strlit("raise");
        reveal_strlit("with");
        reveal_strlit("yield");
        reveal_strlit("lambda");
        reveal_strlit("and");
        reveal_strlit("or");
        reveal_strlit("not");
        reveal_strlit("is");
        reveal_strlit("None");
        reveal_strlit("True");
        reveal_strlit("False");
        reveal_strlit("global");
        reveal_strlit("nonlocal");
        reveal_strlit("del");
        reveal_strlit("assert");
        reveal_strlit("async");
        reveal_strlit("await");
        reveal_strlit("match");
        reveal_strlit("case");
    }
    let o = s.to_owned();
    if o == "def".to_owned() {
        Some(TokenKind::KwDef)
    } else if o == "if".to_owned() {
        Some(TokenKind::KwIf)
    } else if o == "elif".to_owned() {
        Some(TokenKind::KwElif)
    } else if o == "else".to_owned() {
        Some(TokenKind::KwElse)
    } else if o == "while".to_owned() {
        Some(TokenKind::KwWhile)
    } else if o == "for".to_owned() {
        Some(TokenKind::KwFor)
    } else if o == "in".to_owned() {
        Some(TokenKind::KwIn)
    } else if o == "return".to_owned() {
        Some(TokenKind::KwReturn)
    } else if o == "break".to_owned() {
        Some(TokenKind::KwBreak)
    } else if o == "continue".to_owned() {
        Some(TokenKind::KwContinue)
    } else if o == "pass".to_owned() {
        Some(TokenKind::KwPass)
    } else if o == "import".to_owned() {
        Some(TokenKind::KwImport)
    } else if o == "from".to_owned() {
        Some(TokenKind::KwFrom)
    } else if o == "as".to_owned() {
        Some(TokenKind::KwAs)
    } else if o == "class".to_owned() {
        Some(TokenKind::KwClass)
    } else if o == "try".to_owned() {
        Some(TokenKind::KwTry)
    } else if o == "except".to_owned() {
        Some(TokenKind::KwExcept)
    } else if o == "finally".to_owned() {
        Some(TokenKind::KwFinally)
    } else if o == "raise".to_owned() {
        Some(TokenKind::KwRaise)
    } else if o == "with".to_owned() {
        Some(TokenKind::KwWith)
    } else if o == "yield".to_owned() {
        Some(TokenKind::KwYield)
    } else if o == "lambda".to_owned() {
        Some(TokenKind::KwLambda)
    } else if o == "and".to_owned() {
        Some(TokenKind::KwAnd)
    } else if o == "or".to_owned() {
        Some(TokenKind::KwOr)
    } else if o == "not".to_owned() {
        Some(TokenKind::KwNot)
    } else if o == "is".to_owned() {
        Some(TokenKind::KwIs)
    } else if o == "None".to_owned() {
        Some(TokenKind::KwNone)
    } else if o == "True".to_owned() {
        Some(TokenKind::KwTrue)
    } else if o == "False".to_owned() {
        Some(TokenKind::KwFalse)
    } else if o == "global".to_owned() {
        Some(TokenKind::KwGlobal)
    } else if o == "nonlocal".to_owned() {
        Some(TokenKind::KwNonlocal)
    } else if o == "del".to_owned() {
        Some(TokenKind::KwDel)
    } else if o == "assert".to_owned() {
        Some(TokenKind::KwAssert)
    } else if o == "async".to_owned() {
        Some(TokenKind::KwAsync)
    } else if o == "await".to_owned() {
        Some(TokenKind::KwAwait)
    } else if o == "match".to_owned() {
        Some(TokenKind::KwMatch)
    } else if o == "case".to_owned() {
        Some(TokenKind::KwCase)
    } else {
        None
    }
}

// ── Characters ──

/// Whether `c` is alphanumeric (Unicode `Alphabetic` or `Numeric`), as
/// `char::is_alphanumeric` decides.
pub uninterp spec fn char_alphanumeric(c: char) -> bool;

/// Whether `c` is alphabetic (Unicode `Alphabetic`), as
/// `char::is_alphabetic` decides.
pub uninterp spec fn char_alphabetic(c: char) -> bool;

/// An ASCII letter.
pub open spec fn ascii_letter(c: char) -> bool {
    ('a' <= c && c <= 'z') || ('A' <= c && c <= 'Z')
}

/// Whether `c` is alphanumeric: on ASCII an ASCII letter or digit, beyond
/// it as `char::is_alphanumeric` decides.
pub open spec fn is_alnum(c: char) -> bool {
    if c <= '\x7f' {
        ascii_letter(c) || is_digit(c)
    } else {
        char_alphanumeric(c)
    }
}

/// Whether `c` is alphabetic: on ASCII an ASCII letter, beyond it as
/// `char::is_alphabetic` decides.
pub open spec fn is_alpha(c: char) -> bool {
    if c <= '\x7f' {
        ascii_letter(c)
    } else {
        char_alphabetic(c)
    }
}

/// `char::is_alphanumeric`: the contract names the Unicode property it
/// tests and says nothing of its tables beyond ASCII, where the property
/// holds of the letters and digits and of nothing else.
#[verifier::external_body]
fn is_alphanumeric(c: char) -> (r: bool)
    ensures
        r == char_alphanumeric(c),
        c <= '\x7f' ==> (r == (ascii_letter(c) || is_digit(c))),
{
    c.is_alphanumeric()
}

/// `char::is_alphabetic`: the contract names the Unicode property it tests
/// and says nothing of its tables beyond what std documents: an
/// alphabetic character is alphanumeric, and on ASCII the alphabetic
/// characters are the letters.
#[verifier::external_body]
fn is_alphabetic(c: char) -> (r: bool)
    ensures
        r == char_alphabetic(c),
        r ==> char_alphanumeric(c),
        c <= '\x7f' ==> (r == ascii_letter(c)),
{
    c.is_alphabetic()
}

pub open spec fn is_digit(c: char) -> bool {
    '0' <= c && c <= '9'
}

pub open spec fn is_hex_digit(c: char) -> bool {
    is_digit(c) || ('a' <= c && c <= 'f') || ('A' <= c && c <= 'F')
}

/// The value of a hexadecimal digit.
pub open spec fn hex_value(c: char) -> nat {
    if is_digit(c) {
        (c as int - '0' as int) as nat
    } else if 'a' <= c && c <= 'f' {
        (c as int - 'a' as int + 10) as nat
    } else {
        (c as int - 'A' as int + 10) as nat
    }
}

/// Characters that continue a name.
pub open spec fn is_ident_char(c: char) -> bool {
    is_alnum(c) || c == '_'
}

/// Whether `c` continues a decimal literal after `prev`: a digit, `_`,
/// `.`, an exponent marker, or a sign right after an exponent marker.
pub open spec fn dec_continues(prev: char, c: char) -> bool {
    is_digit(c) || c == '_' || c == '.' || c == 'e' || c == 'E' || ((c == '+' || c == '-') && (prev
        == 'e' || prev == 'E'))
}

/// String prefix letters.
pub open spec fn is_prefix_char(c: char) -> bool {
    c == 'f' || c == 'F' || c == 'r' || c == 'R' || c == 'b' || c == 'B'
}

/// The number of bytes of `c` in UTF-8.
pub open spec fn utf8_len(c: char) -> nat {
    if '\u{80}' > c {
        1
    } else if '\u{800}' > c {
        2
    } else if '\u{10000}' > c {
        3
    } else {
        4
    }
}

/// The number of bytes of `s` in UTF-8.
pub open spec fn utf8_len_seq(s: Seq<char>) -> nat
    decreases s.len(),
{
    if s.len() == 0 {
        0
    } else {
        utf8_len_seq(s.drop_last()) + utf8_len(s.last())
    }
}

/// `x + 1`, saturating at `usize::MAX`.
pub open spec fn sat_inc(x: int) -> int {
    if x < usize::MAX {
        x + 1
    } else {
        x
    }
}

/// `x + k`, saturating at `usize::MAX`.
pub open spec fn sat_add(x: int, k: int) -> int {
    if x + k <= usize::MAX {
        x + k
    } else {
        usize::MAX as int
    }
}

/// `x - k`, saturating at 0.
pub open spec fn sat_sub(x: int, k: int) -> int {
    if x >= k {
        x - k
    } else {
        0
    }
}

// ── The model ──

/// The position of a tokenizer in its source and its layout state.
#[verifier::ext_equal]
pub struct TokView {
    pub pos: int,
    pub line: int,
    pub col: int,
    pub stack: Seq<usize>,
    pub at_line_start: bool,
    pub paren_depth: int,
}

/// A token: its kind, text, position, integer value and string-pool id
/// (which the tokenizer never sets).
#[verifier::ext_equal]
pub struct TokenView {
    pub kind: KindView,
    pub lexeme: Seq<char>,
    pub line: int,
    pub col: int,
    pub int_value: Option<i64>,
    pub string_id: Option<u32>,
}

/// `v` one character further on: a newline starts the next line.
pub open spec fn step(v: TokView, c: char) -> TokView {
    if c == '\n' {
        TokView { pos: v.pos + 1, line: sat_inc(v.line), col: 0, ..v }
    } else {
        TokView { pos: v.pos + 1, col: sat_inc(v.col), ..v }
    }
}

/// `v` past the next character, if there is one.
pub open spec fn adv(src: Seq<char>, v: TokView) -> TokView {
    if 0 <= v.pos < src.len() {
        step(v, src[v.pos])
    } else {
        v
    }
}

/// `v` advanced to position `e`.
pub open spec fn adv_to(src: Seq<char>, v: TokView, e: int) -> TokView
    decreases e - v.pos,
{
    if v.pos >= e || v.pos < 0 || v.pos >= src.len() {
        v
    } else {
        adv_to(src, step(v, src[v.pos]), e)
    }
}

/// Whether the character at `v` is `c`.
pub open spec fn peek_is(src: Seq<char>, v: TokView, c: char) -> bool {
    0 <= v.pos < src.len() && src[v.pos] == c
}

/// A token made at `v`: its column is the current one less the lexeme's
/// UTF-8 length.
pub open spec fn mk(v: TokView, kind: KindView, lexeme: Seq<char>) -> TokenView {
    TokenView {
        kind,
        lexeme,
        line: v.line,
        col: sat_sub(v.col, utf8_len_seq(lexeme) as int),
        int_value: None,
        string_id: None,
    }
}

/// The end of the run of name characters from `p`.
pub open spec fn ident_end(src: Seq<char>, p: int) -> int
    decreases src.len() - p,
{
    if 0 <= p < src.len() && (is_ident_char(src[p])) {
        ident_end(src, p + 1)
    } else {
        p
    }
}

/// The end of the rest of a decimal literal from `p`, `prev` being the
/// character before `p`.
pub open spec fn dec_end(src: Seq<char>, p: int, prev: char) -> int
    decreases src.len() - p,
{
    if 0 <= p < src.len() && dec_continues(prev, src[p]) {
        dec_end(src, p + 1, src[p])
    } else {
        p
    }
}

/// The end of the run of hexadecimal digits and underscores from `p`.
pub open spec fn hex_end(src: Seq<char>, p: int) -> int
    decreases src.len() - p,
{
    if 0 <= p < src.len() && (is_hex_digit(src[p]) || src[p] == '_') {
        hex_end(src, p + 1)
    } else {
        p
    }
}

/// Whether a number literal whose first digit `first` stands just before
/// `p` is hexadecimal: `0x` or `0X`.
pub open spec fn is_hex_literal(src: Seq<char>, p: int, first: char) -> bool {
    first == '0' && 0 <= p < src.len() && (src[p] == 'x' || src[p] == 'X')
}

/// The end of a number literal whose first digit `first` stands just
/// before `p`: after `0x`, hexadecimal digits; else decimal digits, a
/// point, an exponent and its sign.
pub open spec fn number_end(src: Seq<char>, p: int, first: char) -> int {
    if is_hex_literal(src, p, first) {
        hex_end(src, p + 1)
    } else {
        dec_end(src, p, first)
    }
}

/// The end of the run of string prefix letters from `p`.
pub open spec fn prefix_end(src: Seq<char>, p: int) -> int
    decreases src.len() - p,
{
    if 0 <= p < src.len() && (is_prefix_char(src[p])) {
        prefix_end(src, p + 1)
    } else {
        p
    }
}

/// The end of the run of spaces and tabs from `p`.
pub open spec fn blank_end(src: Seq<char>, p: int) -> int
    decreases src.len() - p,
{
    if 0 <= p < src.len() && (src[p] == ' ' || src[p] == '\t') {
        blank_end(src, p + 1)
    } else {
        p
    }
}

/// The end of the run of characters other than a newline from `p`.
pub open spec fn line_end(src: Seq<char>, p: int) -> int
    decreases src.len() - p,
{
    if 0 <= p < src.len() && (src[p] != '\n') {
        line_end(src, p + 1)
    } else {
        p
    }
}

// ── Names and numbers ──

/// A name or keyword starting at `v`.
pub open spec fn ident_spec(src: Seq<char>, v: TokView) -> (TokView, TokenView) {
    let e = ident_end(src, v.pos);
    let s = src.subrange(v.pos, e);
    let v2 = adv_to(src, v, e);
    let kind = match keyword_kind(s) {
        Some(k) => k,
        None => KindView::Name(s),
    };
    (v2, TokenView { kind, lexeme: s, line: v2.line, col: v.col, int_value: None, string_id: None })
}

/// `s` without underscores.
pub open spec fn strip_underscores(s: Seq<char>) -> Seq<char>
    decreases s.len(),
{
    if s.len() == 0 {
        s
    } else if s.last() == '_' {
        strip_underscores(s.drop_last())
    } else {
        strip_underscores(s.drop_last()).push(s.last())
    }
}

/// The value of a run of decimal digits.
pub open spec fn dec_value(ds: Seq<char>) -> nat
    decreases ds.len(),
{
    if ds.len() == 0 {
        0
    } else {
        dec_value(ds.drop_last()) * 10 + hex_value(ds.last())
    }
}

/// Whether every character of `s` is a decimal digit.
pub open spec fn all_digits(s: Seq<char>) -> bool {
    forall|i: int| 0 <= i < s.len() ==> is_digit(#[trigger] s[i])
}

/// `s` as `i64::from_str` reads it: an optional sign, then one or more
/// decimal digits, within range.
pub open spec fn parse_i64(s: Seq<char>) -> Option<i64> {
    if s.len() == 0 {
        None
    } else {
        let neg = s[0] == '-';
        let ds = if s[0] == '-' || s[0] == '+' {
            s.drop_first()
        } else {
            s
        };
        if ds.len() == 0 || !all_digits(ds) {
            None
        } else {
            let v = if neg {
                -(dec_value(ds) as int)
            } else {
                dec_value(ds) as int
            };
            if i64::MIN <= v <= i64::MAX {
                Some(v as i64)
            } else {
                None
            }
        }
    }
}

/// The value of a run of hexadecimal digits.
pub open spec fn hex_num(ds: Seq<char>) -> nat
    decreases ds.len(),
{
    if ds.len() == 0 {
        0
    } else {
        hex_num(ds.drop_last()) * 16 + hex_value(ds.last())
    }
}

/// Whether every character of `s` is a hexadecimal digit.
pub open spec fn all_hex(s: Seq<char>) -> bool {
    forall|i: int| 0 <= i < s.len() ==> is_hex_digit(#[trigger] s[i])
}

/// `s` as `i64::from_str_radix(s, 16)` reads hexadecimal digits: their
/// value, where there is at least one and it is within range.
pub open spec fn parse_hex_i64(s: Seq<char>) -> Option<i64> {
    if s.len() == 0 || !all_hex(s) || hex_num(s) > i64::MAX {
        None
    } else {
        Some(hex_num(s) as i64)
    }
}

/// A number literal whose first digit `v` has just passed. After `0x` it
/// is an integer whose hexadecimal digits (without underscores) give its
/// value; else it is a float if its text holds `.`, `e` or `E`, and an
/// integer with the value `i64` reads from it without underscores
/// otherwise. An integer whose value cannot be read is 0.
pub open spec fn number_spec(src: Seq<char>, v: TokView, first: char) -> (TokView, TokenView) {
    let hex = is_hex_literal(src, v.pos, first);
    let e = number_end(src, v.pos, first);
    let text = seq![first] + src.subrange(v.pos, e);
    let v2 = adv_to(src, v, e);
    let is_float = !hex && (text.contains('.') || text.contains('e') || text.contains('E'));
    let read = if hex {
        parse_hex_i64(strip_underscores(text.subrange(2, text.len() as int)))
    } else {
        parse_i64(strip_underscores(text))
    };
    (
        v2,
        TokenView {
            kind: if is_float {
                KindView::Float
            } else {
                KindView::Int
            },
            lexeme: text,
            line: v2.line,
            col: v.col - 1,
            int_value: if is_float {
                None
            } else {
                Some(
                    match read {
                        Some(x) => x,
                        None => 0,
                    },
                )
            },
            string_id: None,
        },
    )
}

// ── Strings ──

/// The character an escape stands for, the escape letter having been read
/// into `c` (`None` at the end of the source), and the state after any
/// hexadecimal digits of `\x`.
pub open spec fn escape_spec(src: Seq<char>, v: TokView) -> (TokView, char) {
    if !(0 <= v.pos < src.len()) {
        (v, '\0')
    } else {
        let c = src[v.pos];
        let v1 = step(v, c);
        if c == 'n' {
            (v1, '\n')
        } else if c == 't' {
            (v1, '\t')
        } else if c == 'r' {
            (v1, '\r')
        } else if c == '\\' {
            (v1, '\\')
        } else if c == '\'' {
            (v1, '\'')
        } else if c == '"' {
            (v1, '"')
        } else if c == '0' {
            (v1, '\0')
        } else if c == 'x' {
            if 0 <= v1.pos < src.len() && is_hex_digit(src[v1.pos]) {
                let v2 = step(v1, src[v1.pos]);
                if 0 <= v2.pos < src.len() && is_hex_digit(src[v2.pos]) {
                    (
                        step(v2, src[v2.pos]),
                        ((hex_value(src[v1.pos]) * 16 + hex_value(src[v2.pos])) as u8) as char,
                    )
                } else {
                    (v2, (hex_value(src[v1.pos]) as u8) as char)
                }
            } else {
                (v1, '\0')
            }
        } else {
            (v1, c)
        }
    }
}

/// The body of a single-quoted string from `v` up to its closing quote or
/// the end of the source: the state after it and the characters it
/// denotes, added to `acc`.
pub open spec fn short_string_spec(src: Seq<char>, v: TokView, quote: char, raw: bool, acc: Seq<char>) -> (
    TokView,
    Seq<char>,
)
    decreases src.len() - v.pos,
{
    if !(0 <= v.pos < src.len()) {
        (v, acc)
    } else {
        let c = src[v.pos];
        let v1 = step(v, c);
        if c == quote {
            (v1, acc)
        } else if c == '\\' && !raw {
            let (v2, e) = escape_spec(src, v1);
            if v2.pos > v.pos {
                short_string_spec(src, v2, quote, raw, acc.push(e))
            } else {
                (v2, acc.push(e))
            }
        } else {
            short_string_spec(src, v1, quote, raw, acc.push(c))
        }
    }
}

/// The body of a triple-quoted string, as `short_string_spec` for single
/// quotes: it ends at three quotes in a row; one or two quotes are kept.
pub open spec fn long_string_spec(src: Seq<char>, v: TokView, quote: char, raw: bool, acc: Seq<char>) -> (
    TokView,
    Seq<char>,
)
    decreases src.len() - v.pos,
{
    if !(0 <= v.pos < src.len()) {
        (v, acc)
    } else {
        let c = src[v.pos];
        let v1 = step(v, c);
        if c == quote {
            if peek_is(src, v1, quote) {
                let v2 = step(v1, quote);
                if peek_is(src, v2, quote) {
                    (step(v2, quote), acc)
                } else {
                    long_string_spec(src, v2, quote, raw, acc.push(quote).push(quote))
                }
            } else {
                long_string_spec(src, v1, quote, raw, acc.push(quote))
            }
        } else if c == '\\' && !raw {
            let (v2, e) = escape_spec(src, v1);
            if v2.pos > v.pos {
                long_string_spec(src, v2, quote, raw, acc.push(e))
            } else {
                (v2, acc.push(e))
            }
        } else {
            long_string_spec(src, v1, quote, raw, acc.push(c))
        }
    }
}

/// A string literal whose prefix and opening quote `v` has just passed:
/// raw with an `r`/`R` prefix, an f-string with `f`/`F`; three quotes
/// open a long string. The token's column is where the prefix began (0
/// at the least).
pub open spec fn string_spec(src: Seq<char>, v: TokView, quote: char, prefix: Seq<char>) -> (TokView, TokenView) {
    let raw = prefix.contains('r') || prefix.contains('R');
    let fstr = prefix.contains('f') || prefix.contains('F');
    let triple = peek_is(src, v, quote) && peek_is(src, TokView { pos: v.pos + 1, ..v }, quote);
    let (v2, content) = if triple {
        long_string_spec(src, step(step(v, quote), quote), quote, raw, Seq::empty())
    } else {
        short_string_spec(src, v, quote, raw, Seq::empty())
    };
    (
        v2,
        TokenView {
            kind: if fstr {
                KindView::FStringStart
            } else {
                KindView::String(content)
            },
            lexeme: content,
            line: v2.line,
            col: sat_sub(v.col, prefix.len() + 1int),
            int_value: None,
            string_id: None,
        },
    )
}

// ── Layout ──

/// The indentation at `v` (a space counts 1, a tab 4) and the state after
/// it; on a blank or comment line the indentation is 0 and the position
/// returns to `start`, while the column keeps what was counted.
pub open spec fn indent_spec(src: Seq<char>, v: TokView, start: int, acc: int) -> (int, TokView)
    decreases src.len() - v.pos,
{
    if !(0 <= v.pos < src.len()) {
        (acc, v)
    } else {
        let c = src[v.pos];
        if c == ' ' {
            indent_spec(src, TokView { pos: v.pos + 1, col: sat_inc(v.col), ..v }, start, sat_add(acc, 1))
        } else if c == '\t' {
            indent_spec(src, TokView { pos: v.pos + 1, col: sat_inc(v.col), ..v }, start, sat_add(acc, 4))
        } else if c == '#' || c == '\n' {
            (0, TokView { pos: start, ..v })
        } else {
            (acc, v)
        }
    }
}

/// The layout token for indentation `cur`: `Indent` when it is deeper than
/// the innermost level (which it becomes), `Dedent` when shallower (the
/// innermost level is closed unless it is the outermost), none when equal.
pub open spec fn handle_indent_spec(v: TokView, cur: usize) -> Option<(TokView, TokenView)> {
    let last = v.stack.last();
    if cur > last {
        let v1 = TokView { stack: v.stack.push(cur), ..v };
        Some((v1, mk(v1, KindView::Indent, Seq::empty())))
    } else if cur < last {
        let v1 = if v.stack.len() > 1 {
            TokView { stack: v.stack.drop_last(), ..v }
        } else {
            v
        };
        Some((v1, mk(v1, KindView::Dedent, Seq::empty())))
    } else {
        None
    }
}

/// `v` past spaces and tabs.
pub open spec fn skip_blanks(src: Seq<char>, v: TokView) -> TokView {
    adv_to(src, v, blank_end(src, v.pos))
}

/// `v` past a comment, up to its line's end.
pub open spec fn skip_comment(src: Seq<char>, v: TokView) -> TokView {
    adv_to(src, v, line_end(src, v.pos))
}

// ── Operators ──

/// An operator of one character or, where the next one extends it, two or
/// three; `v` has passed its first character `ch`.
pub open spec fn op_spec(src: Seq<char>, v: TokView, ch: char) -> (TokView, TokenView) {
    let a = adv(src, v);
    let aa = adv(src, a);
    if ch == '+' {
        if peek_is(src, v, '=') { (a, mk(a, KindView::PlusEq, "+="@)) } else { (v, mk(v, KindView::Plus, "+"@)) }
    } else if ch == '-' {
        if peek_is(src, v, '=') {
            (a, mk(a, KindView::MinusEq, "-="@))
        } else if peek_is(src, v, '>') {
            (a, mk(a, KindView::Arrow, "->"@))
        } else {
            (v, mk(v, KindView::Minus, "-"@))
        }
    } else if ch == '*' {
        if peek_is(src, v, '=') {
            (a, mk(a, KindView::StarEq, "*="@))
        } else if peek_is(src, v, '*') {
            if peek_is(src, a, '=') {
                (aa, mk(aa, KindView::DoubleStarEq, "**="@))
            } else {
                (a, mk(a, KindView::DoubleStar, "**"@))
            }
        } else {
            (v, mk(v, KindView::Star, "*"@))
        }
    } else if ch == '/' {
        if peek_is(src, v, '=') {
            (a, mk(a, KindView::SlashEq, "/="@))
        } else if peek_is(src, v, '/') {
            (a, mk(a, KindView::FloorDiv, "//"@))
        } else {
            (v, mk(v, KindView::Slash, "/"@))
        }
    } else if ch == '%' {
        if peek_is(src, v, '=') { (a, mk(a, KindView::PercentEq, "%="@)) } else { (v, mk(v, KindView::Percent, "%"@)) }
    } else if ch == '=' {
        if peek_is(src, v, '=') { (a, mk(a, KindView::EqEq, "=="@)) } else { (v, mk(v, KindView::Eq, "="@)) }
    } else if ch == '!' {
        if peek_is(src, v, '=') { (a, mk(a, KindView::NotEq, "!="@)) } else { (v, mk(v, KindView::Not, "!"@)) }
    } else if ch == '<' {
        if peek_is(src, v, '=') {
            (a, mk(a, KindView::LtE, "<="@))
        } else if peek_is(src, v, '<') {
            (a, mk(a, KindView::LShift, "<<"@))
        } else {
            (v, mk(v, KindView::Lt, "<"@))
        }
    } else if ch == '>' {
        if peek_is(src, v, '=') {
            (a, mk(a, KindView::GtE, ">="@))
        } else if peek_is(src, v, '>') {
            (a, mk(a, KindView::RShift, ">>"@))
        } else {
            (v, mk(v, KindView::Gt, ">"@))
        }
    } else if ch == '&' {
        (v, mk(v, KindView::BitAnd, "&"@))
    } else if ch == '|' {
        (v, mk(v, KindView::BitOr, "|"@))
    } else if ch == '^' {
        (v, mk(v, KindView::BitXor, "^"@))
    } else if ch == '~' {
        (v, mk(v, KindView::BitNot, "~"@))
    } else if ch == '@' {
        (v, mk(v, KindView::At, "@"@))
    } else if ch == '.' {
        if peek_is(src, v, '.') {
            if peek_is(src, a, '.') {
                (aa, mk(aa, KindView::Ellipsis, "..."@))
            } else {
                (a, mk(a, KindView::Dot, ".."@))
            }
        } else {
            (v, mk(v, KindView::Dot, "."@))
        }
    } else if ch == ':' {
        if peek_is(src, v, '=') { (a, mk(a, KindView::Walrus, ":="@)) } else { (v, mk(v, KindView::Colon, ":"@)) }
    } else if ch == '(' || ch == '[' || ch == '{' {
        let v1 = TokView { paren_depth: v.paren_depth + 1, ..v };
        (
            v1,
            mk(
                v1,
                if ch == '(' {
                    KindView::LParen
                } else if ch == '[' {
                    KindView::LBracket
                } else {
                    KindView::LBrace
                },
                seq![ch],
            ),
        )
    } else if ch == ')' || ch == ']' || ch == '}' {
        let v1 = TokView { paren_depth: if v.paren_depth > 0 { v.paren_depth - 1 } else { 0 }, ..v };
        (
            v1,
            mk(
                v1,
                if ch == ')' {
                    KindView::RParen
                } else if ch == ']' {
                    KindView::RBracket
                } else {
                    KindView::RBrace
                },
                seq![ch],
            ),
        )
    } else if ch == ',' {
        (v, mk(v, KindView::Comma, ","@))
    } else if ch == ';' {
        (v, mk(v, KindView::Semicolon, ";"@))
    } else {
        (v, mk(v, KindView::Name(seq![ch]), seq![ch]))
    }
}

/// The token at `v`, past layout, blanks and comments: a string (with its
/// prefix), a number, a name or keyword, or an operator.
pub open spec fn lex_spec(src: Seq<char>, v: TokView) -> (TokView, TokenView) {
    let ch = src[v.pos];
    let pe = prefix_end(src, v.pos);
    if ch == '"' || ch == '\'' {
        string_spec(src, step(v, ch), ch, Seq::empty())
    } else if is_prefix_char(ch) && v.pos + 1 < src.len() && pe < src.len() && (src[pe] == '"'
        || src[pe] == '\'') {
        string_spec(src, step(adv_to(src, v, pe), src[pe]), src[pe], src.subrange(v.pos, pe))
    } else if is_digit(ch) {
        number_spec(src, step(v, ch), ch)
    } else if is_alpha(ch) || ch == '_' {
        ident_spec(src, v)
    } else {
        op_spec(src, step(v, ch), ch)
    }
}

/// The layout step that starts each token: at the start of a line outside
/// brackets, the indentation is measured and an `Indent` or `Dedent` may
/// come of it (a `Dedent` that leaves deeper levels open returns to the
/// line's start, to close the next one); the line start is then left.
pub open spec fn layout_spec(src: Seq<char>, v: TokView) -> (TokView, Option<TokenView>) {
    if v.at_line_start && v.paren_depth == 0 {
        let (indent, vi) = indent_spec(src, v, v.pos, 0);
        match handle_indent_spec(vi, indent as usize) {
            Some((vh, tok)) => if tok.kind is Dedent && vh.stack.last() > indent {
                (TokView { pos: v.pos, col: v.col, ..vh }, Some(tok))
            } else {
                (TokView { at_line_start: false, ..vh }, Some(tok))
            },
            None => (TokView { at_line_start: false, ..vi }, None),
        }
    } else {
        (TokView { at_line_start: false, ..v }, None)
    }
}

/// The next token and the state after it.
pub open spec fn next_spec(src: Seq<char>, v: TokView) -> (TokView, TokenView)
    decreases src.len() - v.pos,
{
    let (v1, early) = layout_spec(src, v);
    match early {
        Some(tok) => (v1, tok),
        None => {
            let v2 = skip_blanks(src, v1);
            if peek_is(src, v2, '#') {
                let v3 = skip_comment(src, v2);
                if v.pos < v3.pos <= src.len() {
                    next_spec(src, v3)
                } else {
                    (v3, mk(v3, KindView::EndOfFile, Seq::empty()))
                }
            } else if peek_is(src, v2, '\n') {
                let v3 = TokView { at_line_start: true, ..step(v2, '\n') };
                if v3.paren_depth == 0 {
                    (v3, mk(v3, KindView::Newline, seq!['\n']))
                } else if v3.pos > v.pos {
                    next_spec(src, TokView { at_line_start: false, ..v3 })
                } else {
                    (v3, mk(v3, KindView::EndOfFile, Seq::empty()))
                }
            } else if !(0 <= v2.pos < src.len()) {
                if v2.stack.len() > 1 {
                    let v3 = TokView { stack: v2.stack.drop_last(), ..v2 };
                    (v3, mk(v3, KindView::Dedent, Seq::empty()))
                } else {
                    (v2, mk(v2, KindView::EndOfFile, Seq::empty()))
                }
            } else {
                lex_spec(src, v2)
            }
        },
    }
}

/// Where a tokenizer starts: line 1, column 0, at the start of a line,
/// indentation level 0.
pub open spec fn start_view() -> TokView {
    TokView { pos: 0, line: 1, col: 0, stack: seq![0usize], at_line_start: true, paren_depth: 0 }
}

/// The tokens from `v` on, up to and including `EndOfFile`. Each token
/// before it moves the tokenizer on (see `Tokenizer::next`).
pub open spec fn token_stream(src: Seq<char>, v: TokView) -> Seq<TokenView>
    decreases src.len() - v.pos, v.stack.len(),
{
    let (v2, t) = next_spec(src, v);
    if t.kind is EndOfFile || !((v.pos < v2.pos <= src.len()) || (v2.pos == v.pos && v2.stack.len()
        < v.stack.len())) {
        seq![t]
    } else {
        seq![t] + token_stream(src, v2)
    }
}

// ── What number literals denote ──

proof fn lemma_digit_value(d: nat)
    requires
        d < 16,
    ensures
        is_hex_digit(crate::text::hex_char(d)),
        hex_value(crate::text::hex_char(d)) == d,
        d < 10 ==> is_digit(crate::text::digit_char(d)) && crate::text::digit_char(d) == crate::text::hex_char(d),
{
    assert('0' as int == 48 && '1' as int == 49 && '9' as int == 57 && 'A' as int == 65 && 'F' as int == 70);
}

/// Decimal digits read back the number they print: the digits
/// `decimal(n)` writes are all decimal digits and have the value `n`.
pub proof fn lemma_decimal_digits_read_back(n: nat)
    ensures
        all_digits(decimal(n)),
        dec_value(decimal(n)) == n,
    decreases n,
{
    if n < 10 {
        lemma_digit_value(n);
        assert(decimal(n).drop_last() =~= Seq::<char>::empty());
        assert(dec_value(decimal(n)) == dec_value(Seq::<char>::empty()) * 10 + hex_value(decimal(n).last()));
    }
    if n >= 10 {
        lemma_decimal_digits_read_back(n / 10);
        lemma_digit_value(n % 10);
        let s = decimal(n / 10);
        assert(decimal(n).drop_last() =~= s);
        assert(decimal(n).last() == crate::text::digit_char(n % 10));
        assert(dec_value(decimal(n)) == dec_value(s) * 10 + hex_value(crate::text::digit_char(n % 10)));
        assert((n / 10) * 10 + n % 10 == n);
        assert forall|i: int| 0 <= i < decimal(n).len() implies is_digit(#[trigger] decimal(n)[i]) by {
            if i < s.len() {
                assert(decimal(n)[i] == s[i]);
            }
        }
    }
}

/// Hexadecimal digits read back the number they print: the digits
/// `hex_min(n, w)` writes are all hexadecimal digits and have the value
/// `n`.
pub proof fn lemma_hex_digits_read_back(n: nat, w: nat)
    ensures
        all_hex(hex_min(n, w)),
        hex_num(hex_min(n, w)) == n,
    decreases n + w,
{
    if n < 16 && w <= 1 {
        lemma_digit_value(n);
        assert(hex_min(n, w).drop_last() =~= Seq::<char>::empty());
        assert(hex_num(hex_min(n, w)) == hex_num(Seq::<char>::empty()) * 16 + hex_value(hex_min(n, w).last()));
    } else {
        let w1: nat = if w > 0 { (w - 1) as nat } else { 0 };
        lemma_hex_digits_read_back(n / 16, w1);
        lemma_digit_value(n % 16);
        let s = hex_min(n / 16, w1);
        assert(hex_min(n, w).drop_last() =~= s);
        assert(hex_min(n, w).last() == crate::text::hex_char(n % 16));
        assert(hex_num(hex_min(n, w)) == hex_num(s) * 16 + hex_value(crate::text::hex_char(n % 16)));
        assert((n / 16) * 16 + n % 16 == n);
        assert forall|i: int| 0 <= i < hex_min(n, w).len() implies is_hex_digit(
            #[trigger] hex_min(n, w)[i],
        ) by {
            if i < s.len() {
                assert(hex_min(n, w)[i] == s[i]);
            }
        }
    }
}

// ── What escapes denote ──

/// In a non-raw string each escape letter after a backslash denotes its
/// character: `n` a line feed (U+000A), `t` a tab (U+0009), `r` a carriage
/// return (U+000D), `0` NUL; a backslash or quote stands for itself. The
/// escape takes one character.
pub proof fn lemma_escape_letters(src: Seq<char>, v: TokView)
    requires
        0 <= v.pos < src.len(),
    ensures
        src[v.pos] == 'n' ==> escape_spec(src, v).1 as u32 == 10,
        src[v.pos] == 't' ==> escape_spec(src, v).1 as u32 == 9,
        src[v.pos] == 'r' ==> escape_spec(src, v).1 as u32 == 13,
        src[v.pos] == '0' ==> escape_spec(src, v).1 as u32 == 0,
        src[v.pos] == '\\' ==> escape_spec(src, v).1 as u32 == 92,
        src[v.pos] == '\'' ==> escape_spec(src, v).1 as u32 == 39,
        src[v.pos] == '"' ==> escape_spec(src, v).1 as u32 == 34,
        src[v.pos] != 'x' ==> escape_spec(src, v).0.pos == v.pos + 1,
        src[v.pos] == 'x' && v.pos + 2 < src.len() && is_hex_digit(src[v.pos + 1]) && is_hex_digit(
            src[v.pos + 2],
        ) ==> escape_spec(src, v).1 as u32 == 16 * hex_value(src[v.pos + 1]) + hex_value(
            src[v.pos + 2],
        ),
{
    if src[v.pos] == 'x' && v.pos + 2 < src.len() && is_hex_digit(src[v.pos + 1]) && is_hex_digit(
        src[v.pos + 2],
    ) {
        assert(hex_value(src[v.pos + 1]) < 16 && hex_value(src[v.pos + 2]) < 16);
        let x = hex_value(src[v.pos + 1]) * 16 + hex_value(src[v.pos + 2]);
        assert(x < 256) by (nonlinear_arith)
            requires
                hex_value(src[v.pos + 1]) < 16,
                hex_value(src[v.pos + 2]) < 16,
                x == hex_value(src[v.pos + 1]) * 16 + hex_value(src[v.pos + 2]),
        ;
    }
}

proof fn lemma_short_string_extends(src: Seq<char>, v: TokView, quote: char, raw: bool, acc: Seq<char>)
    ensures
        short_string_spec(src, v, quote, raw, acc).1.len() >= acc.len(),
        short_string_spec(src, v, quote, raw, acc).1.subrange(0, acc.len() as int) == acc,
    decreases src.len() - v.pos,
{
    if 0 <= v.pos < src.len() {
        let c = src[v.pos];
        let v1 = step(v, c);
        if c == quote {
            assert(acc.subrange(0, acc.len() as int) =~= acc);
        } else if c == '\\' && !raw {
            let (v2, e) = escape_spec(src, v1);
            if v2.pos > v.pos {
                lemma_short_string_extends(src, v2, quote, raw, acc.push(e));
                let r = short_string_spec(src, v2, quote, raw, acc.push(e)).1;
                assert(r.subrange(0, acc.len() as int) =~= acc.push(e).subrange(0, acc.len() as int));
                assert(acc.push(e).subrange(0, acc.len() as int) =~= acc);
            } else {
                assert(acc.push(e).subrange(0, acc.len() as int) =~= acc);
            }
        } else {
            lemma_short_string_extends(src, v1, quote, raw, acc.push(c));
            let r = short_string_spec(src, v1, quote, raw, acc.push(c)).1;
            assert(r.subrange(0, acc.len() as int) =~= acc.push(c).subrange(0, acc.len() as int));
            assert(acc.push(c).subrange(0, acc.len() as int) =~= acc);
        }
    } else {
        assert(acc.subrange(0, acc.len() as int) =~= acc);
    }
}

/// A backslash escape in a non-raw single-quoted string puts the character
/// it denotes into the string's text, where the escape stands: after `\t`
/// a tab (U+0009), after `\n` a line feed, after `\r` a carriage return.
pub proof fn lemma_escape_in_string(src: Seq<char>, v: TokView, quote: char, acc: Seq<char>)
    requires
        0 <= v.pos,
        v.pos + 1 < src.len(),
        src[v.pos] == '\\',
        quote != '\\',
    ensures
        short_string_spec(src, v, quote, false, acc).1.len() > acc.len(),
        short_string_spec(src, v, quote, false, acc).1[acc.len() as int] == escape_spec(
            src,
            step(v, '\\'),
        ).1,
        src[v.pos + 1] == 't' ==> short_string_spec(src, v, quote, false, acc).1[acc.len() as int] as u32
            == 9,
        src[v.pos + 1] == 'n' ==> short_string_spec(src, v, quote, false, acc).1[acc.len() as int] as u32
            == 10,
        src[v.pos + 1] == 'r' ==> short_string_spec(src, v, quote, false, acc).1[acc.len() as int] as u32
            == 13,
{
    let v1 = step(v, '\\');
    let (v2, e) = escape_spec(src, v1);
    lemma_escape_letters(src, v1);
    assert(v2.pos > v.pos);
    lemma_short_string_extends(src, v2, quote, false, acc.push(e));
    let r = short_string_spec(src, v2, quote, false, acc.push(e)).1;
    assert(r.subrange(0, acc.len() + 1int)[acc.len() as int] == r[acc.len() as int]);
    assert(acc.push(e)[acc.len() as int] == e);
}

// ── Layout balance ──

/// What a token does to the block depth: `Indent` opens a block, `Dedent`
/// closes one.
pub open spec fn depth_step(t: TokenView) -> int {
    if t.kind is Indent {
        1
    } else if t.kind is Dedent {
        -1
    } else {
        0
    }
}

/// The number of `Indent` tokens in `ts` less the number of `Dedent`
/// tokens.
pub open spec fn depth_change(ts: Seq<TokenView>) -> int
    decreases ts.len(),
{
    if ts.len() == 0 {
        0
    } else {
        depth_step(ts[0]) + depth_change(ts.drop_first())
    }
}

/// The layout state a tokenizer keeps: the outermost level is column 0.
pub open spec fn layout_ok(v: TokView) -> bool {
    v.stack.len() >= 1 && v.stack[0] == 0
}

proof fn lemma_adv_to_stack(src: Seq<char>, v: TokView, e: int)
    ensures
        adv_to(src, v, e).stack == v.stack,
    decreases e - v.pos,
{
    if !(v.pos >= e || v.pos < 0 || v.pos >= src.len()) {
        lemma_adv_to_stack(src, step(v, src[v.pos]), e);
    }
}

proof fn lemma_indent_stack(src: Seq<char>, v: TokView, start: int, acc: int)
    ensures
        indent_spec(src, v, start, acc).1.stack == v.stack,
    decreases src.len() - v.pos,
{
    if 0 <= v.pos < src.len() {
        let c = src[v.pos];
        let v1 = TokView { pos: v.pos + 1, col: sat_inc(v.col), ..v };
        if c == ' ' {
            lemma_indent_stack(src, v1, start, sat_add(acc, 1));
        } else if c == '\t' {
            lemma_indent_stack(src, v1, start, sat_add(acc, 4));
        }
    }
}

proof fn lemma_short_string_stack(src: Seq<char>, v: TokView, quote: char, raw: bool, acc: Seq<char>)
    ensures
        short_string_spec(src, v, quote, raw, acc).0.stack == v.stack,
    decreases src.len() - v.pos,
{
    if 0 <= v.pos < src.len() {
        let c = src[v.pos];
        let v1 = step(v, c);
        if c == quote {
        } else if c == '\\' && !raw {
            let (v2, e) = escape_spec(src, v1);
            if v2.pos > v.pos {
                lemma_short_string_stack(src, v2, quote, raw, acc.push(e));
            }
        } else {
            lemma_short_string_stack(src, v1, quote, raw, acc.push(c));
        }
    }
}

proof fn lemma_long_string_stack(src: Seq<char>, v: TokView, quote: char, raw: bool, acc: Seq<char>)
    ensures
        long_string_spec(src, v, quote, raw, acc).0.stack == v.stack,
    decreases src.len() - v.pos,
{
    if 0 <= v.pos < src.len() {
        let c = src[v.pos];
        let v1 = step(v, c);
        if c == quote {
            if peek_is(src, v1, quote) {
                let v2 = step(v1, quote);
                if !peek_is(src, v2, quote) {
                    lemma_long_string_stack(src, v2, quote, raw, acc.push(quote).push(quote));
                }
            } else {
                lemma_long_string_stack(src, v1, quote, raw, acc.push(quote));
            }
        } else if c == '\\' && !raw {
            let (v2, e) = escape_spec(src, v1);
            if v2.pos > v.pos {
                lemma_long_string_stack(src, v2, quote, raw, acc.push(e));
            }
        } else {
            lemma_long_string_stack(src, v1, quote, raw, acc.push(c));
        }
    }
}

proof fn lemma_string_stack(src: Seq<char>, v: TokView, quote: char, prefix: Seq<char>)
    ensures
        string_spec(src, v, quote, prefix).0.stack == v.stack,
{
    let raw = prefix.contains('r') || prefix.contains('R');
    lemma_long_string_stack(src, step(step(v, quote), quote), quote, raw, Seq::empty());
    lemma_short_string_stack(src, v, quote, raw, Seq::empty());
}

proof fn lemma_prefix_end_ge(src: Seq<char>, p: int)
    ensures
        prefix_end(src, p) >= p,
    decreases src.len() - p,
{
    if 0 <= p < src.len() && is_prefix_char(src[p]) {
        lemma_prefix_end_ge(src, p + 1);
    }
}

proof fn lemma_op_stack(src: Seq<char>, v: TokView, ch: char)
    ensures
        op_spec(src, v, ch).0.stack == v.stack,
{
}

proof fn lemma_lex_stack(src: Seq<char>, v: TokView)
    requires
        0 <= v.pos < src.len(),
    ensures
        lex_spec(src, v).0.stack == v.stack,
{
    let ch = src[v.pos];
    let pe = prefix_end(src, v.pos);
    lemma_prefix_end_ge(src, v.pos);
    lemma_string_stack(src, step(v, ch), ch, Seq::empty());
    if v.pos <= pe < src.len() {
        lemma_adv_to_stack(src, v, pe);
        lemma_string_stack(src, step(adv_to(src, v, pe), src[pe]), src[pe], src.subrange(v.pos, pe));
    }
    lemma_adv_to_stack(src, step(v, ch), number_end(src, step(v, ch).pos, ch));
    lemma_adv_to_stack(src, v, ident_end(src, v.pos));
    lemma_op_stack(src, step(v, ch), ch);
}

/// Each token moves the block depth by what it does to it, and the
/// outermost level stays.
proof fn lemma_next_depth(src: Seq<char>, v: TokView)
    requires
        layout_ok(v),
    ensures
        layout_ok(next_spec(src, v).0),
        next_spec(src, v).0.stack.len() == v.stack.len() + depth_step(next_spec(src, v).1),
    decreases src.len() - v.pos,
{
    let (v1, early) = layout_spec(src, v);
    if v.at_line_start && v.paren_depth == 0 {
        lemma_indent_stack(src, v, v.pos, 0);
    }
    match early {
        Some(tok) => {},
        None => {
            let v2 = skip_blanks(src, v1);
            lemma_adv_to_stack(src, v1, blank_end(src, v1.pos));
            if peek_is(src, v2, '#') {
                let v3 = skip_comment(src, v2);
                lemma_adv_to_stack(src, v2, line_end(src, v2.pos));
                if v.pos < v3.pos <= src.len() {
                    lemma_next_depth(src, v3);
                }
            } else if peek_is(src, v2, '\n') {
                let v3 = TokView { at_line_start: true, ..step(v2, '\n') };
                if v3.paren_depth != 0 && v3.pos > v.pos {
                    lemma_next_depth(src, TokView { at_line_start: false, ..v3 });
                }
            } else if 0 <= v2.pos < src.len() {
                lemma_lex_stack(src, v2);
            }
        },
    }
}

/// Indent and Dedent tokens never go below the outermost level: from a
/// tokenizer at block depth `d` (its levels past the outermost), no prefix
/// of the tokens it gives has more than `d` more `Dedent` than `Indent`
/// tokens, and after each prefix the tokenizer's depth is `d` plus their
/// difference.
pub proof fn lemma_stream_depth(src: Seq<char>, v: TokView, k: int)
    requires
        layout_ok(v),
        0 <= k <= token_stream(src, v).len(),
    ensures
        v.stack.len() - 1 + depth_change(token_stream(src, v).take(k)) >= 0,
    decreases src.len() - v.pos, v.stack.len(),
{
    let (v2, t) = next_spec(src, v);
    lemma_next_depth(src, v);
    let ts = token_stream(src, v);
    if k > 0 {
        assert(ts[0] == t);
        assert(ts.take(k)[0] == t);
        assert(depth_change(ts.take(k)) == depth_step(t) + depth_change(ts.take(k).drop_first()));
        assert(ts.take(k).drop_first() =~= ts.drop_first().take(k - 1));
        if t.kind is EndOfFile || !((v.pos < v2.pos <= src.len()) || (v2.pos == v.pos && v2.stack.len()
            < v.stack.len())) {
            assert(ts.take(k).drop_first() =~= Seq::<TokenView>::empty());
        } else {
            assert(ts.drop_first() =~= token_stream(src, v2));
            lemma_stream_depth(src, v2, k - 1);
        }
    }
}

proof fn lemma_adv_to_pos(src: Seq<char>, v: TokView, e: int)
    requires
        0 <= v.pos <= e <= src.len(),
    ensures
        adv_to(src, v, e).pos == e,
    decreases e - v.pos,
{
    if v.pos < e {
        lemma_adv_to_pos(src, step(v, src[v.pos]), e);
    }
}

proof fn lemma_blank_end_bounds(src: Seq<char>, p: int)
    requires
        0 <= p <= src.len(),
    ensures
        p <= blank_end(src, p) <= src.len(),
    decreases src.len() - p,
{
    if p < src.len() && (src[p] == ' ' || src[p] == '\t') {
        lemma_blank_end_bounds(src, p + 1);
    }
}

proof fn lemma_line_end_bounds(src: Seq<char>, p: int)
    requires
        0 <= p <= src.len(),
    ensures
        p <= line_end(src, p) <= src.len(),
    decreases src.len() - p,
{
    if p < src.len() && src[p] != '\n' {
        lemma_line_end_bounds(src, p + 1);
    }
}

proof fn lemma_indent_pos(src: Seq<char>, v: TokView, start: int, acc: int)
    requires
        0 <= start <= v.pos <= src.len(),
    ensures
        start <= indent_spec(src, v, start, acc).1.pos <= src.len(),
    decreases src.len() - v.pos,
{
    if 0 <= v.pos < src.len() {
        let c = src[v.pos];
        let v1 = TokView { pos: v.pos + 1, col: sat_inc(v.col), ..v };
        if c == ' ' {
            lemma_indent_pos(src, v1, start, sat_add(acc, 1));
        } else if c == '\t' {
            lemma_indent_pos(src, v1, start, sat_add(acc, 4));
        }
    }
}

proof fn lemma_op_not_end(src: Seq<char>, v: TokView, ch: char)
    ensures
        !(op_spec(src, v, ch).1.kind is EndOfFile),
{
}

/// The end-of-file token comes only where every block is closed.
proof fn lemma_end_closes(src: Seq<char>, v: TokView)
    requires
        layout_ok(v),
        0 <= v.pos <= src.len(),
        next_spec(src, v).1.kind is EndOfFile,
    ensures
        next_spec(src, v).0.stack.len() == 1,
    decreases src.len() - v.pos,
{
    let (v1, early) = layout_spec(src, v);
    if v.at_line_start && v.paren_depth == 0 {
        lemma_indent_stack(src, v, v.pos, 0);
        lemma_indent_pos(src, v, v.pos, 0);
    }
    match early {
        Some(tok) => {},
        None => {
            assert(v.pos <= v1.pos <= src.len());
            let v2 = skip_blanks(src, v1);
            lemma_adv_to_stack(src, v1, blank_end(src, v1.pos));
            lemma_blank_end_bounds(src, v1.pos);
            lemma_adv_to_pos(src, v1, blank_end(src, v1.pos));
            if peek_is(src, v2, '#') {
                let v3 = skip_comment(src, v2);
                lemma_adv_to_stack(src, v2, line_end(src, v2.pos));
                lemma_line_end_bounds(src, v2.pos + 1);
                lemma_adv_to_pos(src, v2, line_end(src, v2.pos));
                assert(v.pos < v3.pos <= src.len());
                lemma_next_depth(src, v3);
                lemma_end_closes(src, v3);
            } else if peek_is(src, v2, '\n') {
                let v3 = TokView { at_line_start: true, ..step(v2, '\n') };
                if v3.paren_depth != 0 {
                    lemma_end_closes(src, TokView { at_line_start: false, ..v3 });
                }
            } else if 0 <= v2.pos < src.len() {
                let ch = src[v2.pos];
                lemma_op_not_end(src, step(v2, ch), ch);
            }
        },
    }
}

/// Where the tokens from `v` end with `EndOfFile`, every block open at `v`
/// and every one they open is closed by then: their `Dedent` tokens
/// outnumber their `Indent` ones by `v`'s depth.
pub proof fn lemma_stream_closes(src: Seq<char>, v: TokView)
    requires
        layout_ok(v),
        0 <= v.pos <= src.len(),
        token_stream(src, v).last().kind is EndOfFile,
    ensures
        v.stack.len() - 1 + depth_change(token_stream(src, v)) == 0,
    decreases src.len() - v.pos, v.stack.len(),
{
    let (v2, t) = next_spec(src, v);
    lemma_next_depth(src, v);
    let ts = token_stream(src, v);
    assert(ts[0] == t);
    assert(depth_change(ts) == depth_step(t) + depth_change(ts.drop_first()));
    if t.kind is EndOfFile || !((v.pos < v2.pos <= src.len()) || (v2.pos == v.pos && v2.stack.len()
        < v.stack.len())) {
        assert(ts.drop_first() =~= Seq::<TokenView>::empty());
        assert(ts.last() == t);
        lemma_end_closes(src, v);
    } else {
        assert(ts.drop_first() =~= token_stream(src, v2));
        assert(ts.last() == token_stream(src, v2).last());
        lemma_stream_closes(src, v2);
    }
}

/// A source's tokens close every block they open: where they end with
/// `EndOfFile`, there are as many `Dedent` tokens as `Indent` ones.
pub proof fn lemma_blocks_balance(src: Seq<char>)
    requires
        token_stream(src, start_view()).last().kind is EndOfFile,
    ensures
        depth_change(token_stream(src, start_view())) == 0,
{
    lemma_stream_closes(src, start_view());
}

/// From the start of a source, no prefix of its tokens closes more blocks
/// than it opened: the `Dedent` tokens never outnumber the `Indent` ones.
pub proof fn lemma_blocks_never_negative(src: Seq<char>, k: int)
    requires
        0 <= k <= token_stream(src, start_view()).len(),
    ensures
        depth_change(token_stream(src, start_view()).take(k)) >= 0,
{
    lemma_stream_depth(src, start_view(), k);
}

// ── Tokens ──

/// A token.
#[derive(Clone, Debug)]
pub struct Token {
    pub kind: TokenKind,
    pub lexeme: String,
    pub line: usize,
    pub col: usize,
    pub string_id: Option<u32>,
    pub int_value: Option<i64>,
}

/// The view of a token.
pub open spec fn token_view(t: Token) -> TokenView {
    TokenView {
        kind: kind_view(t.kind),
        lexeme: t.lexeme@,
        line: t.line as int,
        col: t.col as int,
        int_value: t.int_value,
        string_id: t.string_id,
    }
}

/// The tokenizer of one source text.
pub struct Tokenizer {
    src: Vec<char>,
    pos: usize,
    line: usize,
    col: usize,
    indent_stack: Vec<usize>,
    at_line_start: bool,
    paren_depth: usize,
}

/// `adv_to` takes one more step at a time.
proof fn lemma_adv_to_step(src: Seq<char>, v: TokView, p: int)
    requires
        0 <= v.pos <= p < src.len(),
    ensures
        adv_to(src, v, p + 1) == step(adv_to(src, v, p), src[p]),
        adv_to(src, v, p).pos == p,
    decreases p - v.pos,
{
    let v1 = step(v, src[v.pos]);
    if v.pos < p {
        lemma_adv_to_step(src, v1, p);
        assert(adv_to(src, v, p + 1) == adv_to(src, v1, p + 1));
        assert(adv_to(src, v, p) == adv_to(src, v1, p));
    } else {
        assert(adv_to(src, v1, p + 1) == v1);
        assert(adv_to(src, v, p + 1) == adv_to(src, v1, p + 1));
    }
}

/// A name ends no earlier than where one starts looking.
proof fn lemma_ident_end_ge(src: Seq<char>, p: int)
    ensures
        ident_end(src, p) >= p,
    decreases src.len() - p,
{
    if 0 <= p < src.len() && is_ident_char(src[p]) {
        lemma_ident_end_ge(src, p + 1);
    }
}

/// A line ends no earlier than where one starts looking.
proof fn lemma_line_end_ge(src: Seq<char>, p: int)
    ensures
        line_end(src, p) >= p,
    decreases src.len() - p,
{
    if 0 <= p < src.len() && src[p] != '\n' {
        lemma_line_end_ge(src, p + 1);
    }
}

impl Tokenizer {
    /// The source text.
    pub closed spec fn source(&self) -> Seq<char> {
        self.src@
    }

    /// The position and layout state.
    pub closed spec fn state(&self) -> TokView {
        TokView {
            pos: self.pos as int,
            line: self.line as int,
            col: self.col as int,
            stack: self.indent_stack@,
            at_line_start: self.at_line_start,
            paren_depth: self.paren_depth as int,
        }
    }

    /// The state is within the source, the indentation stack is never
    /// empty, and the counters stay far from overflow.
    pub closed spec fn wf(&self) -> bool {
        &&& self.pos <= self.src@.len()
        &&& self.src@.len() < usize::MAX / 8
        &&& self.indent_stack@.len() >= 1
        &&& self.indent_stack@[0] == 0
        &&& self.line <= self.pos + 1
        &&& self.paren_depth <= self.pos
    }

    /// A tokenizer at the start of `source`: line 1, column 0, at the start
    /// of a line, indentation level 0.
    pub fn new(source: &str) -> (t: Self)
        requires
            source@.len() < usize::MAX / 8,
        ensures
            t.wf(),
            t.source() == source@,
            t.state() == (TokView {
                pos: 0,
                line: 1,
                col: 0,
                stack: seq![0usize],
                at_line_start: true,
                paren_depth: 0,
            }),
    {
        let stack = vec![0usize];
        assert(stack@ =~= seq![0usize]);
        let t = Tokenizer {
            src: crate::text::chars_of(source),
            pos: 0,
            line: 1,
            col: 0,
            indent_stack: stack,
            at_line_start: true,
            paren_depth: 0,
        };
        assert(t.state() =~= TokView {
            pos: 0,
            line: 1,
            col: 0,
            stack: seq![0usize],
            at_line_start: true,
            paren_depth: 0,
        });
        t
    }

    fn peek_char(&self) -> (r: Option<char>)
        requires
            self.wf(),
        ensures
            r == (if self.pos < self.src@.len() {
                Some(self.src@[self.pos as int])
            } else {
                None::<char>
            }),
    {
        if self.pos < self.src.len() {
            Some(self.src[self.pos])
        } else {
            None
        }
    }

    fn advance(&mut self) -> (r: Option<char>)
        requires
            old(self).wf(),
        ensures
            final(self).indent_stack == old(self).indent_stack,
            final(self).pos >= old(self).pos,
            final(self).wf(),
            final(self).src == old(self).src,
            final(self).state() == adv(old(self).src@, old(self).state()),
            r == (if old(self).pos < old(self).src@.len() {
                Some(old(self).src@[old(self).pos as int])
            } else {
                None::<char>
            }),
    {
        if self.pos < self.src.len() {
            let c = self.src[self.pos];
            self.pos = self.pos + 1;
            if c == '\n' {
                if self.line < usize::MAX {
                    self.line = self.line + 1;
                }
                self.col = 0;
            } else if self.col < usize::MAX {
                self.col = self.col + 1;
            }
            assert(self.state() =~= adv(old(self).src@, old(self).state()));
            Some(c)
        } else {
            None
        }
    }

    fn make_token(&self, kind: TokenKind, lexeme: &str) -> (t: Token)
        ensures
            token_view(t) == mk(self.state(), kind_view(kind), lexeme@),
            t.string_id is None,
    {
        let n = utf8_length(lexeme);
        let col = if self.col >= n {
            self.col - n
        } else {
            0
        };
        Token {
            kind,
            lexeme: lexeme.to_owned(),
            line: self.line,
            col,
            string_id: None,
            int_value: None,
        }
    }

    fn read_identifier(&mut self) -> (t: Token)
        requires
            old(self).wf(),
        ensures
            final(self).indent_stack == old(self).indent_stack,
            final(self).pos >= old(self).pos,
            final(self).wf(),
            final(self).src == old(self).src,
            (final(self).state(), token_view(t)) == ident_spec(old(self).src@, old(self).state()),
            old(self).pos < old(self).src@.len() && is_ident_char(old(self).src@[old(self).pos as int])
                ==> final(self).pos > old(self).pos,
    {
        let ghost src = self.src@;
        let ghost v0 = self.state();
        let start_col = self.col;
        let mut s = String::new();
        loop
            invariant
                self.indent_stack == old(self).indent_stack,
                self.pos >= old(self).pos,
                self.wf(),
                self.src@ == src,
                self.src == old(self).src,
                v0.pos <= self.pos,
                ident_end(src, self.pos as int) == ident_end(src, v0.pos),
                self.state() == adv_to(src, v0, self.pos as int),
                s@ == src.subrange(v0.pos, self.pos as int),
                start_col == v0.col,
            ensures
                ident_end(src, self.pos as int) == self.pos,
            decreases src.len() - self.pos,
        {
            let ch = match self.peek_char() {
                Some(c) => c,
                None => break,
            };
            if !(is_alphanumeric(ch) || ch == '_') {
                break;
            }
            let ghost before = self.state();
            let cs = char_string(ch);
            s.append(cs.as_str());
            self.advance();
            proof {
                lemma_adv_to_step(src, v0, before.pos);
                assert(s@ =~= src.subrange(v0.pos, self.pos as int));
            }
        }
        assert(ident_end(src, self.pos as int) == self.pos);
        proof {
            if v0.pos < src.len() && is_ident_char(src[v0.pos]) {
                lemma_ident_end_ge(src, v0.pos + 1);
            }
        }
        let kind = match keyword(s.as_str()) {
            Some(k) => k,
            None => TokenKind::Name(s.clone()),
        };
        let t = Token { kind, lexeme: s, line: self.line, col: start_col, string_id: None, int_value: None };
        assert(token_view(t) =~= ident_spec(src, v0).1);
        t
    }
}

/// The UTF-8 length of a string, counted by characters, saturating at
/// `usize::MAX`.
fn utf8_length(s: &str) -> (n: usize)
    ensures
        n == (if utf8_len_seq(s@) < usize::MAX {
            utf8_len_seq(s@)
        } else {
            usize::MAX as nat
        }),
{
    let cs = crate::text::chars_of(s);
    let mut n: usize = 0;
    let mut i: usize = 0;
    while i < cs.len()
        invariant
            i <= cs@.len(),
            cs@ == s@,
            n == (if utf8_len_seq(s@.take(i as int)) < usize::MAX {
                utf8_len_seq(s@.take(i as int))
            } else {
                usize::MAX as nat
            }),
        decreases cs@.len() - i,
    {
        let c = cs[i];
        let k: usize = if '\u{80}' > c {
            1
        } else if '\u{800}' > c {
            2
        } else if '\u{10000}' > c {
            3
        } else {
            4
        };
        assert(s@.take(i + 1).drop_last() =~= s@.take(i as int));
        assert(s@.take(i + 1).last() == c);
        n = if n > usize::MAX - k {
            usize::MAX
        } else {
            n + k
        };
        i = i + 1;
    }
    assert(s@.take(cs@.len() as int) =~= s@);
    n
}

/// The value of a hexadecimal digit.
fn hex_digit_value(c: char) -> (d: u32)
    requires
        is_hex_digit(c),
    ensures
        d == hex_value(c),
        d < 16,
{
    if c == '0' {
        0
    } else if c == '1' {
        1
    } else if c == '2' {
        2
    } else if c == '3' {
        3
    } else if c == '4' {
        4
    } else if c == '5' {
        5
    } else if c == '6' {
        6
    } else if c == '7' {
        7
    } else if c == '8' {
        8
    } else if c == '9' {
        9
    } else if c == 'a' {
        10
    } else if c == 'b' {
        11
    } else if c == 'c' {
        12
    } else if c == 'd' {
        13
    } else if c == 'e' {
        14
    } else if c == 'f' {
        15
    } else if c == 'A' {
        10
    } else if c == 'B' {
        11
    } else if c == 'C' {
        12
    } else if c == 'D' {
        13
    } else if c == 'E' {
        14
    } else if c == 'F' {
        15
    } else {
        15
    }
}

/// `dec_value` does not shrink as digits are appended.
proof fn lemma_dec_value_prefix(ds: Seq<char>, k: int)
    requires
        0 <= k <= ds.len(),
    ensures
        dec_value(ds.take(k)) <= dec_value(ds),
    decreases ds.len() - k,
{
    if k < ds.len() {
        lemma_dec_value_prefix(ds, k + 1);
        assert(ds.take(k + 1).drop_last() =~= ds.take(k));
    } else {
        assert(ds.take(k) =~= ds);
    }
}

/// Whether every character from `start` on is a decimal digit.
fn digits_from(s: &Vec<char>, start: usize) -> (r: bool)
    requires
        start <= s@.len(),
    ensures
        r == all_digits(s@.subrange(start as int, s@.len() as int)),
{
    let ghost ds = s@.subrange(start as int, s@.len() as int);
    let mut i: usize = start;
    while i < s.len()
        invariant
            start <= i <= s@.len(),
            ds == s@.subrange(start as int, s@.len() as int),
            forall|j: int| 0 <= j < i - start ==> is_digit(#[trigger] ds[j]),
        decreases s@.len() - i,
    {
        let c = s[i];
        if !('0' <= c && c <= '9') {
            assert(!is_digit(ds[i - start]));
            return false;
        }
        i = i + 1;
    }
    true
}

/// The value of the digits from `start` on, or `None` where it exceeds
/// 2^63.
fn digits_value(s: &Vec<char>, start: usize) -> (r: Option<u64>)
    requires
        start <= s@.len(),
        all_digits(s@.subrange(start as int, s@.len() as int)),
    ensures
        match r {
            Some(v) => v == dec_value(s@.subrange(start as int, s@.len() as int)) && v
                <= 9_223_372_036_854_775_808u64,
            None => dec_value(s@.subrange(start as int, s@.len() as int))
                > 9_223_372_036_854_775_808u64,
        },
{
    let ghost ds = s@.subrange(start as int, s@.len() as int);
    let limit: u64 = 9_223_372_036_854_775_808;
    let mut v: u64 = 0;
    let mut i: usize = start;
    while i < s.len()
        invariant
            start <= i <= s@.len(),
            ds == s@.subrange(start as int, s@.len() as int),
            all_digits(ds),
            limit == 9_223_372_036_854_775_808u64,
            v == dec_value(ds.take(i - start)),
            v <= limit,
        decreases s@.len() - i,
    {
        let c = s[i];
        assert(is_digit(ds[i - start]));
        let d = hex_digit_value(c) as u64;
        proof {
            assert(ds.take(i - start + 1).drop_last() =~= ds.take(i - start));
            assert(ds.take(i - start + 1).last() == c);
        }
        if v > (limit - d) / 10 {
            assert(dec_value(ds.take(i - start + 1)) > 9_223_372_036_854_775_808u64) by (nonlinear_arith)
                requires
                    dec_value(ds.take(i - start + 1)) == v * 10 + d,
                    v > (9_223_372_036_854_775_808u64 - d) / 10,
                    d < 16,
            ;
            proof {
                lemma_dec_value_prefix(ds, i - start + 1);
            }
            return None;
        }
        assert(v * 10 + d <= 9_223_372_036_854_775_808u64) by (nonlinear_arith)
            requires
                v <= (9_223_372_036_854_775_808u64 - d) / 10,
                d < 16,
        ;
        v = v * 10 + d;
        i = i + 1;
    }
    assert(ds.take(s@.len() - start) =~= ds);
    Some(v)
}

/// `s` as `i64::from_str` reads it.
fn parse_i64_chars(s: &Vec<char>) -> (r: Option<i64>)
    ensures
        r == parse_i64(s@),
{
    let n = s.len();
    if n == 0 {
        return None;
    }
    let neg = s[0] == '-';
    let start: usize = if s[0] == '-' || s[0] == '+' {
        1
    } else {
        0
    };
    let ghost ds = s@.subrange(start as int, n as int);
    assert(ds =~= (if s@[0] == '-' || s@[0] == '+' {
        s@.drop_first()
    } else {
        s@
    }));
    if start == n || !digits_from(s, start) {
        return None;
    }
    match digits_value(s, start) {
        None => None,
        Some(v) => {
            if neg {
                if v == 9_223_372_036_854_775_808u64 {
                    Some(i64::MIN)
                } else {
                    Some(-(v as i64))
                }
            } else {
                if v == 9_223_372_036_854_775_808u64 {
                    None
                } else {
                    Some(v as i64)
                }
            }
        },
    }
}

/// `s` without underscores.
fn without_underscores(s: &Vec<char>) -> (r: Vec<char>)
    ensures
        r@ == strip_underscores(s@),
{
    let mut out: Vec<char> = Vec::new();
    let mut i: usize = 0;
    while i < s.len()
        invariant
            i <= s@.len(),
            out@ == strip_underscores(s@.take(i as int)),
        decreases s@.len() - i,
    {
        assert(s@.take(i + 1).drop_last() =~= s@.take(i as int));
        assert(s@.take(i + 1).last() == s@[i as int]);
        if s[i] != '_' {
            out.push(s[i]);
        }
        i = i + 1;
    }
    assert(s@.take(s@.len() as int) =~= s@);
    out
}

/// Whether `cs` holds `c`.
fn has_char(cs: &Vec<char>, c: char) -> (r: bool)
    ensures
        r == cs@.contains(c),
{
    let mut i: usize = 0;
    while i < cs.len()
        invariant
            i <= cs@.len(),
            forall|j: int| 0 <= j < i ==> cs@[j] != c,
        decreases cs@.len() - i,
    {
        if cs[i] == c {
            assert(cs@[i as int] == c);
            return true;
        }
        i = i + 1;
    }
    false
}

/// Whether `c` continues a decimal literal after `prev`.
fn dec_char(prev: char, c: char) -> (r: bool)
    ensures
        r == dec_continues(prev, c),
{
    ('0' <= c && c <= '9') || c == '_' || c == '.' || c == 'e' || c == 'E' || ((c == '+' || c
        == '-') && (prev == 'e' || prev == 'E'))
}

/// Hexadecimal digits as `i64::from_str_radix(s, 16)` reads them.
fn parse_hex_chars(s: &Vec<char>) -> (r: Option<i64>)
    ensures
        r == parse_hex_i64(s@),
{
    if s.len() == 0 {
        return None;
    }
    let mut i: usize = 0;
    while i < s.len()
        invariant
            i <= s@.len(),
            forall|j: int| 0 <= j < i ==> is_hex_digit(#[trigger] s@[j]),
        decreases s@.len() - i,
    {
        if !is_hex_char(s[i]) {
            assert(!all_hex(s@));
            return None;
        }
        i = i + 1;
    }
    assert(all_hex(s@));
    let limit: u64 = 0x7fff_ffff_ffff_ffff;
    let mut v: u64 = 0;
    let mut k: usize = 0;
    while k < s.len()
        invariant
            k <= s@.len(),
            all_hex(s@),
            limit == 0x7fff_ffff_ffff_ffffu64,
            v == hex_num(s@.take(k as int)),
            v <= limit,
        decreases s@.len() - k,
    {
        let c = s[k];
        assert(is_hex_digit(s@[k as int]));
        let d = hex_digit_value(c) as u64;
        proof {
            assert(s@.take(k + 1).drop_last() =~= s@.take(k as int));
            assert(s@.take(k + 1).last() == c);
        }
        if v > (limit - d) / 16 {
            assert(hex_num(s@.take(k + 1)) > 0x7fff_ffff_ffff_ffffu64) by (nonlinear_arith)
                requires
                    hex_num(s@.take(k + 1)) == v * 16 + d,
                    v > (0x7fff_ffff_ffff_ffffu64 - d) / 16,
                    d < 16,
            ;
            proof {
                lemma_hex_num_prefix(s@, k + 1);
            }
            return None;
        }
        assert(v * 16 + d <= 0x7fff_ffff_ffff_ffffu64) by (nonlinear_arith)
            requires
                v <= (0x7fff_ffff_ffff_ffffu64 - d) / 16,
                d < 16,
        ;
        v = v * 16 + d;
        k = k + 1;
    }
    assert(s@.take(s@.len() as int) =~= s@);
    Some(v as i64)
}

/// A value of a prefix of hexadecimal digits bounds the value of the
/// whole.
proof fn lemma_hex_num_prefix(s: Seq<char>, k: int)
    requires
        0 <= k <= s.len(),
        all_hex(s),
    ensures
        hex_num(s.take(k)) <= hex_num(s),
    decreases s.len() - k,
{
    if k < s.len() {
        lemma_hex_num_prefix(s, k + 1);
        assert(s.take(k + 1).drop_last() =~= s.take(k));
    } else {
        assert(s.take(k) =~= s);
    }
}

impl Tokenizer {
    fn read_number(&mut self, first: char) -> (t: Token)
        requires
            old(self).wf(),
            old(self).col >= 1,
        ensures
            final(self).indent_stack == old(self).indent_stack,
            final(self).pos >= old(self).pos,
            final(self).wf(),
            final(self).src == old(self).src,
            (final(self).state(), token_view(t)) == number_spec(old(self).src@, old(self).state(), first),
    {
        let ghost src = self.src@;
        let ghost v0 = self.state();
        let start_col = self.col - 1;
        let mut text: Vec<char> = vec![first];
        let mut lexeme = char_string(first);
        let hex = first == '0' && match self.peek_char() {
            Some(c) => c == 'x' || c == 'X',
            None => false,
        };
        let mut body: Vec<char> = Vec::new();
        if hex {
            let x = match self.peek_char() {
                Some(c) => c,
                None => 'x',
            };
            let ghost before = self.state();
            text.push(x);
            let cs = char_string(x);
            lexeme.append(cs.as_str());
            self.advance();
            proof {
                lemma_adv_to_step(src, v0, before.pos);
                assert(text@ =~= seq![first] + src.subrange(v0.pos, self.pos as int));
            }
            loop
                invariant
                    self.indent_stack == old(self).indent_stack,
                    self.pos >= old(self).pos,
                    self.wf(),
                    self.src@ == src,
                    self.src == old(self).src,
                    v0.pos + 1 <= self.pos,
                    is_hex_literal(src, v0.pos, first),
                    hex_end(src, self.pos as int) == hex_end(src, v0.pos + 1),
                    self.state() == adv_to(src, v0, self.pos as int),
                    text@ == seq![first] + src.subrange(v0.pos, self.pos as int),
                    body@ == src.subrange(v0.pos + 1, self.pos as int),
                    lexeme@ == text@,
                    start_col == v0.col - 1,
                ensures
                    hex_end(src, self.pos as int) == self.pos,
                decreases src.len() - self.pos,
            {
                let ch = match self.peek_char() {
                    Some(c) => c,
                    None => break,
                };
                if !(is_hex_char(ch) || ch == '_') {
                    break;
                }
                let ghost before = self.state();
                text.push(ch);
                body.push(ch);
                let cs = char_string(ch);
                lexeme.append(cs.as_str());
                self.advance();
                proof {
                    lemma_adv_to_step(src, v0, before.pos);
                    assert(text@ =~= seq![first] + src.subrange(v0.pos, self.pos as int));
                    assert(body@ =~= src.subrange(v0.pos + 1, self.pos as int));
                }
            }
            assert(body@ =~= text@.subrange(2, text@.len() as int));
        } else {
            let mut prev = first;
            loop
                invariant
                    self.indent_stack == old(self).indent_stack,
                    self.pos >= old(self).pos,
                    self.wf(),
                    self.src@ == src,
                    self.src == old(self).src,
                    v0.pos <= self.pos,
                    !is_hex_literal(src, v0.pos, first),
                    dec_end(src, self.pos as int, prev) == dec_end(src, v0.pos, first),
                    self.state() == adv_to(src, v0, self.pos as int),
                    text@ == seq![first] + src.subrange(v0.pos, self.pos as int),
                    lexeme@ == text@,
                    start_col == v0.col - 1,
                ensures
                    dec_end(src, self.pos as int, prev) == self.pos,
                decreases src.len() - self.pos,
            {
                let ch = match self.peek_char() {
                    Some(c) => c,
                    None => break,
                };
                if !dec_char(prev, ch) {
                    break;
                }
                let ghost before = self.state();
                text.push(ch);
                let cs = char_string(ch);
                lexeme.append(cs.as_str());
                self.advance();
                prev = ch;
                proof {
                    lemma_adv_to_step(src, v0, before.pos);
                    assert(text@ =~= seq![first] + src.subrange(v0.pos, self.pos as int));
                }
            }
        }
        let is_float = !hex && (has_char(&text, '.') || has_char(&text, 'e') || has_char(&text, 'E'));
        let t = if is_float {
            Token {
                kind: TokenKind::Float,
                lexeme,
                line: self.line,
                col: start_col,
                string_id: None,
                int_value: None,
            }
        } else {
            let read = if hex {
                let digits = without_underscores(&body);
                parse_hex_chars(&digits)
            } else {
                let digits = without_underscores(&text);
                parse_i64_chars(&digits)
            };
            let value = match read {
                Some(x) => x,
                None => 0,
            };
            Token {
                kind: TokenKind::Int,
                lexeme,
                line: self.line,
                col: start_col,
                string_id: None,
                int_value: Some(value),
            }
        };
        assert(token_view(t) =~= number_spec(src, v0, first).1);
        t
    }
}

/// `s` with `c` added at its end.
fn push_char(s: &mut String, c: char)
    ensures
        final(s)@ == old(s)@.push(c),
{
    let cs = char_string(c);
    s.append(cs.as_str());
}

/// Whether `c` is a hexadecimal digit.
fn is_hex_char(c: char) -> (r: bool)
    ensures
        r == is_hex_digit(c),
{
    ('0' <= c && c <= '9') || ('a' <= c && c <= 'f') || ('A' <= c && c <= 'F')
}

/// The character with the code `d`, below 256.
fn byte_char(d: u32) -> (c: char)
    requires
        d < 256,
    ensures
        c == (d as u8) as char,
{
    (d as u8) as char
}

impl Tokenizer {
    fn read_escape(&mut self) -> (c: char)
        requires
            old(self).wf(),
        ensures
            final(self).indent_stack == old(self).indent_stack,
            final(self).wf(),
            final(self).src == old(self).src,
            (final(self).state(), c) == escape_spec(old(self).src@, old(self).state()),
            final(self).pos >= old(self).pos,
    {
        match self.advance() {
            None => '\0',
            Some(e) => {
                if e == 'n' {
                    '\n'
                } else if e == 't' {
                    '\t'
                } else if e == 'r' {
                    '\r'
                } else if e == '\\' {
                    '\\'
                } else if e == '\'' {
                    '\''
                } else if e == '"' {
                    '"'
                } else if e == '0' {
                    '\0'
                } else if e == 'x' {
                    let d1 = match self.peek_char() {
                        Some(h) => if is_hex_char(h) {
                            hex_digit_value(h)
                        } else {
                            return '\0';
                        },
                        None => {
                            return '\0';
                        },
                    };
                    self.advance();
                    let d2 = match self.peek_char() {
                        Some(h) => if is_hex_char(h) {
                            hex_digit_value(h)
                        } else {
                            return byte_char(d1);
                        },
                        None => {
                            return byte_char(d1);
                        },
                    };
                    self.advance();
                    byte_char(d1 * 16 + d2)
                } else {
                    e
                }
            },
        }
    }
}

impl Tokenizer {
    fn read_short_body(&mut self, quote: char, raw: bool) -> (content: String)
        requires
            old(self).wf(),
        ensures
            final(self).indent_stack == old(self).indent_stack,
            final(self).pos >= old(self).pos,
            content@.len() <= final(self).pos - old(self).pos,
            final(self).wf(),
            final(self).src == old(self).src,
            (final(self).state(), content@) == short_string_spec(
                old(self).src@,
                old(self).state(),
                quote,
                raw,
                Seq::empty(),
            ),
    {
        let ghost src = self.src@;
        let ghost target = short_string_spec(src, self.state(), quote, raw, Seq::empty());
        let mut content = String::new();
        loop
            invariant_except_break
                short_string_spec(src, self.state(), quote, raw, content@) == target,
            invariant
                self.indent_stack == old(self).indent_stack,
                self.pos >= old(self).pos,
                content@.len() <= self.pos - old(self).pos,
                self.wf(),
                self.src@ == src,
                self.src == old(self).src,
            ensures
                (self.state(), content@) == target,
            decreases src.len() - self.pos,
        {
            match self.advance() {
                None => break,
                Some(ch) => {
                    if ch == quote {
                        break;
                    }
                    if ch == '\\' && !raw {
                        let e = self.read_escape();
                        push_char(&mut content, e);
                    } else {
                        push_char(&mut content, ch);
                    }
                },
            }
        }
        content
    }

    fn read_long_body(&mut self, quote: char, raw: bool) -> (content: String)
        requires
            old(self).wf(),
        ensures
            final(self).indent_stack == old(self).indent_stack,
            final(self).pos >= old(self).pos,
            content@.len() <= final(self).pos - old(self).pos,
            final(self).wf(),
            final(self).src == old(self).src,
            (final(self).state(), content@) == long_string_spec(
                old(self).src@,
                old(self).state(),
                quote,
                raw,
                Seq::empty(),
            ),
    {
        let ghost src = self.src@;
        let ghost target = long_string_spec(src, self.state(), quote, raw, Seq::empty());
        let mut content = String::new();
        loop
            invariant_except_break
                long_string_spec(src, self.state(), quote, raw, content@) == target,
            invariant
                self.indent_stack == old(self).indent_stack,
                self.pos >= old(self).pos,
                content@.len() <= self.pos - old(self).pos,
                self.wf(),
                self.src@ == src,
                self.src == old(self).src,
            ensures
                (self.state(), content@) == target,
            decreases src.len() - self.pos,
        {
            match self.advance() {
                None => break,
                Some(ch) => {
                    if ch == quote {
                        if self.peek_char() == Some(quote) {
                            self.advance();
                            if self.peek_char() == Some(quote) {
                                self.advance();
                                break;
                            } else {
                                push_char(&mut content, quote);
                                push_char(&mut content, quote);
                            }
                        } else {
                            push_char(&mut content, quote);
                        }
                    } else if ch == '\\' && !raw {
                        let e = self.read_escape();
                        push_char(&mut content, e);
                    } else {
                        push_char(&mut content, ch);
                    }
                },
            }
        }
        content
    }

    fn read_string(&mut self, quote: char, prefix: &Vec<char>) -> (t: Token)
        requires
            old(self).wf(),
        ensures
            final(self).indent_stack == old(self).indent_stack,
            final(self).pos >= old(self).pos,
            final(self).wf(),
            final(self).src == old(self).src,
            (final(self).state(), token_view(t)) == string_spec(
                old(self).src@,
                old(self).state(),
                quote,
                prefix@,
            ),
            old(self).pos >= 1 ==> t.lexeme@.len() < old(self).src@.len(),
    {
        let ghost src = self.src@;
        let ghost v0 = self.state();
        let n = prefix.len();
        let start_col = if self.col > n {
            self.col - n - 1
        } else {
            0
        };
        let is_raw = has_char(prefix, 'r') || has_char(prefix, 'R');
        let is_fstring = has_char(prefix, 'f') || has_char(prefix, 'F');
        let triple = self.pos + 1 < self.src.len() && self.src[self.pos] == quote && self.src[self.pos
            + 1] == quote;
        let content = if triple {
            self.advance();
            self.advance();
            self.read_long_body(quote, is_raw)
        } else {
            self.read_short_body(quote, is_raw)
        };
        let kind = if is_fstring {
            TokenKind::FStringStart
        } else {
            TokenKind::String(content.clone())
        };
        let t = Token {
            kind,
            lexeme: content,
            line: self.line,
            col: start_col,
            string_id: None,
            int_value: None,
        };
        assert(token_view(t) =~= string_spec(src, v0, quote, prefix@).1);
        t
    }
}

impl Tokenizer {
    fn skip_whitespace_on_line(&mut self)
        requires
            old(self).wf(),
        ensures
            final(self).indent_stack == old(self).indent_stack,
            final(self).pos >= old(self).pos,
            final(self).wf(),
            final(self).src == old(self).src,
            final(self).state() == skip_blanks(old(self).src@, old(self).state()),
            final(self).pos >= old(self).pos,
    {
        let ghost src = self.src@;
        let ghost v0 = self.state();
        loop
            invariant
                self.indent_stack == old(self).indent_stack,
                self.pos >= old(self).pos,
                self.wf(),
                self.src@ == src,
                self.src == old(self).src,
                v0.pos <= self.pos,
                blank_end(src, self.pos as int) == blank_end(src, v0.pos),
                self.state() == adv_to(src, v0, self.pos as int),
            ensures
                blank_end(src, self.pos as int) == self.pos,
            decreases src.len() - self.pos,
        {
            let ch = match self.peek_char() {
                Some(c) => c,
                None => break,
            };
            if !(ch == ' ' || ch == '\t') {
                break;
            }
            let ghost before = self.state();
            self.advance();
            proof {
                lemma_adv_to_step(src, v0, before.pos);
            }
        }
    }

    fn skip_comment(&mut self)
        requires
            old(self).wf(),
        ensures
            final(self).indent_stack == old(self).indent_stack,
            final(self).pos >= old(self).pos,
            final(self).wf(),
            final(self).src == old(self).src,
            final(self).state() == skip_comment(old(self).src@, old(self).state()),
            old(self).pos < old(self).src@.len() && old(self).src@[old(self).pos as int] != '\n'
                ==> final(self).pos > old(self).pos,
    {
        let ghost src = self.src@;
        let ghost v0 = self.state();
        loop
            invariant
                self.indent_stack == old(self).indent_stack,
                self.pos >= old(self).pos,
                self.wf(),
                self.src@ == src,
                self.src == old(self).src,
                v0.pos <= self.pos,
                line_end(src, self.pos as int) == line_end(src, v0.pos),
                self.state() == adv_to(src, v0, self.pos as int),
            ensures
                line_end(src, self.pos as int) == self.pos,
            decreases src.len() - self.pos,
        {
            let ch = match self.peek_char() {
                Some(c) => c,
                None => break,
            };
            if ch == '\n' {
                break;
            }
            let ghost before = self.state();
            self.advance();
            proof {
                lemma_adv_to_step(src, v0, before.pos);
            }
        }
        proof {
            if v0.pos < src.len() && src[v0.pos] != '\n' {
                lemma_line_end_ge(src, v0.pos + 1);
            }
        }
    }

    fn count_indent(&mut self) -> (indent: usize)
        requires
            old(self).wf(),
        ensures
            final(self).indent_stack == old(self).indent_stack,
            final(self).wf(),
            final(self).src == old(self).src,
            (indent as int, final(self).state()) == indent_spec(
                old(self).src@,
                old(self).state(),
                old(self).pos as int,
                0,
            ),
            final(self).pos >= old(self).pos,
            final(self).line == old(self).line,
            final(self).paren_depth == old(self).paren_depth,
            indent > 0 ==> final(self).pos > old(self).pos,
    {
        let ghost src = self.src@;
        let ghost target = indent_spec(src, self.state(), self.pos as int, 0);
        let saved_pos = self.pos;
        let mut indent: usize = 0;
        loop
            invariant_except_break
                indent_spec(src, self.state(), saved_pos as int, indent as int) == target,
            invariant
                self.indent_stack == old(self).indent_stack,
                self.pos >= old(self).pos,
                self.wf(),
                self.src@ == src,
                self.src == old(self).src,
                saved_pos <= self.pos,
                self.line == old(self).line,
                self.paren_depth == old(self).paren_depth,
                old(self).wf(),
                saved_pos == old(self).pos,
                indent > 0 ==> self.pos > saved_pos,
            ensures
                (indent as int, self.state()) == target,
                saved_pos <= self.pos,
                indent > 0 ==> self.pos > saved_pos,
            decreases src.len() - self.pos,
        {
            if self.pos >= self.src.len() {
                break;
            }
            let c = self.src[self.pos];
            if c == ' ' || c == '\t' {
                let k: usize = if c == ' ' {
                    1
                } else {
                    4
                };
                indent = if indent > usize::MAX - k {
                    usize::MAX
                } else {
                    indent + k
                };
                self.pos = self.pos + 1;
                if self.col < usize::MAX {
                    self.col = self.col + 1;
                }
            } else if c == '#' || c == '\n' {
                self.pos = saved_pos;
                indent = 0;
                break;
            } else {
                break;
            }
        }
        indent
    }

    fn handle_indent(&mut self, current_indent: usize) -> (r: Option<Token>)
        requires
            old(self).wf(),
        ensures
            final(self).wf(),
            final(self).src == old(self).src,
            match r {
                Some(t) => handle_indent_spec(old(self).state(), current_indent) == Some(
                    (final(self).state(), token_view(t)),
                ),
                None => handle_indent_spec(old(self).state(), current_indent) is None
                    && final(self).state() == old(self).state(),
            },
            final(self).pos == old(self).pos,
            match r {
                Some(t) => (t.kind is Indent && current_indent > 0 && final(self).indent_stack@.len()
                    == old(self).indent_stack@.len() + 1) || (t.kind is Dedent
                    && final(self).indent_stack@.len() + 1 == old(self).indent_stack@.len()),
                None => true,
            },
    {
        proof {
            reveal_strlit("");
        }
        let ghost v = self.state();
        let last_indent = self.indent_stack[self.indent_stack.len() - 1];
        if current_indent > last_indent {
            self.indent_stack.push(current_indent);
            assert(self.state() =~= TokView { stack: v.stack.push(current_indent), ..v });
            Some(self.make_token(TokenKind::Indent, ""))
        } else if current_indent < last_indent {
            if self.indent_stack.len() > 1 {
                self.indent_stack.pop();
                assert(self.state() =~= TokView { stack: v.stack.drop_last(), ..v });
            }
            Some(self.make_token(TokenKind::Dedent, ""))
        } else {
            None
        }
    }
}

impl Tokenizer {
    fn read_operator(&mut self, ch: char) -> (t: Token)
        requires
            old(self).wf(),
            old(self).paren_depth < old(self).pos,
        ensures
            final(self).indent_stack == old(self).indent_stack,
            final(self).pos >= old(self).pos,
            final(self).wf(),
            final(self).src == old(self).src,
            (final(self).state(), token_view(t)) == op_spec(old(self).src@, old(self).state(), ch),
    {
        if ch == '+' || ch == '-' || ch == '*' || ch == '/' || ch == '%' {
            self.read_arith_operator(ch)
        } else if ch == '=' || ch == '!' || ch == '<' || ch == '>' {
            self.read_compare_operator(ch)
        } else {
            self.read_other_operator(ch)
        }
    }

    fn read_arith_operator(&mut self, ch: char) -> (t: Token)
        requires
            old(self).wf(),
            old(self).paren_depth < old(self).pos,
            ch == '+' || ch == '-' || ch == '*' || ch == '/' || ch == '%',
        ensures
            final(self).indent_stack == old(self).indent_stack,
            final(self).pos >= old(self).pos,
            final(self).wf(),
            final(self).src == old(self).src,
            (final(self).state(), token_view(t)) == op_spec(old(self).src@, old(self).state(), ch),
    {
        if ch == '+' {
            if self.peek_char() == Some('=') {
                self.advance();
                self.make_token(TokenKind::PlusEq, "+=")
            } else {
                self.make_token(TokenKind::Plus, "+")
            }
        } else if ch == '-' {
            if self.peek_char() == Some('=') {
                self.advance();
                self.make_token(TokenKind::MinusEq, "-=")
            } else if self.peek_char() == Some('>') {
                self.advance();
                self.make_token(TokenKind::Arrow, "->")
            } else {
                self.make_token(TokenKind::Minus, "-")
            }
        } else if ch == '*' {
            if self.peek_char() == Some('=') {
                self.advance();
                self.make_token(TokenKind::StarEq, "*=")
            } else if self.peek_char() == Some('*') {
                self.advance();
                if self.peek_char() == Some('=') {
                    self.advance();
                    self.make_token(TokenKind::DoubleStarEq, "**=")
                } else {
                    self.make_token(TokenKind::DoubleStar, "**")
                }
            } else {
                self.make_token(TokenKind::Star, "*")
            }
        } else if ch == '/' {
            if self.peek_char() == Some('=') {
                self.advance();
                self.make_token(TokenKind::SlashEq, "/=")
            } else if self.peek_char() == Some('/') {
                self.advance();
                self.make_token(TokenKind::FloorDiv, "//")
            } else {
                self.make_token(TokenKind::Slash, "/")
            }
        } else if ch == '%' {
            if self.peek_char() == Some('=') {
                self.advance();
                self.make_token(TokenKind::PercentEq, "%=")
            } else {
                self.make_token(TokenKind::Percent, "%")
            }
        } else {
            self.make_token(TokenKind::Plus, "+")
        }
    }

    fn read_compare_operator(&mut self, ch: char) -> (t: Token)
        requires
            old(self).wf(),
            old(self).paren_depth < old(self).pos,
            ch == '=' || ch == '!' || ch == '<' || ch == '>',
        ensures
            final(self).indent_stack == old(self).indent_stack,
            final(self).pos >= old(self).pos,
            final(self).wf(),
            final(self).src == old(self).src,
            (final(self).state(), token_view(t)) == op_spec(old(self).src@, old(self).state(), ch),
    {
        if ch == '=' {
            if self.peek_char() == Some('=') {
                self.advance();
                self.make_token(TokenKind::EqEq, "==")
            } else {
                self.make_token(TokenKind::Eq, "=")
            }
        } else if ch == '!' {
            if self.peek_char() == Some('=') {
                self.advance();
                self.make_token(TokenKind::NotEq, "!=")
            } else {
                self.make_token(TokenKind::Not, "!")
            }
        } else if ch == '<' {
            if self.peek_char() == Some('=') {
                self.advance();
                self.make_token(TokenKind::LtE, "<=")
            } else if self.peek_char() == Some('<') {
                self.advance();
                self.make_token(TokenKind::LShift, "<<")
            } else {
                self.make_token(TokenKind::Lt, "<")
            }
        } else if ch == '>' {
            if self.peek_char() == Some('=') {
                self.advance();
                self.make_token(TokenKind::GtE, ">=")
            } else if self.peek_char() == Some('>') {
                self.advance();
                self.make_token(TokenKind::RShift, ">>")
            } else {
                self.make_token(TokenKind::Gt, ">")
            }
        } else {
            self.make_token(TokenKind::Plus, "+")
        }
    }

    fn read_bracket(&mut self, ch: char) -> (t: Token)
        requires
            old(self).wf(),
            old(self).paren_depth < old(self).pos,
            ch == '(' || ch == '[' || ch == '{' || ch == ')' || ch == ']' || ch == '}',
        ensures
            final(self).indent_stack == old(self).indent_stack,
            final(self).pos >= old(self).pos,
            final(self).wf(),
            final(self).src == old(self).src,
            (final(self).state(), token_view(t)) == op_spec(old(self).src@, old(self).state(), ch),
    {
        let text = char_string(ch);
        if ch == '(' {
            let ghost v = self.state();
            self.paren_depth = self.paren_depth + 1;
            assert(self.state() =~= TokView { paren_depth: v.paren_depth + 1, ..v });
            self.make_token(TokenKind::LParen, text.as_str())
        } else if ch == '[' {
            let ghost v = self.state();
            self.paren_depth = self.paren_depth + 1;
            assert(self.state() =~= TokView { paren_depth: v.paren_depth + 1, ..v });
            self.make_token(TokenKind::LBracket, text.as_str())
        } else if ch == '{' {
            let ghost v = self.state();
            self.paren_depth = self.paren_depth + 1;
            assert(self.state() =~= TokView { paren_depth: v.paren_depth + 1, ..v });
            self.make_token(TokenKind::LBrace, text.as_str())
        } else if ch == ')' {
            let ghost v = self.state();
            if self.paren_depth > 0 {
                self.paren_depth = self.paren_depth - 1;
            }
            assert(self.state() =~= TokView {
                paren_depth: if v.paren_depth > 0 {
                    v.paren_depth - 1
                } else {
                    0
                },
                ..v
            });
            self.make_token(TokenKind::RParen, text.as_str())
        } else if ch == ']' {
            let ghost v = self.state();
            if self.paren_depth > 0 {
                self.paren_depth = self.paren_depth - 1;
            }
            assert(self.state() =~= TokView {
                paren_depth: if v.paren_depth > 0 {
                    v.paren_depth - 1
                } else {
                    0
                },
                ..v
            });
            self.make_token(TokenKind::RBracket, text.as_str())
        } else {
            assert(ch == '}');
            let ghost v = self.state();
            if self.paren_depth > 0 {
                self.paren_depth = self.paren_depth - 1;
            }
            assert(self.state() =~= TokView {
                paren_depth: if v.paren_depth > 0 {
                    v.paren_depth - 1
                } else {
                    0
                },
                ..v
            });
            self.make_token(TokenKind::RBrace, text.as_str())
        }
    }

    fn read_other_operator(&mut self, ch: char) -> (t: Token)
        requires
            old(self).wf(),
            old(self).paren_depth < old(self).pos,
            !(ch == '+' || ch == '-' || ch == '*' || ch == '/' || ch == '%' || ch == '=' || ch == '!' || ch == '<' || ch == '>'),
        ensures
            final(self).indent_stack == old(self).indent_stack,
            final(self).pos >= old(self).pos,
            final(self).wf(),
            final(self).src == old(self).src,
            (final(self).state(), token_view(t)) == op_spec(old(self).src@, old(self).state(), ch),
    {
        if ch == '&' {
            self.make_token(TokenKind::BitAnd, "&")
        } else if ch == '|' {
            self.make_token(TokenKind::BitOr, "|")
        } else if ch == '^' {
            self.make_token(TokenKind::BitXor, "^")
        } else if ch == '~' {
            self.make_token(TokenKind::BitNot, "~")
        } else if ch == '@' {
            self.make_token(TokenKind::At, "@")
        } else if ch == '.' {
            if self.peek_char() == Some('.') {
                self.advance();
                if self.peek_char() == Some('.') {
                    self.advance();
                    self.make_token(TokenKind::Ellipsis, "...")
                } else {
                    self.make_token(TokenKind::Dot, "..")
                }
            } else {
                self.make_token(TokenKind::Dot, ".")
            }
        } else if ch == ':' {
            if self.peek_char() == Some('=') {
                self.advance();
                self.make_token(TokenKind::Walrus, ":=")
            } else {
                self.make_token(TokenKind::Colon, ":")
            }
        } else if ch == '(' || ch == '[' || ch == '{' || ch == ')' || ch == ']' || ch == '}' {
            self.read_bracket(ch)
        } else if ch == ',' {
            self.make_token(TokenKind::Comma, ",")
        } else if ch == ';' {
            self.make_token(TokenKind::Semicolon, ";")
        } else {
            let text = char_string(ch);
            self.make_token(TokenKind::Name(text.clone()), text.as_str())
        }
    }
}

impl Tokenizer {
    /// The token at the current position, which holds a character that is
    /// not a blank, a newline or the start of a comment.
    fn lex(&mut self) -> (t: Token)
        requires
            old(self).wf(),
            old(self).pos < old(self).src@.len(),
        ensures
            final(self).indent_stack == old(self).indent_stack,
            final(self).pos >= old(self).pos,
            final(self).wf(),
            final(self).src == old(self).src,
            (final(self).state(), token_view(t)) == lex_spec(old(self).src@, old(self).state()),
            final(self).pos > old(self).pos,
            t.kind is FStringStart ==> t.lexeme@.len() < old(self).src@.len(),
    {
        let ghost src = self.src@;
        let ghost v0 = self.state();
        let ch = self.src[self.pos];
        if ch == '"' || ch == '\'' {
            self.advance();
            let empty: Vec<char> = Vec::new();
            assert(empty@ =~= Seq::<char>::empty());
            return self.read_string(ch, &empty);
        }
        if is_prefix_letter(ch) && self.pos + 1 < self.src.len() {
            let mut prefix: Vec<char> = Vec::new();
            let mut peek_pos = self.pos;
            while peek_pos < self.src.len() && is_prefix_letter(self.src[peek_pos])
                invariant
                self.indent_stack == old(self).indent_stack,
                self.pos >= old(self).pos,
                    self.src@ == src,
                    self.state() == v0,
                    v0.pos <= peek_pos <= src.len(),
                    prefix_end(src, peek_pos as int) == prefix_end(src, v0.pos),
                    prefix@ == src.subrange(v0.pos, peek_pos as int),
                decreases src.len() - peek_pos,
            {
                prefix.push(self.src[peek_pos]);
                peek_pos = peek_pos + 1;
                assert(prefix@ =~= src.subrange(v0.pos, peek_pos as int));
            }
            assert(prefix_end(src, peek_pos as int) == peek_pos);
            if peek_pos < self.src.len() {
                let q = self.src[peek_pos];
                if q == '"' || q == '\'' {
                    let mut k: usize = 0;
                    while k < prefix.len()
                        invariant
                self.indent_stack == old(self).indent_stack,
                self.pos >= old(self).pos,
                            self.wf(),
                            self.src@ == src,
                            self.src == old(self).src,
                            k <= prefix@.len(),
                            v0.pos + prefix@.len() == peek_pos,
                            peek_pos < src.len(),
                            self.state() == adv_to(src, v0, v0.pos + k),
                        decreases prefix@.len() - k,
                    {
                        let ghost before = self.state();
                        self.advance();
                        proof {
                            lemma_adv_to_step(src, v0, v0.pos + k);
                        }
                        k = k + 1;
                    }
                    proof {
                        lemma_adv_to_step(src, v0, peek_pos as int);
                    }
                    self.advance();
                    return self.read_string(q, &prefix);
                }
            }
        }
        if '0' <= ch && ch <= '9' {
            self.advance();
            return self.read_number(ch);
        }
        if is_alphabetic(ch) || ch == '_' {
            return self.read_identifier();
        }
        self.advance();
        self.read_operator(ch)
    }
}

/// Whether `c` may stand in a string prefix.
fn is_prefix_letter(c: char) -> (r: bool)
    ensures
        r == is_prefix_char(c),
{
    c == 'f' || c == 'F' || c == 'r' || c == 'R' || c == 'b' || c == 'B'
}

impl Tokenizer {
    fn layout(&mut self) -> (r: Option<Token>)
        requires
            old(self).wf(),
        ensures
            final(self).wf(),
            final(self).src == old(self).src,
            final(self).pos >= old(self).pos,
            layout_spec(old(self).src@, old(self).state()) == (
                final(self).state(),
                match r {
                    Some(t) => Some(token_view(t)),
                    None => None::<TokenView>,
                },
            ),
            match r {
                Some(t) => (t.kind is Indent && final(self).pos > old(self).pos
                    && final(self).indent_stack@.len() == old(self).indent_stack@.len() + 1) || (t.kind is Dedent
                    && final(self).indent_stack@.len() + 1 == old(self).indent_stack@.len()),
                None => final(self).indent_stack@ == old(self).indent_stack@,
            },
    {
        if self.at_line_start && self.paren_depth == 0 {
            let saved_pos = self.pos;
            let saved_col = self.col;
            let indent = self.count_indent();
            match self.handle_indent(indent) {
                Some(tok) => {
                    let is_dedent = match tok.kind {
                        TokenKind::Dedent => true,
                        _ => false,
                    };
                    if is_dedent && self.indent_stack[self.indent_stack.len() - 1] > indent {
                        self.pos = saved_pos;
                        self.col = saved_col;
                    } else {
                        self.at_line_start = false;
                    }
                    Some(tok)
                },
                None => {
                    self.at_line_start = false;
                    None
                },
            }
        } else {
            self.at_line_start = false;
            None
        }
    }

    /// The next token: at the start of a line an `Indent` or `Dedent` where
    /// the indentation changes (one `Dedent` per level closed), then past
    /// blanks and comments a `Newline` (only outside brackets), a literal,
    /// a name or keyword, or an operator; at the end of the source one
    /// `Dedent` per open level, then `EndOfFile` from then on.
    pub fn next(&mut self) -> (t: Token)
        requires
            old(self).wf(),
        ensures
            final(self).wf(),
            final(self).source() == old(self).source(),
            (final(self).state(), token_view(t)) == next_spec(old(self).source(), old(self).state()),
            t.kind is EndOfFile || 3 * final(self).state().pos - final(self).state().stack.len() > 3
                * old(self).state().pos - old(self).state().stack.len(),
            final(self).state().pos >= old(self).state().pos,
            t.kind is FStringStart ==> t.lexeme@.len() < old(self).source().len(),
    {
        let ghost src = self.src@;
        let ghost target = next_spec(src, self.state());
        loop
            invariant
                self.wf(),
                self.src@ == src,
                src == old(self).src@,
                target == next_spec(old(self).src@, old(self).state()),
                next_spec(src, self.state()) == target,
                self.pos >= old(self).pos,
                self.indent_stack@ == old(self).indent_stack@,
            decreases src.len() - self.pos,
        {
            let ghost v = self.state();
            match self.layout() {
                Some(tok) => {
                    return tok;
                },
                None => {},
            }
            let ghost v1 = self.state();
            self.skip_whitespace_on_line();
            if self.peek_char() == Some('#') {
                self.skip_comment();
                continue ;
            }
            if self.peek_char() == Some('\n') {
                self.advance();
                self.at_line_start = true;
                if self.paren_depth == 0 {
                    let nl = char_string('\n');
                    return self.make_token(TokenKind::Newline, nl.as_str());
                }
                self.at_line_start = false;
                continue ;
            }
            if self.pos >= self.src.len() {
                proof {
                    reveal_strlit("");
                }
                if self.indent_stack.len() > 1 {
                    self.indent_stack.pop();
                    return self.make_token(TokenKind::Dedent, "");
                }
                return self.make_token(TokenKind::EndOfFile, "");
            }
            return self.lex();
        }
    }
}

/// Every token of `source`, the last being `EndOfFile`.
pub fn tokenize(source: &str) -> (r: Vec<Token>)
    requires
        source@.len() < usize::MAX / 8,
    ensures
        r@.map_values(|t: Token| token_view(t)) == token_stream(source@, start_view()),
        r@.len() >= 1,
        r@.last().kind is EndOfFile,
        r@.len() <= 3 * source@.len() + 2,
        forall|i: int|
            0 <= i < r@.len() && (#[trigger] r@[i]).kind is FStringStart ==> r@[i].lexeme@.len()
                < source@.len(),
{
    let mut t = Tokenizer::new(source);
    let mut out: Vec<Token> = Vec::new();
    assert(out@.map_values(|x: Token| token_view(x)) =~= Seq::<TokenView>::empty());
    assert(t.state() == start_view());
    loop
        invariant_except_break
            out@.map_values(|x: Token| token_view(x)) + token_stream(source@, t.state())
                == token_stream(source@, start_view()),
            out@.len() + 3 * (source@.len() - t.state().pos) + t.state().stack.len() <= 3
                * source@.len() + 1,
        invariant
            t.wf(),
            t.source() == source@,
            t.state().pos <= source@.len(),
            t.state().stack.len() >= 1,
            forall|i: int|
                0 <= i < out@.len() && (#[trigger] out@[i]).kind is FStringStart ==> out@[i].lexeme@.len()
                    < source@.len(),
        ensures
            out@.map_values(|x: Token| token_view(x)) == token_stream(source@, start_view()),
            out@.len() >= 1,
            out@.last().kind is EndOfFile,
            out@.len() <= 3 * source@.len() + 2,
            forall|i: int|
                0 <= i < out@.len() && (#[trigger] out@[i]).kind is FStringStart ==> out@[i].lexeme@.len()
                    < source@.len(),
        decreases source@.len() - t.state().pos, t.state().stack.len(),
    {
        let ghost before = t.state();
        let ghost done_views = out@.map_values(|x: Token| token_view(x));
        let tok = t.next();
        let done = match tok.kind {
            TokenKind::EndOfFile => true,
            _ => false,
        };
        let ghost tv = token_view(tok);
        out.push(tok);
        assert(out@.map_values(|x: Token| token_view(x)) =~= done_views.push(tv));
        if done {
            assert(token_stream(source@, before) == seq![tv]);
            assert(out@.map_values(|x: Token| token_view(x)) =~= done_views + seq![tv]);
            break;
        }
        assert(token_stream(source@, before) == seq![tv] + token_stream(source@, t.state()));
        assert(done_views.push(tv) + token_stream(source@, t.state()) =~= done_views + (seq![tv]
            + token_stream(source@, t.state())));
    }
    out
}

} // verus!
