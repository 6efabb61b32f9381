// The Python tokenizer: layout, literals, names and operators.

use utencore::py2uc::tokenizer::{Token, TokenKind, Tokenizer};

fn all_tokens(src: &str) -> Vec<Token> {
    let mut t = Tokenizer::new(src);
    let mut out = Vec::new();
    for _ in 0..1000 {
        let tok = t.next();
        let end = tok.kind == TokenKind::EndOfFile;
        out.push(tok);
        if end {
            break;
        }
    }
    out
}

fn kinds(src: &str) -> Vec<TokenKind> {
    all_tokens(src).into_iter().map(|t| t.kind).collect()
}

fn name(s: &str) -> TokenKind {
    TokenKind::Name(s.to_string())
}

#[test]
fn assignment_tokens() {
    assert_eq!(
        kinds("x = 1\n"),
        vec![name("x"), TokenKind::Eq, TokenKind::Int, TokenKind::Newline, TokenKind::EndOfFile]
    );
}

#[test]
fn indentation_opens_and_closes_blocks() {
    assert_eq!(
        kinds("if x:\n    y\nz\n"),
        vec![
            TokenKind::KwIf,
            name("x"),
            TokenKind::Colon,
            TokenKind::Newline,
            TokenKind::Indent,
            name("y"),
            TokenKind::Newline,
            TokenKind::Dedent,
            name("z"),
            TokenKind::Newline,
            TokenKind::EndOfFile,
        ]
    );
}

#[test]
fn one_dedent_per_closed_level() {
    let ks = kinds("if a:\n  if b:\n    c\nd\n");
    let dedents = ks.iter().filter(|k| **k == TokenKind::Dedent).count();
    assert_eq!(dedents, 2);
    assert_eq!(ks[ks.len() - 3], name("d"));
}

#[test]
fn open_levels_close_at_end_of_source() {
    assert_eq!(
        kinds("if a:\n  b"),
        vec![
            TokenKind::KwIf,
            name("a"),
            TokenKind::Colon,
            TokenKind::Newline,
            TokenKind::Indent,
            name("b"),
            TokenKind::Dedent,
            TokenKind::EndOfFile,
        ]
    );
}

#[test]
fn end_of_file_repeats() {
    let mut t = Tokenizer::new("");
    assert_eq!(t.next().kind, TokenKind::EndOfFile);
    assert_eq!(t.next().kind, TokenKind::EndOfFile);
}

#[test]
fn blank_and_comment_lines_keep_the_level() {
    assert_eq!(
        kinds("a\n\n# note\nb # trailing\n"),
        vec![
            name("a"),
            TokenKind::Newline,
            TokenKind::Newline,
            TokenKind::Newline,
            name("b"),
            TokenKind::Newline,
            TokenKind::EndOfFile,
        ]
    );
}

#[test]
fn newlines_inside_brackets_are_skipped() {
    assert_eq!(
        kinds("(1,\n 2)\n"),
        vec![
            TokenKind::LParen,
            TokenKind::Int,
            TokenKind::Comma,
            TokenKind::Int,
            TokenKind::RParen,
            TokenKind::Newline,
            TokenKind::EndOfFile,
        ]
    );
}

#[test]
fn keywords_and_names() {
    assert_eq!(
        kinds("def f lambda None True False"),
        vec![
            TokenKind::KwDef,
            name("f"),
            TokenKind::KwLambda,
            TokenKind::KwNone,
            TokenKind::KwTrue,
            TokenKind::KwFalse,
            TokenKind::EndOfFile,
        ]
    );
    assert_eq!(kinds("_x1")[0], name("_x1"));
}

#[test]
fn integer_values() {
    let toks = all_tokens("42 1_000 0 99999999999999999999");
    assert_eq!(toks[0].int_value, Some(42));
    assert_eq!(toks[1].int_value, Some(1000));
    assert_eq!(toks[1].lexeme, "1_000");
    assert_eq!(toks[2].int_value, Some(0));
    assert_eq!(toks[3].kind, TokenKind::Int);
    assert_eq!(toks[3].int_value, Some(0));
}

#[test]
fn largest_integer_is_read() {
    let toks = all_tokens("9223372036854775807");
    assert_eq!(toks[0].int_value, Some(i64::MAX));
}

#[test]
fn float_literals_keep_their_text() {
    let toks = all_tokens("3.25 1e5");
    assert_eq!(toks[0].kind, TokenKind::Float);
    assert_eq!(toks[0].lexeme, "3.25");
    assert_eq!(toks[0].int_value, None);
    assert_eq!(toks[1].kind, TokenKind::Float);
    assert_eq!(toks[1].lexeme, "1e5");
}

#[test]
fn string_escapes() {
    let toks = all_tokens("'a\\nb' \"q\\\"\" '\\x41\\x4' '\\0'");
    assert_eq!(toks[0].kind, TokenKind::String("a\nb".to_string()));
    assert_eq!(toks[1].kind, TokenKind::String("q\"".to_string()));
    assert_eq!(toks[2].kind, TokenKind::String("A\u{4}".to_string()));
    assert_eq!(toks[3].kind, TokenKind::String("\0".to_string()));
}

#[test]
fn raw_strings_keep_backslashes() {
    let toks = all_tokens("r'a\\nb'");
    assert_eq!(toks[0].kind, TokenKind::String("a\\nb".to_string()));
}

#[test]
fn triple_quoted_strings() {
    let toks = all_tokens("'''a'b''c\nd''' x");
    assert_eq!(toks[0].kind, TokenKind::String("a'b''c\nd".to_string()));
    assert_eq!(toks[1].kind, name("x"));
    assert_eq!(toks[1].line, 2);
}

#[test]
fn f_strings_start_a_template() {
    let toks = all_tokens("f'x={x}'");
    assert_eq!(toks[0].kind, TokenKind::FStringStart);
    assert_eq!(toks[0].lexeme, "x={x}");
    assert_eq!(toks[0].col, 0);
}

#[test]
fn unterminated_string_runs_to_the_end() {
    let toks = all_tokens("'abc");
    assert_eq!(toks[0].kind, TokenKind::String("abc".to_string()));
    assert_eq!(toks[1].kind, TokenKind::EndOfFile);
}

#[test]
fn compound_operators() {
    assert_eq!(
        kinds("**= -> ... := // != <= >> .. ** +="),
        vec![
            TokenKind::DoubleStarEq,
            TokenKind::Arrow,
            TokenKind::Ellipsis,
            TokenKind::Walrus,
            TokenKind::FloorDiv,
            TokenKind::NotEq,
            TokenKind::LtE,
            TokenKind::RShift,
            TokenKind::Dot,
            TokenKind::DoubleStar,
            TokenKind::PlusEq,
            TokenKind::EndOfFile,
        ]
    );
}

#[test]
fn unknown_character_becomes_a_name() {
    let toks = all_tokens("$");
    assert_eq!(toks[0].kind, name("$"));
    assert_eq!(toks[0].lexeme, "$");
}

#[test]
fn token_positions() {
    let toks = all_tokens("ab + c\n  d");
    assert_eq!((toks[0].line, toks[0].col), (1, 0));
    assert_eq!((toks[1].line, toks[1].col), (1, 3));
    assert_eq!((toks[2].line, toks[2].col), (1, 5));
    let d = toks.iter().find(|t| t.kind == name("d")).unwrap();
    assert_eq!((d.line, d.col), (2, 2));
}

#[test]
fn tabs_count_four() {
    let ks = kinds("if a:\n\tb\n    c\n");
    let indents = ks.iter().filter(|k| **k == TokenKind::Indent).count();
    let dedents = ks.iter().filter(|k| **k == TokenKind::Dedent).count();
    assert_eq!(indents, 1);
    assert_eq!(dedents, 1);
}

#[test]
fn signs_only_continue_an_exponent() {
    let toks = all_tokens("1-2");
    assert_eq!(toks.len(), 4);
    assert_eq!(toks[0].kind, TokenKind::Int);
    assert_eq!(toks[0].int_value, Some(1));
    assert_eq!(toks[1].kind, TokenKind::Minus);
    assert_eq!(toks[2].kind, TokenKind::Int);
    assert_eq!(toks[2].int_value, Some(2));
    assert_eq!(toks[3].kind, TokenKind::EndOfFile);
    let f = all_tokens("1e-5+x");
    assert_eq!(f[0].kind, TokenKind::Float);
    assert_eq!(f[0].lexeme, "1e-5");
    assert_eq!(f[1].kind, TokenKind::Plus);
}

#[test]
fn hexadecimal_literals() {
    let t = all_tokens("0x1F");
    assert_eq!(t[0].kind, TokenKind::Int);
    assert_eq!(t[0].lexeme, "0x1F");
    assert_eq!(t[0].int_value, Some(31));
    let e = all_tokens("0x1E");
    assert_eq!(e[0].kind, TokenKind::Int);
    assert_eq!(e[0].int_value, Some(30));
    let u = all_tokens("0xff_ff");
    assert_eq!(u[0].int_value, Some(65535));
    let big = all_tokens("0xffffffffffffffff");
    assert_eq!(big[0].int_value, Some(0));
    let dec = all_tokens("12ab");
    assert_eq!(dec[0].int_value, Some(12));
    assert_eq!(dec[1].kind, TokenKind::Name("ab".to_string()));
}

#[test]
fn blocks_balance_and_never_go_negative() {
    let src = "if a:\n    if b:\n        c = 1\n    d = 2\nelse:\n    e = 3\n";
    let mut depth: i64 = 0;
    let mut opened = 0;
    for t in all_tokens(src) {
        match t.kind {
            TokenKind::Indent => {
                depth += 1;
                opened += 1;
            },
            TokenKind::Dedent => depth -= 1,
            _ => {},
        }
        assert!(depth >= 0);
    }
    assert_eq!(depth, 0);
    assert_eq!(opened, 3);
}
