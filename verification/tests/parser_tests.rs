// The Python parser: statements, expressions, operator precedence and errors.

use utencore::py2uc::ast::{BinOp, BoolOp, CmpOp, Expr, FStringPart, Slice, Stmt, UnaryOp};
use utencore::bytecode::{verify_module, ModuleBuilder, UtenModule};
use utencore::py2uc::codegen::compile_into_builder;
use utencore::py2uc::grammar::debug_kind;
use utencore::py2uc::parser::Parser;
use utencore::py2uc::tokenizer::TokenKind;

fn parse(src: &str) -> Vec<Stmt> {
    let mut p = Parser::new(src, Vec::new());
    p.parse().expect("parses").stmts
}

fn parse_err(src: &str) -> String {
    let mut p = Parser::new(src, Vec::new());
    match p.parse() {
        Ok(_) => panic!("expected an error"),
        Err(e) => e,
    }
}

fn only_expr(src: &str) -> Expr {
    let mut stmts = parse(src);
    assert_eq!(stmts.len(), 1);
    match stmts.pop().unwrap() {
        Stmt::Expr(e) => e,
        other => panic!("not an expression statement: {:?}", other),
    }
}

fn is_name(e: &Expr, n: &str) -> bool {
    matches!(e, Expr::Name(x) if x == n)
}

#[test]
fn empty_source_has_no_statements() {
    assert!(parse("").is_empty());
    assert!(parse("\n\n\n").is_empty());
}

#[test]
fn simple_assignment() {
    let stmts = parse("x = 1 + 2\n");
    assert_eq!(stmts.len(), 1);
    match &stmts[0] {
        Stmt::Assign { targets, value, aug } => {
            assert_eq!(targets.len(), 1);
            assert!(is_name(&targets[0], "x"));
            assert!(aug.is_none());
            match value {
                Expr::BinOp { left, op, right } => {
                    assert!(matches!(**left, Expr::Int(1)));
                    assert_eq!(*op, BinOp::Add);
                    assert!(matches!(**right, Expr::Int(2)));
                }
                other => panic!("{:?}", other),
            }
        }
        other => panic!("{:?}", other),
    }
}

#[test]
fn augmented_and_tuple_assignment() {
    let stmts = parse("x += 3\na, b = pair\n");
    assert_eq!(stmts.len(), 2);
    assert!(matches!(&stmts[0], Stmt::Assign { aug: Some(BinOp::Add), targets, .. } if targets.len() == 1));
    match &stmts[1] {
        Stmt::Assign { targets, value, aug } => {
            assert!(aug.is_none());
            assert_eq!(targets.len(), 2);
            assert!(is_name(&targets[0], "a"));
            assert!(is_name(&targets[1], "b"));
            assert!(is_name(value, "pair"));
        }
        other => panic!("{:?}", other),
    }
    // The value is one expression: a comma after it starts nothing.
    assert_eq!(parse_err("a, b = b, a\n"), "Unexpected token: Comma");
}

#[test]
fn starred_target_and_annotation() {
    let stmts = parse("first, *rest = items\ny: int = 5\n");
    match &stmts[0] {
        Stmt::Assign { targets, .. } => {
            assert_eq!(targets.len(), 2);
            assert!(matches!(&targets[1], Expr::Starred(b) if is_name(b, "rest")));
        }
        other => panic!("{:?}", other),
    }
    match &stmts[1] {
        Stmt::Assign { targets, value, .. } => {
            assert!(is_name(&targets[0], "y"));
            assert!(matches!(value, Expr::Int(5)));
        }
        other => panic!("{:?}", other),
    }
}

#[test]
fn multiplication_binds_tighter_than_addition() {
    match only_expr("1 + 2 * 3\n") {
        Expr::BinOp { left, op: BinOp::Add, right } => {
            assert!(matches!(*left, Expr::Int(1)));
            assert!(matches!(*right, Expr::BinOp { op: BinOp::Mul, .. }));
        }
        other => panic!("{:?}", other),
    }
}

#[test]
fn power_is_right_associative() {
    match only_expr("2 ** 3 ** 2\n") {
        Expr::BinOp { left, op: BinOp::Pow, right } => {
            assert!(matches!(*left, Expr::Int(2)));
            assert!(matches!(*right, Expr::BinOp { op: BinOp::Pow, .. }));
        }
        other => panic!("{:?}", other),
    }
}

#[test]
fn boolean_operators_flatten() {
    match only_expr("a or b or c\n") {
        Expr::BoolOp { op: BoolOp::Or, values } => {
            assert_eq!(values.len(), 3);
            assert!(is_name(&values[2], "c"));
        }
        other => panic!("{:?}", other),
    }
    match only_expr("a and b or c\n") {
        Expr::BoolOp { op: BoolOp::Or, values } => {
            assert_eq!(values.len(), 2);
            assert!(matches!(&values[0], Expr::BoolOp { op: BoolOp::And, .. }));
        }
        other => panic!("{:?}", other),
    }
}

#[test]
fn comparison_chain_and_membership() {
    match only_expr("a < b <= c\n") {
        Expr::Compare { ops, comparators, .. } => {
            assert_eq!(ops, vec![CmpOp::Lt, CmpOp::LtE]);
            assert_eq!(comparators.len(), 2);
        }
        other => panic!("{:?}", other),
    }
    // The keywords `not` and `is` are no operators here: an operand
    // followed by one ends its statement, and the next starts with it.
    assert_eq!(parse_err("x not in ys\n"), "Unexpected token: KwNot");
    assert_eq!(parse_err("x is not None\n"), "Unexpected token: KwIs");
    assert_eq!(parse_err("x is None\n"), "Unexpected token: KwIs");
    assert!(matches!(only_expr("x in ys\n"), Expr::Compare { ops, .. } if ops == vec![CmpOp::In]));
}

#[test]
fn unary_and_ternary() {
    assert!(matches!(only_expr("-x\n"), Expr::UnaryOp { op: UnaryOp::USub, .. }));
    assert!(matches!(only_expr("!x\n"), Expr::UnaryOp { op: UnaryOp::Not, .. }));
    assert!(matches!(only_expr("~x\n"), Expr::UnaryOp { op: UnaryOp::Invert, .. }));
    assert_eq!(parse_err("not x\n"), "Unexpected token: KwNot");
    match only_expr("a if c else b\n") {
        Expr::IfExpr { test, body, orelse } => {
            assert!(is_name(&test, "c"));
            assert!(is_name(&body, "a"));
            assert!(is_name(&orelse, "b"));
        }
        other => panic!("{:?}", other),
    }
}

#[test]
fn calls_with_keywords_attributes_and_subscripts() {
    match only_expr("obj.method(1, *xs, key=2)[0]\n") {
        Expr::Subscript { value, slice } => {
            assert!(matches!(*slice, Slice::Index(Expr::Int(0))));
            match *value {
                Expr::Call { func, args, keywords } => {
                    assert!(matches!(*func, Expr::Attribute { ref attr, .. } if attr == "method"));
                    assert_eq!(args.len(), 2);
                    assert!(matches!(&args[1], Expr::Starred(_)));
                    assert_eq!(keywords.len(), 1);
                    assert_eq!(keywords[0].name.as_deref(), Some("key"));
                }
                other => panic!("{:?}", other),
            }
        }
        other => panic!("{:?}", other),
    }
}

#[test]
fn slices() {
    match only_expr("xs[1:10:2]\n") {
        Expr::Subscript { slice, .. } => match *slice {
            Slice::Range { lower, upper, step } => {
                assert!(matches!(lower, Some(Expr::Int(1))));
                assert!(matches!(upper, Some(Expr::Int(10))));
                assert!(matches!(step, Some(Expr::Int(2))));
            }
            other => panic!("{:?}", other),
        },
        other => panic!("{:?}", other),
    }
    match only_expr("xs[2:]\n") {
        Expr::Subscript { slice, .. } => {
            assert!(matches!(*slice, Slice::Range { upper: None, step: None, .. }));
        }
        other => panic!("{:?}", other),
    }
}

#[test]
fn displays() {
    assert!(matches!(only_expr("[1, 2, 3]\n"), Expr::List(xs) if xs.len() == 3));
    assert!(matches!(only_expr("[1, 2,]\n"), Expr::List(xs) if xs.len() == 2));
    assert!(matches!(only_expr("()\n"), Expr::Tuple(xs) if xs.is_empty()));
    assert!(matches!(only_expr("(1, 2)\n"), Expr::Tuple(xs) if xs.len() == 2));
    assert!(matches!(only_expr("(1)\n"), Expr::Int(1)));
    assert!(matches!(only_expr("{}\n"), Expr::Dict(xs) if xs.is_empty()));
    assert!(matches!(only_expr("{1: 2, 3: 4}\n"), Expr::Dict(xs) if xs.len() == 2));
    assert!(matches!(only_expr("{1, 2}\n"), Expr::SetLiteral(xs) if xs.len() == 2));
}

#[test]
fn comprehensions_are_passed_over() {
    assert!(matches!(only_expr("[x for x in xs]\n"), Expr::List(xs) if xs.is_empty()));
    assert!(matches!(only_expr("{x for x in xs}\n"), Expr::SetLiteral(xs) if xs.is_empty()));
    assert!(matches!(only_expr("{k: v for k in ks}\n"), Expr::Dict(xs) if xs.is_empty()));
}

#[test]
fn lambda_and_walrus() {
    match only_expr("lambda a, b=1: a + b\n") {
        Expr::Lambda { args, body } => {
            assert_eq!(args.args.len(), 2);
            assert_eq!(args.defaults.len(), 1);
            assert!(matches!(*body, Expr::BinOp { op: BinOp::Add, .. }));
        }
        other => panic!("{:?}", other),
    }
    match only_expr("(n := 10)\n") {
        Expr::NamedExpr { target, value } => {
            assert!(is_name(&target, "n"));
            assert!(matches!(*value, Expr::Int(10)));
        }
        other => panic!("{:?}", other),
    }
}

#[test]
fn literals() {
    assert!(matches!(only_expr("True\n"), Expr::Bool(true)));
    assert!(matches!(only_expr("None\n"), Expr::None_));
    assert!(matches!(only_expr("...\n"), Expr::Ellipsis));
    assert!(matches!(only_expr("'hi'\n"), Expr::Str(s) if s == "hi"));
}

#[test]
fn float_literals_take_their_value_from_the_table() {
    let bits = 2.5f64.to_bits();
    let mut p = Parser::new("2.5\n", vec![("2.5".to_string(), bits)]);
    let stmts = p.parse().unwrap().stmts;
    assert!(matches!(&stmts[0], Stmt::Expr(Expr::Float(b)) if *b == bits));
    let mut q = Parser::new("2.5\n", Vec::new());
    let stmts = q.parse().unwrap().stmts;
    assert!(matches!(&stmts[0], Stmt::Expr(Expr::Float(0))));
}

#[test]
fn fstrings() {
    match only_expr("f\"a{x}b\"\n") {
        Expr::FString(parts) => {
            assert_eq!(parts.len(), 3);
            assert!(matches!(&parts[0], FStringPart::Literal(s) if s == "a"));
            assert!(matches!(&parts[1], FStringPart::Expr(e) if is_name(e, "x")));
            assert!(matches!(&parts[2], FStringPart::Literal(s) if s == "b"));
        }
        other => panic!("{:?}", other),
    }
    match only_expr("f\"{{}}\"\n") {
        Expr::FString(parts) => {
            assert_eq!(parts.len(), 1);
            assert!(matches!(&parts[0], FStringPart::Literal(s) if s == "{}"));
        }
        other => panic!("{:?}", other),
    }
    match only_expr("f\"{n:>4}\"\n") {
        Expr::FString(parts) => {
            assert_eq!(parts.len(), 1);
            assert!(matches!(&parts[0], FStringPart::Expr(e) if is_name(e, "n")));
        }
        other => panic!("{:?}", other),
    }
    match only_expr("f\"\"\n") {
        Expr::FString(parts) => {
            assert_eq!(parts.len(), 1);
            assert!(matches!(&parts[0], FStringPart::Literal(s) if s.is_empty()));
        }
        other => panic!("{:?}", other),
    }
}

#[test]
fn function_definition() {
    let src = "def add(a, b=2, *rest, k=3, **kw):\n    return a + b\n";
    let stmts = parse(src);
    assert_eq!(stmts.len(), 1);
    match &stmts[0] {
        Stmt::FuncDef { name, args, body, decorators, returns } => {
            assert_eq!(name, "add");
            assert_eq!(args.args.len(), 2);
            assert_eq!(args.defaults.len(), 1);
            assert_eq!(args.vararg.as_ref().map(|a| a.arg.as_str()), Some("rest"));
            assert_eq!(args.kwonlyargs.len(), 1);
            assert_eq!(args.kw_defaults.len(), 1);
            assert_eq!(args.kwarg.as_ref().map(|a| a.arg.as_str()), Some("kw"));
            assert!(decorators.is_empty());
            assert!(returns.is_none());
            assert_eq!(body.len(), 1);
            assert!(matches!(&body[0], Stmt::Return(Some(Expr::BinOp { .. }))));
        }
        other => panic!("{:?}", other),
    }
}

#[test]
fn annotated_function_and_return_type() {
    let stmts = parse("def f(x: int) -> int:\n    pass\n");
    match &stmts[0] {
        Stmt::FuncDef { returns, body, .. } => {
            assert!(matches!(returns, Some(e) if is_name(e, "int")));
            assert!(matches!(&body[0], Stmt::Pass));
        }
        other => panic!("{:?}", other),
    }
}

#[test]
fn class_with_decorators() {
    let src = "@dataclass\nclass Point(Base):\n    x = 0\n    def norm(self):\n        return self.x\n";
    let stmts = parse(src);
    assert_eq!(stmts.len(), 1);
    match &stmts[0] {
        Stmt::ClassDef { name, bases, body, decorators } => {
            assert_eq!(name, "Point");
            assert!(bases.is_empty());
            assert_eq!(body.len(), 2);
            assert_eq!(decorators.len(), 1);
            assert!(is_name(&decorators[0], "dataclass"));
        }
        other => panic!("{:?}", other),
    }
}

#[test]
fn if_elif_else_chain() {
    let src = "if a:\n    x = 1\nelif b:\n    x = 2\nelse:\n    x = 3\n";
    let stmts = parse(src);
    assert_eq!(stmts.len(), 1);
    match &stmts[0] {
        Stmt::If { test, body, orelse } => {
            assert!(is_name(test, "a"));
            assert_eq!(body.len(), 1);
            assert_eq!(orelse.len(), 1);
            match &orelse[0] {
                Stmt::If { test, orelse, .. } => {
                    assert!(is_name(test, "b"));
                    assert_eq!(orelse.len(), 1);
                }
                other => panic!("{:?}", other),
            }
        }
        other => panic!("{:?}", other),
    }
}

#[test]
fn loops_with_else() {
    let src = "for i, j in pairs:\n    total += i\nelse:\n    done = True\nwhile n > 0:\n    n -= 1\n    break\n";
    let stmts = parse(src);
    assert_eq!(stmts.len(), 2);
    match &stmts[0] {
        Stmt::For { target, iter, body, orelse } => {
            assert!(matches!(target, Expr::Tuple(xs) if xs.len() == 2));
            assert!(is_name(iter, "pairs"));
            assert_eq!(body.len(), 1);
            assert_eq!(orelse.len(), 1);
        }
        other => panic!("{:?}", other),
    }
    match &stmts[1] {
        Stmt::While { body, orelse, .. } => {
            assert_eq!(body.len(), 2);
            assert!(matches!(&body[1], Stmt::Break));
            assert!(orelse.is_empty());
        }
        other => panic!("{:?}", other),
    }
}

#[test]
fn import_statements() {
    let stmts = parse("import os.path as p, sys\nfrom . .pkg import a as b, c\nfrom m import *\nfrom ..q import r\n");
    assert_eq!(stmts.len(), 4);
    // `..` is read as one dot token.
    assert!(matches!(&stmts[3], Stmt::ImportFrom { level: 1, .. }));
    match &stmts[0] {
        Stmt::Import { names } => {
            assert_eq!(names.len(), 2);
            assert_eq!(names[0].name, "os.path");
            assert_eq!(names[0].asname.as_deref(), Some("p"));
            assert_eq!(names[1].name, "sys");
        }
        other => panic!("{:?}", other),
    }
    match &stmts[1] {
        Stmt::ImportFrom { module, names, level } => {
            assert_eq!(module.as_deref(), Some("pkg"));
            assert_eq!(*level, 2);
            assert_eq!(names.len(), 2);
            assert_eq!(names[0].asname.as_deref(), Some("b"));
        }
        other => panic!("{:?}", other),
    }
    match &stmts[2] {
        Stmt::ImportFrom { names, level, .. } => {
            assert_eq!(*level, 0);
            assert_eq!(names.len(), 1);
            assert_eq!(names[0].name, "*");
        }
        other => panic!("{:?}", other),
    }
}

#[test]
fn with_try_raise_global() {
    let src = "with open(f) as h, lock:\n    pass\ntry:\n    x = 1\nexcept E:\n    x = 2\nfinally:\n    y = 3\nraise ValueError(1)\nglobal a, b\n";
    let stmts = parse(src);
    assert_eq!(stmts.len(), 4);
    match &stmts[0] {
        Stmt::With { items, body } => {
            assert_eq!(items.len(), 2);
            assert!(items[0].optional_vars.is_some());
            assert!(items[1].optional_vars.is_none());
            assert_eq!(body.len(), 1);
        }
        other => panic!("{:?}", other),
    }
    assert!(matches!(&stmts[1], Stmt::Pass));
    assert!(matches!(&stmts[2], Stmt::Raise { exc: Some(Expr::Call { .. }), cause: None }));
    assert!(matches!(&stmts[3], Stmt::Global(ns) if ns.len() == 2));
}

#[test]
fn bare_return_and_match_block() {
    let src = "def f():\n    return\nmatch x:\n    case 1:\n        pass\ny = 2\n";
    let stmts = parse(src);
    assert_eq!(stmts.len(), 3);
    match &stmts[0] {
        Stmt::FuncDef { body, .. } => assert!(matches!(&body[0], Stmt::Return(None))),
        other => panic!("{:?}", other),
    }
    assert!(matches!(&stmts[1], Stmt::Pass));
    assert!(matches!(&stmts[2], Stmt::Assign { .. }));
}

#[test]
fn errors_name_what_was_expected() {
    assert_eq!(parse_err("def (x):\n    pass\n"), "Expected name, got LParen");
    assert_eq!(parse_err(")\n"), "Unexpected token: RParen");
    assert_eq!(parse_err("if x\n    pass\n"), "if :: expected Colon, got Newline");
    assert_eq!(parse_err("f(a=1, 2=3)\n"), "Keyword arg must be name");
    assert_eq!(parse_err("@d\nx = 1\n"), "Decorator on non-def/class");
    assert_eq!(parse_err("x not y\n"), "Unexpected token: KwNot");
}

#[test]
fn error_position_is_reported() {
    let mut p = Parser::new("x = 1\ny = )\n", Vec::new());
    assert!(p.parse().is_err());
    assert_eq!(p.current_pos(), (2, 4));
}

#[test]
fn parsed_program_compiles_and_verifies() {
    let src = "def double(n):\n    return n * 2\n\nx = double(21)\nif x > 40:\n    print(x)\n";
    let program = Parser::new(src, Vec::new()).parse().unwrap();
    assert_eq!(program.stmts.len(), 3);
    let mut module = UtenModule::new("m");
    {
        let mut b = ModuleBuilder::new(&mut module);
        compile_into_builder(&program, "m", &mut b).unwrap();
        b.finalize();
    }
    assert_eq!(module.functions.last().unwrap().name, "<module>");
    assert!(module.strings.iter().any(|s| s == "double"));
    assert!(verify_module(&module).is_ok());
}

#[test]
fn token_kinds_print_as_their_debug_text() {
    let kinds = vec![
        TokenKind::RParen,
        TokenKind::KwNot,
        TokenKind::EndOfFile,
        TokenKind::Name("a\"b".to_string()),
        TokenKind::String("line\nnext".to_string()),
        TokenKind::FStringEnd("é".to_string()),
    ];
    for k in kinds {
        assert_eq!(debug_kind(&k), format!("{:?}", k));
    }
    assert_eq!(debug_kind(&TokenKind::Name("x".to_string())), "Name(\"x\")");
}
