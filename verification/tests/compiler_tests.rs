// Code generation for Python syntax trees, IR lowering, and the helpers
// of the command-line tools.

use utencore::bytecode::{verify_module, LineEntry, ModuleBuilder, UtenModule};
use utencore::driver::{cache_path_for, dep_source_candidates, scan_imports};
use utencore::ir::{ir_to_bytecode, IrBlock, IrFunction, IrInst, IrParam, IrProgram, IrTerminator, IrValue};
use utencore::opcodes::Opcode;
use utencore::py2uc::ast::{
    Alias, Arg, Arguments, BinOp, BoolOp, CmpOp, Expr, Program, Stmt, UnaryOp,
};
use utencore::py2uc::codegen::{bop, collect_fields, compile_into_builder, cop, Buf, Ctx};
use utencore::bytecode::module::set_metadata;
use utencore::ccis::{CompilerOptions, ErrorLevel};
use utencore::plugin::{PluginManager, PluginManifest};
use utencore::py2uc::registration::plugin_manifest;
use utencore::py2uc::compile_python;
use utencore::py2uc::parser::Parser;
use utencore::text::{path_join, sort_strings, str_lt, u32_to_decimal};

fn op(o: Opcode) -> u8 {
    o.to_byte()
}

fn name(n: &str) -> Expr {
    Expr::Name(n.to_string())
}

fn boxed(e: Expr) -> Box<Expr> {
    Box::new(e)
}

fn no_args() -> Arguments {
    Arguments { args: vec![], vararg: None, kwonlyargs: vec![], kw_defaults: vec![], kwarg: None, defaults: vec![] }
}

fn compile(stmts: Vec<Stmt>) -> UtenModule {
    let mut module = UtenModule::new("placeholder");
    {
        let mut b = ModuleBuilder::new(&mut module);
        compile_into_builder(&Program { stmts }, "prog", &mut b).unwrap();
        b.finalize();
    }
    module
}

#[test]
fn assignment_and_module_function() {
    let m = compile(vec![Stmt::Assign { targets: vec![name("x")], value: Expr::Int(1), aug: None }]);
    assert_eq!(m.header.name, "prog");
    assert_eq!(m.header.source_lang, "python");
    assert_eq!(m.strings, vec!["x".to_string()]);
    assert_eq!(m.functions.len(), 1);
    let f = &m.functions[0];
    assert_eq!(f.name, "<module>");
    assert_eq!(f.n_locals, 64);
    assert_eq!(f.bytecode, vec![op(Opcode::PushI32), 1, 0, 0, 0, op(Opcode::StoreGlobal), 0, 0, op(Opcode::Return)]);
    assert!(verify_module(&m).is_ok());
}

#[test]
fn print_call_keeps_value_and_other_expressions_pop() {
    let call = Expr::Call { func: boxed(name("print")), args: vec![Expr::Int(1)], keywords: vec![] };
    let m = compile(vec![Stmt::Expr(call), Stmt::Expr(Expr::Bool(true))]);
    assert_eq!(
        m.functions[0].bytecode,
        vec![
            op(Opcode::PushI32), 1, 0, 0, 0,
            op(Opcode::PushI32), 1, 0, 0, 0,
            op(Opcode::LoadGlobal), 0, 0,
            op(Opcode::CallValue),
            op(Opcode::PushTrue),
            op(Opcode::Pop),
            op(Opcode::Return),
        ]
    );
    assert_eq!(m.strings, vec!["print".to_string()]);
}

#[test]
fn if_else_jumps_are_patched() {
    let m = compile(vec![Stmt::If { test: Expr::Bool(true), body: vec![Stmt::Pass], orelse: vec![Stmt::Pass] }]);
    let code = &m.functions[0].bytecode;
    assert_eq!(
        *code,
        vec![op(Opcode::PushTrue), op(Opcode::JumpIfFalse), 3, 0, op(Opcode::Jump), 0, 0, op(Opcode::Return)]
    );
    assert!(verify_module(&m).is_ok());
}

#[test]
fn while_loop_jumps_back() {
    let m = compile(vec![Stmt::While { test: name("c"), body: vec![Stmt::Pass], orelse: vec![] }]);
    let code = &m.functions[0].bytecode;
    // load c; jump_if_false +3; jump back to 0
    assert_eq!(
        *code,
        vec![
            op(Opcode::LoadGlobal), 0, 0,
            op(Opcode::JumpIfFalse), 3, 0,
            op(Opcode::Jump), 0xF7, 0xFF,
            op(Opcode::Return),
        ]
    );
    assert!(verify_module(&m).is_ok());
}

#[test]
fn for_loop_uses_hidden_globals() {
    let m = compile(vec![Stmt::For {
        target: name("v"),
        iter: Expr::List(vec![Expr::Int(1), Expr::Int(2)]),
        body: vec![],
        orelse: vec![],
    }]);
    assert_eq!(m.strings, vec!["__it_0__".to_string(), "__i_0__".to_string(), "v".to_string()]);
    assert!(verify_module(&m).is_ok());
}

#[test]
fn function_definition_becomes_closure() {
    let args = Arguments { args: vec![Arg { arg: "n".to_string(), annotation: None }], ..no_args() };
    let body = vec![Stmt::Return(Some(Expr::BinOp { left: boxed(name("n")), op: BinOp::Mul, right: boxed(Expr::Int(2)) }))];
    let m = compile(vec![Stmt::FuncDef { name: "double".to_string(), args, body, decorators: vec![], returns: None }]);
    assert_eq!(m.functions.len(), 2);
    let f = &m.functions[0];
    assert_eq!(f.name, "double");
    assert_eq!((f.n_params, f.n_locals), (1, 17));
    assert_eq!(
        f.bytecode,
        vec![
            op(Opcode::AllocFrame), 16, 0,
            op(Opcode::LoadLocal), 0, 0,
            op(Opcode::StoreGlobal), 0, 0,
            op(Opcode::LoadGlobal), 0, 0,
            op(Opcode::PushI32), 2, 0, 0, 0,
            op(Opcode::Mul),
            op(Opcode::ReturnValue),
            op(Opcode::Return),
        ]
    );
    assert_eq!(
        m.functions[1].bytecode,
        vec![op(Opcode::MakeClosure), 0, 0, op(Opcode::StoreGlobal), 1, 0, op(Opcode::Return)]
    );
    assert_eq!(m.strings, vec!["n".to_string(), "double".to_string()]);
}

#[test]
fn class_constructor_flag() {
    let init_body = vec![Stmt::Assign {
        targets: vec![Expr::Attribute { value: boxed(name("self")), attr: "x".to_string() }],
        value: Expr::Int(0),
        aug: None,
    }];
    let args = Arguments { args: vec![Arg { arg: "self".to_string(), annotation: None }], ..no_args() };
    let init = Stmt::FuncDef { name: "__init__".to_string(), args, body: init_body, decorators: vec![], returns: None };
    let m = compile(vec![Stmt::ClassDef { name: "P".to_string(), bases: vec![], body: vec![init], decorators: vec![] }]);
    assert_eq!(m.functions.len(), 2);
    assert_eq!(m.functions[0].n_locals, 18);
    let main = &m.functions[1].bytecode;
    let pool = &m.strings;
    let sid = |s: &str| pool.iter().position(|x| x == s).unwrap() as u8;
    assert_eq!(
        *main,
        vec![
            op(Opcode::NewNamespace), sid("P"), 0,
            op(Opcode::NewClass),
            op(Opcode::Dup), op(Opcode::ClassAddField), sid("x"), 0,
            op(Opcode::Dup), op(Opcode::MakeClosure), 0, 0,
            op(Opcode::ClassAddMethod), sid("__init__"), 0x80,
            op(Opcode::StoreGlobal), sid("P"), 0,
            op(Opcode::Return),
        ]
    );
}

#[test]
fn imports() {
    let m = compile(vec![
        Stmt::Import { names: vec![Alias { name: "os".to_string(), asname: None }] },
        Stmt::ImportFrom {
            module: Some("math".to_string()),
            names: vec![Alias { name: "sqrt".to_string(), asname: Some("root".to_string()) }],
            level: 0,
        },
    ]);
    assert_eq!(
        m.strings,
        vec!["os".to_string(), "math".to_string(), "__mod_0__".to_string(), "sqrt".to_string(), "root".to_string()]
    );
    assert_eq!(
        m.functions[0].bytecode,
        vec![
            op(Opcode::Import), 0, 0, op(Opcode::StoreGlobal), 0, 0,
            op(Opcode::Import), 1, 0, op(Opcode::StoreGlobal), 2, 0,
            op(Opcode::LoadGlobal), 2, 0, op(Opcode::ImportFunc), 3, 0, op(Opcode::StoreGlobal), 4, 0,
            op(Opcode::Return),
        ]
    );
}

#[test]
fn expressions() {
    let mut c = Ctx::new("e");
    let e = Expr::BoolOp { op: BoolOp::Or, values: vec![Expr::Bool(false), Expr::None_, Expr::Int(-1)] };
    assert!(utencore::py2uc::codegen::expr(&e, &mut c));
    assert_eq!(
        c.cur.0,
        vec![op(Opcode::PushFalse), op(Opcode::PushNil), op(Opcode::Or), op(Opcode::PushI32), 0xFF, 0xFF, 0xFF, 0xFF, op(Opcode::Or)]
    );
    let mut c = Ctx::new("e");
    let cmp = Expr::Compare { left: boxed(Expr::Int(1)), ops: vec![CmpOp::Lt, CmpOp::In], comparators: vec![Expr::Int(2), Expr::Int(3)] };
    assert!(utencore::py2uc::codegen::expr(&cmp, &mut c));
    assert_eq!(c.cur.0[5], op(Opcode::PushI32));
    assert_eq!(c.cur.0[10], op(Opcode::Lt));
    assert_eq!(c.cur.0[16], op(Opcode::Eq));
    let mut c = Ctx::new("e");
    let neg = Expr::UnaryOp { op: UnaryOp::USub, operand: boxed(Expr::Float(0x4000_0000_0000_0000)) };
    assert!(utencore::py2uc::codegen::expr(&neg, &mut c));
    assert_eq!(c.cur.0, vec![op(Opcode::PushF64), 0, 0, 0, 0, 0, 0, 0, 0x40, op(Opcode::Neg)]);
    assert_eq!(bop(BinOp::FloorDiv), op(Opcode::Div));
    assert_eq!(cop(CmpOp::NotEq), op(Opcode::Ne));
}

#[test]
fn builtin_calls() {
    let mut c = Ctx::new("e");
    let call = Expr::Call { func: boxed(name("len")), args: vec![Expr::List(vec![])], keywords: vec![] };
    assert!(utencore::py2uc::codegen::expr(&call, &mut c));
    assert_eq!(c.cur.0, vec![op(Opcode::NewArray), 0, 0, op(Opcode::ArrayLen)]);
    let mut c = Ctx::new("e");
    let call = Expr::Call { func: boxed(name("sorted")), args: vec![Expr::Int(1)], keywords: vec![] };
    assert!(utencore::py2uc::codegen::expr(&call, &mut c));
    assert_eq!(c.cur.0, vec![op(Opcode::PushI32), 1, 0, 0, 0, op(Opcode::Pop), op(Opcode::NewArray), 0, 0]);
    assert!(c.module.strings.is_empty());
}

#[test]
fn fields_are_collected_once() {
    let assign = |field: &str| Stmt::Assign {
        targets: vec![Expr::Attribute { value: boxed(name("self")), attr: field.to_string() }],
        value: Expr::Int(0),
        aug: None,
    };
    let body = vec![
        assign("a"),
        Stmt::If { test: Expr::Bool(true), body: vec![assign("b"), assign("a")], orelse: vec![] },
        Stmt::Assign { targets: vec![Expr::Attribute { value: boxed(name("other")), attr: "c".to_string() }], value: Expr::Int(0), aug: None },
    ];
    let mut fields = Vec::new();
    collect_fields(&body, &mut fields);
    assert_eq!(fields, vec!["a".to_string(), "b".to_string()]);
}

#[test]
fn buffer_patching() {
    let mut b = Buf::new();
    b.push_op16(Opcode::Jump, 0);
    b.push_i16(-1);
    b.patch_i16(1, 0x0102);
    assert_eq!(b.len(), 5);
    assert_eq!(b.take(), vec![op(Opcode::Jump), 0x02, 0x01, 0xFF, 0xFF]);
    assert_eq!(b.len(), 0);
}

// ── IR ──

#[test]
fn ir_lowering() {
    let v = IrValue::VReg(0);
    let block = IrBlock {
        name: "entry".to_string(),
        instructions: vec![
            IrInst::ConstI32(7),
            IrInst::Line { line: 3 },
            IrInst::Add { dest: v.clone(), left: v.clone(), right: v.clone() },
            IrInst::Pow { dest: v.clone(), base: v.clone(), exp: v.clone() },
            IrInst::ImportFunc { dest: v.clone(), module: 1, name: 2 },
        ],
        terminator: IrTerminator::Return(Some(v.clone())),
        phis: vec![],
    };
    let f = IrFunction {
        name: "f".to_string(),
        params: vec![IrParam { name: "a".to_string(), type_hint: Some("int".to_string()) }, IrParam { name: "b".to_string(), type_hint: None }],
        return_type: None,
        blocks: vec![block],
        n_locals: 3,
        is_variadic: false,
    };
    let p = IrProgram { version: 1, functions: vec![f], strings: vec!["a".to_string(), "b".to_string(), "a".to_string()], name: "irp".to_string() };
    let m = ir_to_bytecode(p);
    assert_eq!(m.strings, vec!["a".to_string(), "b".to_string()]);
    assert_eq!(m.header.name, "irp");
    let f = &m.functions[0];
    assert_eq!(
        f.bytecode,
        vec![op(Opcode::PushI32), 7, 0, 0, 0, op(Opcode::Add), op(Opcode::ImportFunc), 1, 0, 2, 0, op(Opcode::ReturnValue)]
    );
    assert_eq!(f.param_types, vec!["int".to_string(), String::new()]);
    assert_eq!(f.n_params, 2);
    assert_eq!(m.header.line_map, vec![LineEntry { func_index: 0, offset: 5, line: 3, column: 0 }]);
}

// ── Tool helpers ──

#[test]
fn imports_are_scanned() {
    let src = "import os, sys as s\r\nfrom .rel import x\nfrom collections import deque\n# import hidden\n   import os\nimport .bad, json\nprint(1)";
    assert_eq!(
        scan_imports(src),
        vec!["os".to_string(), "sys".to_string(), "collections".to_string(), "json".to_string()]
    );
    assert!(scan_imports("").is_empty());
    assert!(scan_imports("importer = 1\nfrom\n").is_empty());
}

#[test]
fn cache_paths() {
    assert_eq!(cache_path_for("src/main.py").as_deref(), Some("src/.ucch/main.ucch"));
    assert_eq!(cache_path_for("main.py").as_deref(), Some(".ucch/main.ucch"));
    assert_eq!(cache_path_for("/main.py").as_deref(), Some("/.ucch/main.ucch"));
    assert_eq!(cache_path_for("a.b/archive.tar.gz").as_deref(), Some("a.b/.ucch/archive.tar.ucch"));
    assert_eq!(cache_path_for("dir/"), None);
    assert_eq!(cache_path_for(""), None);
}

#[test]
fn dependency_sources() {
    let paths = vec!["lib".to_string(), ".".to_string()];
    assert_eq!(
        dep_source_candidates("m", &paths),
        vec!["lib/m.py".to_string(), "lib/m/__init__.py".to_string(), "./m.py".to_string(), "./m/__init__.py".to_string()]
    );
}

#[test]
fn text_helpers() {
    assert_eq!(sort_strings(vec!["b".to_string(), "a".to_string(), "ab".to_string()]), vec!["a".to_string(), "ab".to_string(), "b".to_string()]);
    assert!(str_lt("a", "b") && str_lt("", "a") && !str_lt("b", "a") && !str_lt("a", "a"));
    assert_eq!(path_join("a", "b"), "a/b");
    assert_eq!(path_join("a/", "b"), "a/b");
    assert_eq!(path_join("", "b"), "b");
    assert_eq!(path_join("a", "/b"), "/b");
    assert_eq!(u32_to_decimal(0), "0");
    assert_eq!(u32_to_decimal(4_294_967_295), "4294967295");
}

#[test]
fn malformed_trees_are_refused() {
    let mut c = Ctx::new("e");
    let cmp = Expr::Compare { left: boxed(Expr::Int(1)), ops: vec![CmpOp::Lt, CmpOp::Gt], comparators: vec![Expr::Int(2)] };
    assert!(!utencore::py2uc::codegen::expr(&cmp, &mut c));
    let empty_or = Expr::BoolOp { op: BoolOp::Or, values: vec![] };
    let mut c = Ctx::new("e");
    assert!(!utencore::py2uc::codegen::expr(&empty_or, &mut c));
    let mut module = UtenModule::new("placeholder");
    let mut b = ModuleBuilder::new(&mut module);
    let r = compile_into_builder(&Program { stmts: vec![Stmt::Expr(cmp)] }, "prog", &mut b);
    assert_eq!(r, Err("program exceeds a limit of the bytecode format".to_string()));
    assert!(b.functions.is_empty());
    assert!(b.module.strings.is_empty());
    assert_eq!(b.module.header.name, "placeholder");
}

#[test]
fn python_sources_compile_into_modules() {
    let mut m = UtenModule::new("placeholder");
    compile_python("x = 1\nprint(x)\n", "dir/prog.py", vec![], &mut m).unwrap();
    assert_eq!(m.header.name, "prog");
    assert_eq!(m.header.source_lang, "python");
    assert_eq!(m.functions.last().unwrap().name, "<module>");
    assert!(m.strings.contains(&"x".to_string()));
    assert!(m.strings.contains(&"print".to_string()));
    let mut m = UtenModule::new("placeholder");
    compile_python("pass\n", "", vec![], &mut m).unwrap();
    assert_eq!(m.header.name, "py");
}

#[test]
fn parse_errors_point_at_the_stop_token() {
    let src = "x = 1\ny = (2,\n";
    let mut m = UtenModule::new("placeholder");
    let errors = compile_python(src, "bad.py", vec![], &mut m).unwrap_err();
    let mut p = Parser::new(src, vec![]);
    let message = p.parse().unwrap_err();
    let (line, col) = p.current_pos();
    assert_eq!(errors.len(), 1);
    assert_eq!(errors[0].message, message);
    assert_eq!(errors[0].file, "bad.py");
    assert_eq!((errors[0].line, errors[0].col), (line, col));
    assert_eq!(errors[0].level, ErrorLevel::Error);
    assert!(m.functions.is_empty());
    assert!(m.strings.is_empty());
    assert_eq!(m.header.name, "placeholder");
}

#[test]
fn plugins_compile_by_extension() {
    let mut pm = PluginManager::new();
    pm.register_compiler_from_manifest(plugin_manifest()).unwrap();
    let opts = CompilerOptions::default();
    let m = pm.compile_with_options("x = 1\n", "dir/Prog.PY", &opts, vec![]).unwrap();
    assert_eq!(m.header.name, "Prog");
    assert_eq!(m.header.source_lang, "python");
    assert_eq!(m.header.gc_strategy, "generational");
    assert_eq!(m.functions.last().unwrap().name, "<module>");
    let err = pm.compile_with_options("x = 1\n", "a.rs", &opts, vec![]).unwrap_err();
    assert_eq!(err, "No compiler plugin registered for '.rs' files.\nSupported extensions: py");
    let err = pm.compile_with_options("y = (1,\n", "bad.py", &opts, vec![]).unwrap_err();
    let mut p = Parser::new("y = (1,\n", vec![]);
    let message = p.parse().unwrap_err();
    let (line, col) = p.current_pos();
    assert_eq!(err, format!("bad.py:{line}:{col}: error: {message}"));
    let exts: Vec<String> = vec!["zz".to_string()];
    pm.register_compiler_from_manifest(PluginManifest::new_compiler("other", "1.0", "Z", &exts)).unwrap();
    let err = pm.compile_with_options("", "f.ZZ", &opts, vec![]).unwrap_err();
    assert_eq!(err, "Plugin 'other' has no built-in compile function");
}

#[test]
fn metadata_entries_are_set_in_place() {
    let mut m = UtenModule::new("m");
    set_metadata(&mut m.header, "k", "1".to_string());
    set_metadata(&mut m.header, "j", "2".to_string());
    set_metadata(&mut m.header, "k", "3".to_string());
    assert_eq!(
        m.header.metadata,
        vec![("k".to_string(), "3".to_string()), ("j".to_string(), "2".to_string())]
    );
}

#[test]
fn ascii_names_and_stems() {
    let mut m = UtenModule::new("placeholder");
    compile_python("Abc_9 = 1\n", ".hidden", vec![], &mut m).unwrap();
    assert_eq!(m.header.name, ".hidden");
    assert!(m.strings.contains(&"Abc_9".to_string()));
    let mut m = UtenModule::new("placeholder");
    compile_python("pass\n", "a.b.py", vec![], &mut m).unwrap();
    assert_eq!(m.header.name, "a.b");
}
