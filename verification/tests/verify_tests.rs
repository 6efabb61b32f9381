// Module verification: one input for each refusal.

use utencore::bytecode::{
    quick_verify, verify_module, ConstValue, ExceptionTableEntry, ExportEntry, FunctionDef,
    GlobalDef, ImportEntry, ImportType, UtenModule, VerifyError,
};
use utencore::opcodes::{opcode_info, Opcode};

fn body(name: &str, bytecode: Vec<u8>) -> FunctionDef {
    FunctionDef {
        name: name.to_string(),
        bytecode,
        n_locals: 0,
        n_params: 0,
        is_variadic: false,
        n_captures: 0,
        return_type: None,
        param_types: vec![],
        hotness: 0,
    }
}

fn with_code(code: Vec<u8>) -> UtenModule {
    let mut m = UtenModule::new("m");
    m.functions.push(body("main", code));
    m
}

fn exception(func_index: u32, try_start: u32, try_end: u32, handler_pc: u32) -> ExceptionTableEntry {
    ExceptionTableEntry { func_index, try_start, try_end, handler_pc, catch_type: None, finally_pc: None }
}

#[test]
fn refuses_bad_magic() {
    let mut m = UtenModule::new("m");
    m.magic = *b"XXXX";
    assert!(matches!(quick_verify(&m), Err(VerifyError::InvalidMagic { magic }) if magic == *b"XXXX"));
}

#[test]
fn accepts_cache_magic() {
    let mut m = UtenModule::new("m");
    m.magic = *b"UCCH";
    assert!(quick_verify(&m).is_ok());
}

#[test]
fn refuses_newer_version() {
    let mut m = UtenModule::new("m");
    m.bytecode_version = 999;
    assert!(matches!(verify_module(&m), Err(VerifyError::VersionTooNew { version: 999 })));
}

#[test]
fn refuses_constant_string_out_of_range() {
    let mut m = UtenModule::new("m");
    m.constants.push(ConstValue::Int32(1));
    m.constants.push(ConstValue::String(5));
    assert!(matches!(
        quick_verify(&m),
        Err(VerifyError::ConstStringOutOfRange { index: 1, sid: 5 })
    ));
}

#[test]
fn refuses_empty_function_body() {
    let mut m = UtenModule::new("m");
    m.functions.push(body("__init__", vec![]));
    m.functions.push(body("f", vec![]));
    assert!(matches!(quick_verify(&m), Err(VerifyError::EmptyFunctionBody { index: 1 })));
}

#[test]
fn refuses_excessive_captures() {
    let mut m = with_code(vec![Opcode::Return.to_byte()]);
    m.functions[0].n_captures = 2000;
    assert!(matches!(
        quick_verify(&m),
        Err(VerifyError::ExcessiveCaptures { index: 0, captures: 2000 })
    ));
}

#[test]
fn refuses_empty_module_name() {
    let m = UtenModule::new("");
    assert!(matches!(quick_verify(&m), Err(VerifyError::EmptyModuleName)));
}

#[test]
fn refuses_export_of_missing_function() {
    let mut m = UtenModule::new("m");
    m.exports.push(("f".to_string(), ExportEntry::Function(3)));
    assert!(matches!(quick_verify(&m), Err(VerifyError::ExportBadFunction { index: 0, func: 3 })));
}

#[test]
fn refuses_export_of_missing_global() {
    let mut m = UtenModule::new("m");
    m.exports.push(("g".to_string(), ExportEntry::Global(1)));
    assert!(matches!(quick_verify(&m), Err(VerifyError::ExportBadGlobal { index: 0, global: 1 })));
}

#[test]
fn refuses_unnamed_global() {
    let mut m = UtenModule::new("m");
    m.globals.push(GlobalDef { name: String::new(), init_value: None, is_exported: false });
    assert!(matches!(quick_verify(&m), Err(VerifyError::EmptyGlobalName { index: 0 })));
}

#[test]
fn refuses_import_with_bad_module_name() {
    let mut m = UtenModule::new("m");
    m.imports.push(ImportEntry { module_name: 9, export_name: 0, import_type: ImportType::Function });
    assert!(matches!(quick_verify(&m), Err(VerifyError::ImportBadModuleName { index: 0, sid: 9 })));
}

#[test]
fn refuses_import_with_bad_export_name() {
    let mut m = UtenModule::new("m");
    m.intern("lib");
    m.imports.push(ImportEntry { module_name: 0, export_name: 9, import_type: ImportType::Value });
    assert!(matches!(quick_verify(&m), Err(VerifyError::ImportBadExportName { index: 0, sid: 9 })));
}

#[test]
fn refuses_exception_for_missing_function() {
    let mut m = UtenModule::new("m");
    m.exceptions.push(exception(5, 0, 1, 0));
    assert!(matches!(quick_verify(&m), Err(VerifyError::ExceptionBadFunction { index: 0, func: 5 })));
}

#[test]
fn refuses_empty_try_range() {
    let mut m = with_code(vec![0, 0, 0, Opcode::Return.to_byte()]);
    m.exceptions.push(exception(0, 2, 2, 0));
    assert!(matches!(
        quick_verify(&m),
        Err(VerifyError::ExceptionEmptyRange { index: 0, try_start: 2, try_end: 2 })
    ));
}

#[test]
fn refuses_try_range_past_code() {
    let mut m = with_code(vec![0, 0, 0, Opcode::Return.to_byte()]);
    m.exceptions.push(exception(0, 0, 10, 0));
    assert!(matches!(
        quick_verify(&m),
        Err(VerifyError::ExceptionEndPastCode { index: 0, try_end: 10, code_len: 4 })
    ));
}

#[test]
fn refuses_handler_past_code() {
    let mut m = with_code(vec![0, 0, 0, Opcode::Return.to_byte()]);
    m.exceptions.push(exception(0, 0, 2, 10));
    assert!(matches!(
        quick_verify(&m),
        Err(VerifyError::ExceptionHandlerPastCode { index: 0, handler_pc: 10, code_len: 4 })
    ));
}

#[test]
fn refuses_invalid_opcode() {
    let m = with_code(vec![Opcode::Nop.to_byte(), 0x4E]);
    assert!(quick_verify(&m).is_ok());
    assert!(matches!(
        verify_module(&m),
        Err(VerifyError::InvalidOpcode { func: 0, offset: 1, byte: 0x4E })
    ));
}

#[test]
fn refuses_truncated_operand() {
    let m = with_code(vec![Opcode::PushI32.to_byte(), 1]);
    assert!(matches!(
        verify_module(&m),
        Err(VerifyError::TruncatedOperand { func: 0, offset: 0, op: Opcode::PushI32 })
    ));
}

#[test]
fn refuses_bad_function_reference() {
    let m = with_code(vec![Opcode::Call.to_byte(), 5, 0, Opcode::Return.to_byte()]);
    assert!(matches!(
        verify_module(&m),
        Err(VerifyError::BadFunctionRef { func: 0, offset: 0, op: Opcode::Call, target: 5 })
    ));
}

#[test]
fn refuses_bad_string_reference() {
    let m = with_code(vec![Opcode::PushString.to_byte(), 3, 0, Opcode::Return.to_byte()]);
    assert!(matches!(
        verify_module(&m),
        Err(VerifyError::BadStringRef { func: 0, offset: 0, op: Opcode::PushString, sid: 3 })
    ));
}

#[test]
fn refuses_bad_constant_reference() {
    let m = with_code(vec![Opcode::PushConst.to_byte(), 1, 0, Opcode::Return.to_byte()]);
    assert!(matches!(
        verify_module(&m),
        Err(VerifyError::BadConstRef { func: 0, offset: 0, index: 1 })
    ));
}

#[test]
fn refuses_bad_global_reference() {
    let mut m = with_code(vec![Opcode::LoadGlobal.to_byte(), 4, 0, Opcode::Return.to_byte()]);
    m.globals.push(GlobalDef { name: "g".to_string(), init_value: None, is_exported: false });
    assert!(matches!(
        verify_module(&m),
        Err(VerifyError::BadGlobalRef { func: 0, offset: 0, index: 4 })
    ));
}

#[test]
fn refuses_jump_out_of_range() {
    let m = with_code(vec![Opcode::Jump.to_byte(), 0x10, 0, Opcode::Return.to_byte()]);
    assert!(matches!(
        verify_module(&m),
        Err(VerifyError::JumpOutOfRange { func: 0, offset: 0, op: Opcode::Jump, jump: 0x10 })
    ));
}

#[test]
fn accepts_jump_within_code() {
    let m = with_code(vec![Opcode::Jump.to_byte(), 0, 0, Opcode::Return.to_byte()]);
    assert!(verify_module(&m).is_ok());
}

#[test]
fn constructor_flag_is_not_part_of_string_id() {
    let mut m = UtenModule::new("m");
    m.intern("__init__");
    m.functions.push(body("main", vec![Opcode::ClassAddMethod.to_byte(), 0x00, 0x80, Opcode::Return.to_byte()]));
    assert!(verify_module(&m).is_ok());
}

#[test]
fn verified_module_passes_quick_check() {
    let mut m = UtenModule::new("ok");
    m.intern("x");
    m.functions.push(body("main", vec![Opcode::PushString.to_byte(), 0, 0, Opcode::Return.to_byte()]));
    assert!(verify_module(&m).is_ok());
    assert!(quick_verify(&m).is_ok());
}

#[test]
fn loader_keeps_the_last_registration() {
    let mut l = utencore::bytecode::loader::ModuleLoader::new();
    assert_eq!(l.find_loaded("a"), None);
    l.register_loaded("a", 1);
    l.register_loaded("b", 2);
    l.register_loaded("a", 3);
    assert_eq!(l.find_loaded("a"), Some(3));
    assert_eq!(l.find_loaded("b"), Some(2));
    assert_eq!(l.find_loaded("c"), None);
}

#[test]
fn verified_code_decodes_to_its_end() {
    let mut m = UtenModule::new("m");
    m.intern("x");
    let code = vec![
        Opcode::PushString.to_byte(), 0, 0,
        Opcode::StoreGlobal.to_byte(), 0, 0,
        Opcode::PushI32.to_byte(), 7, 0, 0, 0,
        Opcode::Pop.to_byte(),
        Opcode::Return.to_byte(),
    ];
    m.functions.push(body("main", code.clone()));
    assert!(verify_module(&m).is_ok());
    assert!(quick_verify(&m).is_ok());
    let mut i = 0;
    let mut count = 0;
    while i < code.len() {
        let op = Opcode::from_byte(code[i]).unwrap();
        i += 1 + opcode_info(op).operand_size as usize;
        count += 1;
    }
    assert_eq!(i, code.len());
    assert_eq!(count, 5);
}

#[test]
fn verification_errors_have_messages() {
    let mut m = UtenModule::new("m");
    m.magic = *b"XXXX";
    let e = quick_verify(&m).unwrap_err();
    assert_eq!(e.to_text(&m), "Invalid magic bytes: [58, 58, 58, 58]");

    let mut m = UtenModule::new("m");
    m.bytecode_version = 999;
    let e = verify_module(&m).unwrap_err();
    assert_eq!(e.to_text(&m), "Module bytecode version 999 exceeds VM bytecode version 3");

    let m = with_code(vec![Opcode::PushI32.to_byte(), 1]);
    let e = verify_module(&m).unwrap_err();
    let mnemonic = opcode_info(Opcode::PushI32).mnemonic;
    assert_eq!(
        e.to_text(&m),
        format!("Func 0 'main': opcode {mnemonic} at offset 0x0000 requires 4 operand bytes, only 1 remain")
    );

    let m = with_code(vec![Opcode::Jump.to_byte(), 0x10, 0, Opcode::Return.to_byte()]);
    let e = verify_module(&m).unwrap_err();
    let mnemonic = opcode_info(Opcode::Jump).mnemonic;
    assert_eq!(
        e.to_text(&m),
        format!("Func 0 'main': {mnemonic} at offset 0x0000 jumps to 0x0013, outside bytecode [0, 4)")
    );

    let back = VerifyError::JumpOutOfRange { func: 0, offset: 0, op: Opcode::Jump, jump: -10 };
    assert_eq!(
        back.to_text(&m),
        format!("Func 0 'main': {mnemonic} at offset 0x0000 jumps to 0xFFFFFFFFFFFFFFF9, outside bytecode [0, 4)")
    );

    let bad = (0u8..=255).find(|b| Opcode::from_byte(*b).is_none()).unwrap();
    let m = with_code(vec![Opcode::Nop.to_byte(), bad]);
    let e = verify_module(&m).unwrap_err();
    assert_eq!(e.to_text(&m), format!("Func 0 'main': invalid opcode byte 0x{bad:02X} at offset 0x0001"));

    let mut m = UtenModule::new("");
    m.functions.push(body("f", vec![Opcode::Return.to_byte()]));
    let e = verify_module(&m).unwrap_err();
    assert_eq!(e.to_text(&m), "Module has empty name");
}
