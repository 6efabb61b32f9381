// Bytecode format: modules, writer and reader, opcodes, verification.

use utencore::bytecode::{
    verify_module, BytecodeReader, BytecodeWriter, FunctionDef, UtenModule, BYTECODE_VERSION,
};
use utencore::opcodes::{opcode_info, Opcode};

fn func(name: &str, bytecode: Vec<u8>, n_locals: u16) -> FunctionDef {
    FunctionDef {
        name: name.to_string(),
        bytecode,
        n_locals,
        n_params: 0,
        is_variadic: false,
        n_captures: 0,
        return_type: None,
        param_types: vec![],
        hotness: 0,
    }
}

#[test]
fn test_module_construction() {
    let m = UtenModule::new("test_module");
    assert_eq!(m.header.name, "test_module");
    assert_eq!(m.magic, *b"UCLB");
    assert_eq!(m.bytecode_version, BYTECODE_VERSION);
}

#[test]
fn test_string_interning() {
    let mut m = UtenModule::new("s");
    let a = m.intern("alpha");
    let b = m.intern("beta");
    let a2 = m.intern("alpha");
    assert_eq!(a, a2);
    assert_ne!(a, b);
    assert_eq!(m.strings[a as usize], "alpha");
}

#[test]
fn test_bytecode_writer_emit() {
    let mut w = BytecodeWriter::new();
    assert_eq!(w.len(), 0);
    w.emit(Opcode::PushNil);
    assert_eq!(w.len(), 1);
    w.emit(Opcode::PushI32);
    w.emit_i32(100);
    assert_eq!(w.len(), 6);
    w.emit(Opcode::ReturnValue);
    let bytes = w.into_bytes();
    assert_eq!(bytes.len(), 7);
    assert_eq!(bytes[0], Opcode::PushNil.to_byte());
}

#[test]
fn test_bytecode_reader_instructions() {
    let mut w = BytecodeWriter::new();
    w.emit(Opcode::PushI32);
    w.emit_i32(42);
    w.emit(Opcode::PushTrue);
    w.emit(Opcode::Add);
    w.emit(Opcode::ReturnValue);
    let bytes = w.into_bytes();
    let mut r = BytecodeReader::new(&bytes);
    let (op, _) = r.read_instruction().unwrap();
    assert_eq!(op, Opcode::PushI32);
    let (op, _) = r.read_instruction().unwrap();
    assert_eq!(op, Opcode::PushTrue);
    let (op, _) = r.read_instruction().unwrap();
    assert_eq!(op, Opcode::Add);
    let (op, _) = r.read_instruction().unwrap();
    assert_eq!(op, Opcode::ReturnValue);
    assert!(r.read_instruction().is_none());
}

#[test]
fn test_bytecode_reader_peek() {
    let mut w = BytecodeWriter::new();
    w.emit(Opcode::Nop);
    w.emit(Opcode::Halt);
    let bytes = w.into_bytes();
    let mut r = BytecodeReader::new(&bytes);
    assert_eq!(r.peek_opcode(), Some(Opcode::Nop));
    assert_eq!(r.next_opcode(), Some(Opcode::Nop));
    assert_eq!(r.peek_opcode(), Some(Opcode::Halt));
}

#[test]
fn test_version_constants() {
    assert!(BYTECODE_VERSION >= 3);
}

#[test]
fn test_verify_module_invalid_version() {
    let mut m = UtenModule::new("bad");
    m.bytecode_version = 999;
    assert!(verify_module(&m).is_err());
}

#[test]
fn test_verify_module_valid() {
    let mut m = UtenModule::new("good");
    m.intern("main");
    m.functions.push(func(
        "main",
        vec![Opcode::PushNil.to_byte(), Opcode::Return.to_byte()],
        0,
    ));
    assert!(verify_module(&m).is_ok());
}

#[test]
fn test_write_read_opcodes() {
    let mut w = BytecodeWriter::new();
    w.emit(Opcode::PushNil);
    w.emit(Opcode::PushTrue);
    w.emit(Opcode::PushFalse);
    w.emit(Opcode::PushI32);
    w.emit_i32(42);
    w.emit(Opcode::Dup);
    w.emit(Opcode::Swap);
    w.emit(Opcode::Pop);
    w.emit(Opcode::Add);
    w.emit(Opcode::Return);
    let bytes = w.into_bytes();
    assert!(!bytes.is_empty());

    let mut r = BytecodeReader::new(&bytes);
    assert_eq!(r.next_opcode(), Some(Opcode::PushNil));
    assert_eq!(r.next_opcode(), Some(Opcode::PushTrue));
    assert_eq!(r.next_opcode(), Some(Opcode::PushFalse));
    assert_eq!(r.next_opcode(), Some(Opcode::PushI32));
    assert_eq!(r.read_i32(), 42);
    assert_eq!(r.next_opcode(), Some(Opcode::Dup));
    assert_eq!(r.next_opcode(), Some(Opcode::Swap));
    assert_eq!(r.next_opcode(), Some(Opcode::Pop));
    assert_eq!(r.next_opcode(), Some(Opcode::Add));
    assert_eq!(r.next_opcode(), Some(Opcode::Return));
    assert_eq!(r.next_opcode(), None);
}

#[test]
fn test_bytecode_writer_len() {
    let mut w = BytecodeWriter::new();
    assert_eq!(w.len(), 0);
    w.emit(Opcode::Nop);
    assert_eq!(w.len(), 1);
    w.emit(Opcode::PushI32);
    w.emit_i32(0);
    assert_eq!(w.len(), 6);
}

#[test]
fn test_bytes_mut() {
    let mut w = BytecodeWriter::new();
    w.emit(Opcode::PushNil);
    assert_eq!(w.len(), 1);
    {
        let b = w.bytes_mut();
        b.push(0x01); // PushTrue
    }
    assert_eq!(w.len(), 2);
}

#[test]
fn test_each_opcode_has_info() {
    for byte in 0..=0xFEu8 {
        if byte > 0xB1 && byte < 0xC0 {
            continue;
        }
        if byte >= 0xC0 {
            break;
        }
        if let Some(op) = Opcode::from_byte(byte) {
            let info = opcode_info(op);
            assert!(!info.mnemonic.is_empty(), "opcode 0x{byte:02x} has no mnemonic");
        }
    }
}

#[test]
fn test_string_intern() {
    let mut m = UtenModule::new("test");
    let s1 = m.intern("hello");
    let s2 = m.intern("hello");
    let s3 = m.intern("world");
    assert_eq!(s1, s2);
    assert_ne!(s1, s3);
}

#[test]
fn test_bytecode_writer() {
    let mut w = BytecodeWriter::new();
    w.emit(Opcode::PushI32);
    w.emit_i32(42);
    w.emit(Opcode::ReturnValue);
    let bytes = w.into_bytes();
    assert_eq!(bytes[0], Opcode::PushI32.to_byte());
    assert_eq!(bytes[5], Opcode::ReturnValue.to_byte());
}

#[test]
fn test_bytecode_reader() {
    let mut w = BytecodeWriter::new();
    w.emit(Opcode::PushI32);
    w.emit_i32(12345);
    w.emit(Opcode::PushTrue);
    w.emit(Opcode::ReturnValue);
    let bytes = w.into_bytes();
    let mut reader = BytecodeReader::new(&bytes);
    let (op1, _) = reader.read_instruction().unwrap();
    assert_eq!(op1, Opcode::PushI32);
    assert!(reader.read_instruction().is_some());
}

#[test]
fn test_opcode_from_byte() {
    assert_eq!(Opcode::from_byte(0x00), Some(Opcode::Nop));
    assert_eq!(Opcode::from_byte(0x10), Some(Opcode::Add));
    assert_eq!(Opcode::from_byte(0x78), Some(Opcode::Return));
    assert_eq!(Opcode::from_byte(0xFE), Some(Opcode::Halt));
    assert_eq!(Opcode::from_byte(0xFF), Some(Opcode::Raise));
    assert_eq!(Opcode::from_byte(0x4E), None);
}

// ── Laws, on concrete values ──

#[test]
fn opcode_byte_round_trip() {
    for b in 0..=255u8 {
        if let Some(op) = Opcode::from_byte(b) {
            assert_eq!(op.to_byte(), b);
            assert_eq!(Opcode::from_byte(op.to_byte()), Some(op));
        }
    }
}

#[test]
fn writer_values_read_back() {
    let mut w = BytecodeWriter::new();
    w.emit_u16(0xBEEF);
    w.emit_i16(-2);
    w.emit_u32(0xDEAD_BEEF);
    w.emit_i32(-123456);
    w.emit_i64(-9_000_000_000);
    let bytes = w.into_bytes();
    assert_eq!(bytes.len(), 2 + 2 + 4 + 4 + 8);
    let mut r = BytecodeReader::new(&bytes);
    assert_eq!(r.read_u16(), 0xBEEF);
    assert_eq!(r.read_i16(), -2);
    assert_eq!(r.read_i32(), 0xDEAD_BEEFu32 as i32);
    assert_eq!(r.read_i32(), -123456);
    assert_eq!(r.read_i64(), -9_000_000_000);
    assert_eq!(r.remaining(), 0);
}

#[test]
fn writer_is_little_endian() {
    let mut w = BytecodeWriter::new();
    w.emit_op(Opcode::LoadGlobal, 0x0102);
    w.emit_f64_bits(0x0102_0304_0506_0708);
    w.emit_f32_bits(0x0A0B_0C0D);
    let b = w.into_bytes();
    assert_eq!(
        b,
        vec![
            Opcode::LoadGlobal.to_byte(),
            0x02,
            0x01,
            0x08,
            0x07,
            0x06,
            0x05,
            0x04,
            0x03,
            0x02,
            0x01,
            0x0D,
            0x0C,
            0x0B,
            0x0A
        ]
    );
}

#[test]
fn reader_positions() {
    let bytes = vec![Opcode::PushI32.to_byte(), 1, 0, 0, 0, Opcode::Halt.to_byte()];
    let mut r = BytecodeReader::new(&bytes);
    assert_eq!(r.pos(), 0);
    assert_eq!(r.read_instruction(), Some((Opcode::PushI32, 1)));
    assert_eq!(r.pos(), 5);
    r.set_pos(0);
    assert_eq!(r.remaining(), 6);
    assert_eq!(r.read_u8(), Opcode::PushI32.to_byte());
}

#[test]
fn intern_keeps_first_occurrence() {
    let mut m = UtenModule::new("p");
    assert_eq!(m.intern("a"), 0);
    assert_eq!(m.intern("b"), 1);
    assert_eq!(m.intern("a"), 0);
    assert_eq!(m.strings.len(), 2);
}

#[test]
fn new_module_defaults() {
    let m = UtenModule::new("n");
    assert_eq!(m.header.compiler, "utencore");
    assert_eq!(m.header.compiler_version, "0.0.5");
    assert_eq!(m.header.gc_strategy, "generational");
    assert_eq!(m.header.source_lang, "");
    assert!(!m.header.jit_recommended);
    assert!(m.functions.is_empty() && m.strings.is_empty() && m.constants.is_empty());
}
