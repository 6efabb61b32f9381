// Disassembly of function code, and the text of compile diagnostics.

use utencore::ccis::{CompileError, ErrorLevel};
use utencore::driver::{decodes_fully, disassemble};
use utencore::opcodes::Opcode;

#[test]
fn instructions_take_their_operands() {
    let code = vec![Opcode::PushI32.to_byte(), 7, 0, 0, 0, Opcode::Return.to_byte()];
    assert!(decodes_fully(&code));
    let ins = disassemble(&code);
    assert_eq!(ins.len(), 2);
    assert_eq!(ins[0].offset, 0);
    assert_eq!(ins[0].op, Some(Opcode::PushI32));
    assert_eq!(ins[0].operands, vec![7, 0, 0, 0]);
    assert_eq!(ins[1].offset, 5);
    assert_eq!(ins[1].op, Some(Opcode::Return));
    assert!(ins[1].operands.is_empty());
}

#[test]
fn unknown_bytes_stand_alone() {
    let code = vec![0x0f, Opcode::Return.to_byte()];
    assert!(decodes_fully(&code));
    let ins = disassemble(&code);
    assert_eq!(ins.len(), 2);
    assert_eq!(ins[0].op, None);
    assert_eq!(ins[0].byte, 0x0f);
    assert_eq!(ins[1].offset, 1);
}

#[test]
fn truncated_operands_do_not_decode() {
    assert!(!decodes_fully(&vec![Opcode::PushI32.to_byte(), 1, 2]));
    assert!(decodes_fully(&Vec::new()));
    assert!(disassemble(&Vec::new()).is_empty());
}

#[test]
fn diagnostic_text() {
    let e = CompileError::error("bad token", "m.py", 3, 14);
    assert_eq!(e.to_text(), "m.py:3:14: error: bad token");
    let w = CompileError::warning("unused", "a.py", 1, 0);
    assert_eq!(w.to_text(), "a.py:1:0: warning: unused");
    let mut n = w.clone();
    n.level = ErrorLevel::Note;
    assert_eq!(n.to_text(), "a.py:1:0: note: unused");
}
