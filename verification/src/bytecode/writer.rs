//! Emitting and decoding raw bytecode.
use vstd::prelude::*;

use crate::bytecode::le::{le_bytes, le_value, pow256, lemma_le_value_bound, lemma_pow256_values};
use crate::opcodes::{opcode_info, Opcode};

verus! {

/// Appends `n` little-endian bytes of `v`.
pub(crate) fn push_le(bytes: &mut Vec<u8>, v: u64, n: usize)
    requires
        n <= 8,
    ensures
        final(bytes)@ == old(bytes)@ + le_bytes(v as nat, n as nat),
{
    let ghost start = bytes@;
    let mut x: u64 = v;
    let mut i: usize = 0;
    while i < n
        invariant
            i <= n,
            bytes@ + le_bytes(x as nat, (n - i) as nat) =~= start + le_bytes(v as nat, n as nat),
        decreases n - i,
    {
        let ghost before = bytes@;
        let ghost x0 = x as nat;
        let ghost k = (n - i) as nat;
        assert(le_bytes(x0, k) =~= seq![(x0 % 256) as u8] + le_bytes(x0 / 256, (k - 1) as nat));
        bytes.push((x % 256) as u8);
        x = x / 256;
        i = i + 1;
        assert(bytes@ =~= before + seq![(x0 % 256) as u8]);
        assert(bytes@ + le_bytes(x as nat, (n - i) as nat) =~= before + le_bytes(x0, k));
    }
}

/// A growable buffer of bytecode.
pub struct BytecodeWriter {
    bytes: Vec<u8>,
}

impl View for BytecodeWriter {
    type V = Seq<u8>;

    closed spec fn view(&self) -> Seq<u8> {
        self.bytes@
    }
}

impl BytecodeWriter {
    pub fn new() -> (w: Self)
        ensures
            w@ == Seq::<u8>::empty(),
    {
        BytecodeWriter { bytes: Vec::new() }
    }

    /// Appends one opcode byte.
    pub fn emit(&mut self, opcode: Opcode)
        ensures
            final(self)@ == old(self)@.push(opcode.byte()),
    {
        self.bytes.push(opcode.to_byte());
    }

    /// Number of bytes emitted so far.
    pub fn len(&self) -> (r: usize)
        ensures
            r == self@.len(),
    {
        self.bytes.len()
    }

    /// The emitted bytes, for direct extension.
    pub fn bytes_mut(&mut self) -> (r: &mut Vec<u8>)
        ensures
            r@ == old(self)@,
            final(self)@ == final(r)@,
    {
        &mut self.bytes
    }

    /// The emitted bytes.
    pub fn bytes(&self) -> (r: &[u8])
        ensures
            r@ == self@,
    {
        self.bytes.as_slice()
    }

    pub fn emit_u16(&mut self, val: u16)
        ensures
            final(self)@ == old(self)@ + le_bytes(val as nat, 2),
    {
        push_le(&mut self.bytes, val as u64, 2);
    }

    pub fn emit_i16(&mut self, val: i16)
        ensures
            final(self)@ == old(self)@ + le_bytes((val as u16) as nat, 2),
    {
        push_le(&mut self.bytes, (val as u16) as u64, 2);
    }

    pub fn emit_u32(&mut self, val: u32)
        ensures
            final(self)@ == old(self)@ + le_bytes(val as nat, 4),
    {
        push_le(&mut self.bytes, val as u64, 4);
    }

    pub fn emit_i32(&mut self, val: i32)
        ensures
            final(self)@ == old(self)@ + le_bytes((val as u32) as nat, 4),
    {
        push_le(&mut self.bytes, (val as u32) as u64, 4);
    }

    pub fn emit_i64(&mut self, val: i64)
        ensures
            final(self)@ == old(self)@ + le_bytes((val as u64) as nat, 8),
    {
        push_le(&mut self.bytes, val as u64, 8);
    }

    /// Appends an `f32` given by its IEEE-754 bit pattern.
    pub fn emit_f32_bits(&mut self, bits: u32)
        ensures
            final(self)@ == old(self)@ + le_bytes(bits as nat, 4),
    {
        push_le(&mut self.bytes, bits as u64, 4);
    }

    /// Appends an `f64` given by its IEEE-754 bit pattern.
    pub fn emit_f64_bits(&mut self, bits: u64)
        ensures
            final(self)@ == old(self)@ + le_bytes(bits as nat, 8),
    {
        push_le(&mut self.bytes, bits, 8);
    }

    /// Appends an opcode byte followed by a 16-bit operand.
    pub fn emit_op(&mut self, opcode: Opcode, operand: u16)
        ensures
            final(self)@ == old(self)@.push(opcode.byte()) + le_bytes(operand as nat, 2),
    {
        self.bytes.push(opcode.to_byte());
        push_le(&mut self.bytes, operand as u64, 2);
    }

    pub fn into_bytes(self) -> (r: Vec<u8>)
        ensures
            r@ == self@,
    {
        self.bytes
    }
}

} // verus!

verus! {

/// The operand value that `read_instruction` reports for `op`, given the
/// operand bytes that follow the opcode.
pub open spec fn instruction_operand(op: Opcode, operand: Seq<u8>) -> u32 {
    if op.operand_size() == 1 {
        operand[0] as u32
    } else if op.operand_size() == 2 || op.operand_size() == 4 || op.operand_size() == 8 {
        (le_value(operand) % 0x1_0000_0000) as u32
    } else {
        0
    }
}

/// A cursor over a byte slice.
pub struct BytecodeReader<'a> {
    bytes: &'a [u8],
    pos: usize,
}

impl<'a> BytecodeReader<'a> {
    /// The bytes being read.
    pub closed spec fn data(&self) -> Seq<u8> {
        self.bytes@
    }

    /// The cursor position.
    pub closed spec fn at(&self) -> nat {
        self.pos as nat
    }

    /// The `n` bytes under the cursor.
    pub open spec fn ahead(&self, n: nat) -> Seq<u8> {
        self.data().subrange(self.at() as int, (self.at() + n) as int)
    }

    pub fn new(bytes: &'a [u8]) -> (r: Self)
        ensures
            r.data() == bytes@,
            r.at() == 0,
    {
        BytecodeReader { bytes, pos: 0 }
    }

    /// Bytes left after the cursor (0 when the cursor is past the end).
    pub fn remaining(&self) -> (r: usize)
        ensures
            r == (if self.at() < self.data().len() { self.data().len() - self.at() } else { 0 }),
    {
        self.bytes.len().saturating_sub(self.pos)
    }

    pub fn pos(&self) -> (r: usize)
        ensures
            r == self.at(),
    {
        self.pos
    }

    pub fn set_pos(&mut self, pos: usize)
        ensures
            final(self).data() == old(self).data(),
            final(self).at() == pos,
    {
        self.pos = pos;
    }

    /// Reads `n` bytes as a little-endian unsigned value.
    fn read_le(&mut self, n: usize) -> (r: u64)
        requires
            n <= 8,
            old(self).at() + n <= old(self).data().len(),
        ensures
            r as nat == le_value(old(self).ahead(n as nat)),
            final(self).data() == old(self).data(),
            final(self).at() == old(self).at() + n,
    {
        let ghost d = self.bytes@;
        let p = self.pos;
        let len = self.bytes.len();
        let mut acc: u64 = 0;
        let mut k: usize = n;
        assert(d.subrange(p + n, p + n) =~= Seq::<u8>::empty());
        while k > 0
            invariant
                k <= n <= 8,
                p + n <= len,
                len == d.len(),
                d == self.bytes@,
                p == self.pos,
                acc as nat == le_value(d.subrange(p + k, p + n)),
            decreases k,
        {
            let b = self.bytes[p + k - 1];
            let ghost s = d.subrange(p + k - 1, p + n);
            proof {
                assert(s.drop_first() =~= d.subrange(p + k, p + n));
                assert(s[0] == b);
                lemma_le_value_bound(s);
                crate::bytecode::le::lemma_pow256_mono(s.len(), 8);
                lemma_pow256_values();
            }
            acc = acc * 256 + b as u64;
            k = k - 1;
        }
        self.pos = p + n;
        acc
    }

    pub fn read_u8(&mut self) -> (r: u8)
        requires
            old(self).at() < old(self).data().len(),
        ensures
            r == old(self).data()[old(self).at() as int],
            final(self).data() == old(self).data(),
            final(self).at() == old(self).at() + 1,
    {
        let b = self.bytes[self.pos];
        self.pos = self.pos + 1;
        b
    }

    pub fn read_i16(&mut self) -> (r: i16)
        requires
            old(self).at() + 2 <= old(self).data().len(),
        ensures
            r == (le_value(old(self).ahead(2)) as u16) as i16,
            final(self).data() == old(self).data(),
            final(self).at() == old(self).at() + 2,
    {
        (self.read_le(2) as u16) as i16
    }

    pub fn read_u16(&mut self) -> (r: u16)
        requires
            old(self).at() + 2 <= old(self).data().len(),
        ensures
            r as nat == le_value(old(self).ahead(2)),
            final(self).data() == old(self).data(),
            final(self).at() == old(self).at() + 2,
    {
        proof {
            lemma_le_value_bound(self.ahead(2));
            lemma_pow256_values();
        }
        self.read_le(2) as u16
    }

    pub fn read_i32(&mut self) -> (r: i32)
        requires
            old(self).at() + 4 <= old(self).data().len(),
        ensures
            r == (le_value(old(self).ahead(4)) as u32) as i32,
            final(self).data() == old(self).data(),
            final(self).at() == old(self).at() + 4,
    {
        (self.read_le(4) as u32) as i32
    }

    pub fn read_i64(&mut self) -> (r: i64)
        requires
            old(self).at() + 8 <= old(self).data().len(),
        ensures
            r == (le_value(old(self).ahead(8)) as u64) as i64,
            final(self).data() == old(self).data(),
            final(self).at() == old(self).at() + 8,
    {
        self.read_le(8) as i64
    }

    /// Reads the next opcode byte; `None` at the end of the data or for a
    /// byte that is no opcode.
    pub fn next_opcode(&mut self) -> (r: Option<Opcode>)
        ensures
            final(self).data() == old(self).data(),
            old(self).at() >= old(self).data().len() ==> r is None && final(self).at()
                == old(self).at(),
            old(self).at() < old(self).data().len() ==> r == Opcode::spec_from_byte(
                old(self).data()[old(self).at() as int],
            ) && final(self).at() == old(self).at() + 1,
    {
        if self.pos >= self.bytes.len() {
            return None;
        }
        let byte = self.read_u8();
        Opcode::from_byte(byte)
    }

    /// The opcode under the cursor, without moving it.
    pub fn peek_opcode(&self) -> (r: Option<Opcode>)
        ensures
            self.at() >= self.data().len() ==> r is None,
            self.at() < self.data().len() ==> r == Opcode::spec_from_byte(
                self.data()[self.at() as int],
            ),
    {
        if self.pos >= self.bytes.len() {
            return None;
        }
        Opcode::from_byte(self.bytes[self.pos])
    }

    /// Reads an opcode and its operand.
    pub fn read_instruction(&mut self) -> (r: Option<(Opcode, u32)>)
        requires
            old(self).at() < old(self).data().len() ==> (Opcode::spec_from_byte(
                old(self).data()[old(self).at() as int],
            ) matches Some(op) ==> old(self).at() + 1 + op.operand_size() <= old(
                self,
            ).data().len()),
        ensures
            final(self).data() == old(self).data(),
            old(self).at() >= old(self).data().len() ==> r is None && final(self).at()
                == old(self).at(),
            old(self).at() < old(self).data().len() ==> match Opcode::spec_from_byte(
                old(self).data()[old(self).at() as int],
            ) {
                None => r is None && final(self).at() == old(self).at() + 1,
                Some(op) => {
                    let start = old(self).at() + 1;
                    let n = op.operand_size() as nat;
                    &&& r == Some(
                        (op, instruction_operand(op, old(self).data().subrange(start as int, (start + n) as int))),
                    )
                    &&& final(self).at() == start + n
                },
            },
    {
        let op = match self.next_opcode() {
            Some(op) => op,
            None => return None,
        };
        let info = opcode_info(op);
        let ghost start = self.at();
        let ghost operand_bytes = self.ahead(info.operand_size as nat);
        let operand: u32 = if info.operand_size == 0 {
            0
        } else if info.operand_size == 1 {
            self.read_u8() as u32
        } else if info.operand_size == 2 {
            self.read_u16() as u32
        } else if info.operand_size == 4 {
            let v = self.read_i32();
            proof {
                let x = le_value(operand_bytes);
                lemma_le_value_bound(operand_bytes);
                lemma_pow256_values();
                let y = x as u32;
                assert((y as i32) as u32 == y) by (bit_vector);
            }
            v as u32
        } else if info.operand_size == 8 {
            let v = self.read_i64();
            proof {
                let x = le_value(operand_bytes);
                lemma_le_value_bound(operand_bytes);
                lemma_pow256_values();
                let y = x as u64;
                assert(((y as i64) as u32) == (y as u32)) by (bit_vector);
                assert((y as u32) as int == (y as int) % 0x1_0000_0000) by (bit_vector);
            }
            v as u32
        } else {
            0
        };
        Some((op, operand))
    }
}

} // verus!

verus! {

/// What `emit_u16`/`emit_i16`/`emit_i32`/`emit_i64` append, `read_u16`/
/// `read_i16`/`read_i32`/`read_i64` give back.
pub proof fn lemma_read_back_values(a: u16, b: i16, c: i32, d: i64)
    ensures
        le_value(le_bytes(a as nat, 2)) == a,
        (le_value(le_bytes((b as u16) as nat, 2)) as u16) as i16 == b,
        (le_value(le_bytes((c as u32) as nat, 4)) as u32) as i32 == c,
        (le_value(le_bytes((d as u64) as nat, 8)) as u64) as i64 == d,
{
    lemma_pow256_values();
    crate::bytecode::le::lemma_le_roundtrip(a as nat, 2);
    crate::bytecode::le::lemma_le_roundtrip((b as u16) as nat, 2);
    crate::bytecode::le::lemma_le_roundtrip((c as u32) as nat, 4);
    crate::bytecode::le::lemma_le_roundtrip((d as u64) as nat, 8);
    assert(((b as u16) as i16) == b) by (bit_vector);
    assert(((c as u32) as i32) == c) by (bit_vector);
    assert(((d as u64) as i64) == d) by (bit_vector);
}

/// An instruction written by `emit_op` is read back by `read_instruction`
/// as the same opcode and operand.
pub proof fn lemma_emit_op_read_back(op: Opcode, operand: u16)
    requires
        op.operand_size() == 2,
    ensures
        Opcode::spec_from_byte(op.byte()) == Some(op),
        instruction_operand(op, le_bytes(operand as nat, 2)) == operand as u32,
        le_bytes(operand as nat, 2).len() == op.operand_size(),
{
    lemma_pow256_values();
    crate::bytecode::le::lemma_le_roundtrip(operand as nat, 2);
    crate::bytecode::le::lemma_le_bytes_len(operand as nat, 2);
}

} // verus!
