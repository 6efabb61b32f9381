//! The C types the bridge understands, their sizes, and marshalled values
//! written into raw buffers.
use vstd::prelude::*;

use crate::bytecode::le::le_bytes;
use crate::bytecode::writer::push_le;

verus! {

/// A C type. Copies are made with `copy_ctype`.
#[derive(Debug)]
pub enum CType {
    Void,
    Bool,
    Char,
    UChar,
    Short,
    UShort,
    Int,
    UInt,
    Long,
    ULong,
    LongLong,
    ULongLong,
    Float,
    Double,
    Pointer(Box<CType>),
    ConstPointer(Box<CType>),
    FuncPtr(Box<CType>),
    Array(Box<CType>, usize),
    Struct(String),
    Enum(String, Box<CType>),
    VarArg,
}

/// A C type as a value: names are character sequences.
pub enum CTypeView {
    Void,
    Bool,
    Char,
    UChar,
    Short,
    UShort,
    Int,
    UInt,
    Long,
    ULong,
    LongLong,
    ULongLong,
    Float,
    Double,
    Pointer(Box<CTypeView>),
    ConstPointer(Box<CTypeView>),
    FuncPtr(Box<CTypeView>),
    Array(Box<CTypeView>, usize),
    Struct(Seq<char>),
    Enum(Seq<char>, Box<CTypeView>),
    VarArg,
}

/// The value of a C type.
pub open spec fn ctype_view(t: CType) -> CTypeView
    decreases t,
{
    match t {
        CType::Void => CTypeView::Void,
        CType::Bool => CTypeView::Bool,
        CType::Char => CTypeView::Char,
        CType::UChar => CTypeView::UChar,
        CType::Short => CTypeView::Short,
        CType::UShort => CTypeView::UShort,
        CType::Int => CTypeView::Int,
        CType::UInt => CTypeView::UInt,
        CType::Long => CTypeView::Long,
        CType::ULong => CTypeView::ULong,
        CType::LongLong => CTypeView::LongLong,
        CType::ULongLong => CTypeView::ULongLong,
        CType::Float => CTypeView::Float,
        CType::Double => CTypeView::Double,
        CType::Pointer(inner) => CTypeView::Pointer(Box::new(ctype_view(*inner))),
        CType::ConstPointer(inner) => CTypeView::ConstPointer(Box::new(ctype_view(*inner))),
        CType::FuncPtr(inner) => CTypeView::FuncPtr(Box::new(ctype_view(*inner))),
        CType::Array(inner, n) => CTypeView::Array(Box::new(ctype_view(*inner)), n),
        CType::Struct(s) => CTypeView::Struct(s@),
        CType::Enum(s, inner) => CTypeView::Enum(s@, Box::new(ctype_view(*inner))),
        CType::VarArg => CTypeView::VarArg,
    }
}

/// The size of a pointer on this machine.
pub open spec fn ptr_size() -> nat {
    vstd::layout::size_of::<usize>()
}

/// The size of a C type in bytes: `long` is 8 bytes, pointers, structs
/// (passed by reference) and enums take a machine word, an array its
/// element size times its length.
pub open spec fn ctype_size(t: CType) -> nat
    decreases t,
{
    match t {
        CType::Void => 0,
        CType::Bool => 1,
        CType::Char | CType::UChar => 1,
        CType::Short | CType::UShort => 2,
        CType::Int | CType::UInt => 4,
        CType::Float => 4,
        CType::Long | CType::ULong => 8,
        CType::LongLong | CType::ULongLong => 8,
        CType::Double => 8,
        CType::Pointer(_) | CType::ConstPointer(_) | CType::FuncPtr(_) => ptr_size(),
        CType::Array(inner, n) => ctype_size(*inner) * (n as nat),
        CType::Struct(_) | CType::Enum(_, _) => ptr_size(),
        CType::VarArg => 0,
    }
}

/// Every size met while computing `ctype_size(t)` fits in `usize`.
pub open spec fn size_fits(t: CType) -> bool
    decreases t,
{
    match t {
        CType::Array(inner, n) => size_fits(*inner) && ctype_size(*inner) * n <= usize::MAX,
        _ => true,
    }
}

/// A copy of a C type.
pub fn copy_ctype(t: &CType) -> (r: CType)
    ensures
        r == *t,
    decreases t,
{
    match t {
        CType::Void => CType::Void,
        CType::Bool => CType::Bool,
        CType::Char => CType::Char,
        CType::UChar => CType::UChar,
        CType::Short => CType::Short,
        CType::UShort => CType::UShort,
        CType::Int => CType::Int,
        CType::UInt => CType::UInt,
        CType::Long => CType::Long,
        CType::ULong => CType::ULong,
        CType::LongLong => CType::LongLong,
        CType::ULongLong => CType::ULongLong,
        CType::Float => CType::Float,
        CType::Double => CType::Double,
        CType::Pointer(inner) => CType::Pointer(Box::new(copy_ctype(inner))),
        CType::ConstPointer(inner) => CType::ConstPointer(Box::new(copy_ctype(inner))),
        CType::FuncPtr(inner) => CType::FuncPtr(Box::new(copy_ctype(inner))),
        CType::Array(inner, n) => CType::Array(Box::new(copy_ctype(inner)), *n),
        CType::Struct(s) => CType::Struct(s.clone()),
        CType::Enum(s, inner) => CType::Enum(s.clone(), Box::new(copy_ctype(inner))),
        CType::VarArg => CType::VarArg,
    }
}

impl CType {
    /// The size of this type in bytes.
    pub fn size(&self) -> (r: usize)
        requires
            size_fits(*self),
        ensures
            r == ctype_size(*self),
        decreases self,
    {
        broadcast use vstd::layout::layout_of_primitives;

        match self {
            CType::Void => 0,
            CType::Bool => 1,
            CType::Char | CType::UChar => 1,
            CType::Short | CType::UShort => 2,
            CType::Int | CType::UInt => 4,
            CType::Float => 4,
            CType::Long | CType::ULong => 8,
            CType::LongLong | CType::ULongLong => 8,
            CType::Double => 8,
            CType::Pointer(_) | CType::ConstPointer(_) | CType::FuncPtr(_) => {
                core::mem::size_of::<usize>()
            },
            CType::Array(inner, n) => {
                let s = inner.size();
                s * *n
            },
            CType::Struct(_) | CType::Enum(_, _) => core::mem::size_of::<usize>(),
            CType::VarArg => 0,
        }
    }

    /// The alignment of this type: its size.
    pub fn alignment(&self) -> (r: usize)
        requires
            size_fits(*self),
        ensures
            r == ctype_size(*self),
    {
        self.size()
    }
}

/// A C value ready to be passed to a foreign function; a float is held
/// by its IEEE-754 bit pattern.
#[derive(Clone, Debug)]
pub enum MarshalledValue {
    Void,
    Int(i64),
    UInt(u64),
    Float(u64),
    Ptr(usize),
    Struct(Vec<u8>),
    Array(Vec<u8>),
    CString(Vec<u8>),
}

/// The raw bytes of a marshalled value: numbers little-endian (8 bytes, a
/// pointer one machine word), aggregates and strings as they are.
pub open spec fn marshalled_bytes(m: MarshalledValue) -> Seq<u8> {
    match m {
        MarshalledValue::Void => Seq::empty(),
        MarshalledValue::Int(v) => le_bytes((v as u64) as nat, 8),
        MarshalledValue::UInt(v) => le_bytes(v as nat, 8),
        MarshalledValue::Float(bits) => le_bytes(bits as nat, 8),
        MarshalledValue::Ptr(p) => le_bytes(p as nat, ptr_size()),
        MarshalledValue::Struct(d) => d@,
        MarshalledValue::Array(d) => d@,
        MarshalledValue::CString(d) => d@,
    }
}

impl MarshalledValue {
    fn raw_bytes(&self) -> (r: Vec<u8>)
        ensures
            r@ == marshalled_bytes(*self),
    {
        broadcast use vstd::layout::layout_of_primitives;

        let mut out: Vec<u8> = Vec::new();
        match self {
            MarshalledValue::Void => {},
            MarshalledValue::Int(v) => push_le(&mut out, *v as u64, 8),
            MarshalledValue::UInt(v) => push_le(&mut out, *v, 8),
            MarshalledValue::Float(bits) => push_le(&mut out, *bits, 8),
            MarshalledValue::Ptr(p) => push_le(&mut out, *p as u64, core::mem::size_of::<usize>()),
            MarshalledValue::Struct(d) => {
                out = d.clone();
            },
            MarshalledValue::Array(d) => {
                out = d.clone();
            },
            MarshalledValue::CString(d) => {
                out = d.clone();
            },
        }
        out
    }

    /// Writes the value's bytes over the start of `buf`, as many as fit;
    /// the rest of `buf` keeps what it held.
    pub fn write_to(&self, buf: &mut Vec<u8>)
        ensures
            final(buf)@.len() == old(buf)@.len(),
            ({
                let data = marshalled_bytes(*self);
                let k = if old(buf)@.len() < data.len() {
                    old(buf)@.len() as int
                } else {
                    data.len() as int
                };
                final(buf)@ == data.take(k) + old(buf)@.skip(k)
            }),
    {
        let data = self.raw_bytes();
        let k = if buf.len() < data.len() {
            buf.len()
        } else {
            data.len()
        };
        let ghost start = buf@;
        let mut i: usize = 0;
        while i < k
            invariant
                i <= k,
                k <= data@.len(),
                k <= start.len(),
                data@ == marshalled_bytes(*self),
                buf@ == data@.take(i as int) + start.skip(i as int),
            decreases k - i,
        {
            buf.set(i, data[i]);
            i = i + 1;
            assert(buf@ =~= data@.take(i as int) + start.skip(i as int));
        }
    }
}

} // verus!
