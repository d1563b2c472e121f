//! The mathematical model shared by borrowed and owned tagged values.
//!
//! A value of any elementary kind is abstracted as a [`ValueModel`]: scalars
//! by their numeric value, the two floating-point kinds by their IEEE-754 bit
//! patterns (the verifier reasons about the bits, never about float
//! arithmetic), text as a sequence of characters, byte buffers as a sequence
//! of bytes, enumerated values by their descriptor's model, and messages by
//! the message value itself.  Conversions between representations are
//! specified as preserving this model exactly.

use vstd::prelude::*;

verus! {

/// Model of an enum descriptor: the identity of the enum family and the set
/// of integer numbers the schema declares for it.
pub struct EnumDescriptorModel {
    /// Identity of the enum family; descriptors are interned process-wide,
    /// one id per family.
    pub id: u64,
    /// The numbers the schema declares, in declaration order.
    pub known: Seq<i32>,
}

/// Model of an enumerated value: the family it belongs to and its integer
/// number.  The number need not be one the family declares; out-of-range
/// numbers arise when a newer schema wrote the data.
pub struct EnumModel {
    /// Model of the family's descriptor.
    pub family: EnumDescriptorModel,
    /// The underlying integer number.
    pub number: i32,
}

/// The tagged mathematical value an elementary value stands for.
///
/// `M` is the dynamic message type of the surrounding reflection stack; this
/// layer carries message values through without inspecting them.
pub enum ValueModel<M> {
    /// `u32`
    U32(u32),
    /// `u64`
    U64(u64),
    /// `i32`
    I32(i32),
    /// `i64`
    I64(i64),
    /// 32-bit float, as its IEEE-754 bit pattern
    F32(u32),
    /// 64-bit float, as its IEEE-754 bit pattern
    F64(u64),
    /// `bool`
    Bool(bool),
    /// text
    String(Seq<char>),
    /// raw bytes
    Bytes(Seq<u8>),
    /// enumerated value
    Enum(EnumModel),
    /// message
    Message(M),
}

/// Bit pattern of the 32-bit float negative zero (sign bit alone).
pub const F32_NEG_ZERO_BITS: u32 = 0x8000_0000;

/// Bit pattern of the 64-bit float negative zero (sign bit alone).
pub const F64_NEG_ZERO_BITS: u64 = 0x8000_0000_0000_0000;

/// Whether a value is "non-zero": numbers are compared with zero (a float is
/// zero exactly when its bits are one of the two IEEE-754 zeros), a boolean
/// is its own answer, text and byte buffers are non-zero when non-empty, an
/// enumerated value when its number is non-zero, and a message always,
/// whatever it contains: the presence of a message is information.
pub open spec fn model_non_zero<M>(m: ValueModel<M>) -> bool {
    match m {
        ValueModel::U32(v) => v != 0,
        ValueModel::U64(v) => v != 0,
        ValueModel::I32(v) => v != 0,
        ValueModel::I64(v) => v != 0,
        ValueModel::F32(bits) => bits != 0 && bits != F32_NEG_ZERO_BITS,
        ValueModel::F64(bits) => bits != 0 && bits != F64_NEG_ZERO_BITS,
        ValueModel::Bool(v) => v,
        ValueModel::String(s) => s.len() != 0,
        ValueModel::Bytes(b) => b.len() != 0,
        ValueModel::Enum(e) => e.number != 0,
        ValueModel::Message(_) => true,
    }
}

/// Whether a value of this model is held by value, with no borrowed payload:
/// all scalar kinds and enumerated values.  Text, bytes and messages borrow
/// from their source.
pub open spec fn model_is_copy<M>(m: ValueModel<M>) -> bool {
    match m {
        ValueModel::String(_) => false,
        ValueModel::Bytes(_) => false,
        ValueModel::Message(_) => false,
        _ => true,
    }
}

} // verus!
