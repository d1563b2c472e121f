//! Borrowed and owned tagged elementary values, the capability contract all
//! elementary types implement, and the type-identity-checked downcast.

use vstd::prelude::*;
use vstd::slice::slice_to_vec;

use crate::chars::Chars;
use crate::enums::EnumDescriptor;
use crate::enums::ProtobufEnum;
use crate::enums::ProtobufEnumOrUnknown;
use crate::message::MessageValue;
use crate::model::model_is_copy;
use crate::model::model_non_zero;
use crate::model::EnumModel;
use crate::model::ValueModel;
use crate::model::F32_NEG_ZERO_BITS;
use crate::model::F64_NEG_ZERO_BITS;
use crate::shared::bytes_as_slice;
use crate::shared::bytes_content;
use crate::shared::bytes_from_vec;

verus! {

/// Contract implemented by all elementary types a schema field can hold
/// (integers, floats, booleans, text, bytes, enums, messages): produce a
/// borrowed tagged view of the value, report whether it is the type's "zero",
/// and recover the exact type back from an owned tagged value.
///
/// `M` is the dynamic message type of the surrounding reflection stack; that
/// stack implements this contract for `M` itself and for each concrete enum
/// and message type its generated code defines.
pub trait ProtobufValue<M: MessageValue>: Sized + Send + Sync {
    /// The tagged mathematical value this value stands for.
    spec fn value_model(&self) -> ValueModel<M>;

    /// The owned tagged values that downcast to this type: exactly those
    /// whose stored variant matches the type.
    spec fn accepts(m: ValueModel<M>) -> bool;

    /// A borrowed tagged view of this value, of the variant matching the
    /// implementing type exactly.
    fn as_ref<'a>(&'a self) -> (r: ReflectValueRef<'a, M>)
        ensures
            r@ == self.value_model(),
    ;

    /// Recovers this exact type from an owned tagged value.  On a mismatch
    /// the input comes back unchanged, so no information is lost.
    fn from_box(b: ReflectValueBox<M>) -> (r: Result<Self, ReflectValueBox<M>>)
        ensures
            match r {
                Ok(v) => Self::accepts(b@) && v.value_model() == b@,
                Err(e) => !Self::accepts(b@) && e@ == b@,
            },
    ;

    /// Is value non-zero?
    fn is_non_zero(&self) -> (r: bool)
        ensures
            r == model_non_zero(self.value_model()),
    {
        self.as_ref().is_non_zero()
    }

    /// The same information as `as_ref`, but without a borrow tied to
    /// `self`.  Only the by-value variants (scalars and enums) have one;
    /// asking for it on a text, byte or message value is a caller error,
    /// ruled out here instead of failing at run time.
    fn as_ref_copy(&self) -> (r: ReflectValueRef<'static, M>)
        requires
            model_is_copy(self.value_model()),
        ensures
            r@ == self.value_model(),
    {
        match self.as_ref() {
            ReflectValueRef::Bool(v) => ReflectValueRef::Bool(v),
            ReflectValueRef::U32(v) => ReflectValueRef::U32(v),
            ReflectValueRef::U64(v) => ReflectValueRef::U64(v),
            ReflectValueRef::I32(v) => ReflectValueRef::I32(v),
            ReflectValueRef::I64(v) => ReflectValueRef::I64(v),
            ReflectValueRef::F32(v) => ReflectValueRef::F32(v),
            ReflectValueRef::F64(v) => ReflectValueRef::F64(v),
            ReflectValueRef::Enum(d, n) => ReflectValueRef::Enum(d, n),
            ReflectValueRef::String(_) => vstd::pervasive::unreached(),
            ReflectValueRef::Bytes(_) => vstd::pervasive::unreached(),
            ReflectValueRef::Message(_) => vstd::pervasive::unreached(),
        }
    }
}

/// A reference to a value: a copyable scalar by value, or a view borrowed
/// from the value it was taken from, which it must not outlive.
#[derive(Debug)]
pub enum ReflectValueRef<'a, M: MessageValue> {
    /// `u32`
    U32(u32),
    /// `u64`
    U64(u64),
    /// `i32`
    I32(i32),
    /// `i64`
    I64(i64),
    /// 32-bit float, as its IEEE-754 bit pattern
    F32(u32),
    /// 64-bit float, as its IEEE-754 bit pattern
    F64(u64),
    /// `bool`
    Bool(bool),
    /// `string`
    String(&'a str),
    /// `bytes`
    Bytes(&'a [u8]),
    /// `enum`: the family's process-wide descriptor and the underlying number
    Enum(&'static EnumDescriptor, i32),
    /// `message`
    Message(&'a M),
}

impl<'a, M: MessageValue> View for ReflectValueRef<'a, M> {
    type V = ValueModel<M>;

    open spec fn view(&self) -> ValueModel<M> {
        match *self {
            ReflectValueRef::U32(v) => ValueModel::U32(v),
            ReflectValueRef::U64(v) => ValueModel::U64(v),
            ReflectValueRef::I32(v) => ValueModel::I32(v),
            ReflectValueRef::I64(v) => ValueModel::I64(v),
            ReflectValueRef::F32(bits) => ValueModel::F32(bits),
            ReflectValueRef::F64(bits) => ValueModel::F64(bits),
            ReflectValueRef::Bool(v) => ValueModel::Bool(v),
            ReflectValueRef::String(s) => ValueModel::String(s@),
            ReflectValueRef::Bytes(b) => ValueModel::Bytes(b@),
            ReflectValueRef::Enum(d, n) => ValueModel::Enum(EnumModel { family: d@, number: n }),
            ReflectValueRef::Message(m) => ValueModel::Message(*m),
        }
    }
}

impl<'a, M: MessageValue> Clone for ReflectValueRef<'a, M> {
    /// A clone borrows from the same source and stands for the same value.
    fn clone(&self) -> (r: Self)
        ensures
            r@ == self@,
    {
        match *self {
            ReflectValueRef::U32(v) => ReflectValueRef::U32(v),
            ReflectValueRef::U64(v) => ReflectValueRef::U64(v),
            ReflectValueRef::I32(v) => ReflectValueRef::I32(v),
            ReflectValueRef::I64(v) => ReflectValueRef::I64(v),
            ReflectValueRef::F32(v) => ReflectValueRef::F32(v),
            ReflectValueRef::F64(v) => ReflectValueRef::F64(v),
            ReflectValueRef::Bool(v) => ReflectValueRef::Bool(v),
            ReflectValueRef::String(s) => ReflectValueRef::String(s),
            ReflectValueRef::Bytes(b) => ReflectValueRef::Bytes(b),
            ReflectValueRef::Enum(d, n) => ReflectValueRef::Enum(d, n),
            ReflectValueRef::Message(m) => ReflectValueRef::Message(m),
        }
    }
}

impl<'a, M: MessageValue> ReflectValueRef<'a, M> {
    /// Value is "non-zero"?  Numbers are compared with zero (a float by its
    /// bit pattern, so both IEEE-754 zeros count as zero), text and byte
    /// buffers are non-zero when non-empty, an enum when its number is
    /// non-zero, and a message always, whatever it contains.
    pub fn is_non_zero(&self) -> (r: bool)
        ensures
            r == model_non_zero(self@),
    {
        match *self {
            ReflectValueRef::U32(v) => v != 0,
            ReflectValueRef::U64(v) => v != 0,
            ReflectValueRef::I32(v) => v != 0,
            ReflectValueRef::I64(v) => v != 0,
            ReflectValueRef::F32(bits) => bits != 0 && bits != F32_NEG_ZERO_BITS,
            ReflectValueRef::F64(bits) => bits != 0 && bits != F64_NEG_ZERO_BITS,
            ReflectValueRef::Bool(v) => v,
            ReflectValueRef::String(v) => !v.is_empty(),
            ReflectValueRef::Bytes(v) => !v.is_empty(),
            ReflectValueRef::Enum(_, n) => n != 0,
            ReflectValueRef::Message(_) => true,
        }
    }

    /// Take `i32` value.
    pub fn to_i32(&self) -> (r: Option<i32>)
        ensures
            match self@ {
                ValueModel::I32(v) => r == Some(v),
                _ => r is None,
            },
    {
        match *self {
            ReflectValueRef::I32(v) => Some(v),
            _ => None,
        }
    }

    /// Take `i64` value.
    pub fn to_i64(&self) -> (r: Option<i64>)
        ensures
            match self@ {
                ValueModel::I64(v) => r == Some(v),
                _ => r is None,
            },
    {
        match *self {
            ReflectValueRef::I64(v) => Some(v),
            _ => None,
        }
    }

    /// Take `u32` value.
    pub fn to_u32(&self) -> (r: Option<u32>)
        ensures
            match self@ {
                ValueModel::U32(v) => r == Some(v),
                _ => r is None,
            },
    {
        match *self {
            ReflectValueRef::U32(v) => Some(v),
            _ => None,
        }
    }

    /// Take `u64` value.
    pub fn to_u64(&self) -> (r: Option<u64>)
        ensures
            match self@ {
                ValueModel::U64(v) => r == Some(v),
                _ => r is None,
            },
    {
        match *self {
            ReflectValueRef::U64(v) => Some(v),
            _ => None,
        }
    }

    /// Take the 32-bit float value, as its IEEE-754 bit pattern.
    pub fn to_f32(&self) -> (r: Option<u32>)
        ensures
            match self@ {
                ValueModel::F32(bits) => r == Some(bits),
                _ => r is None,
            },
    {
        match *self {
            ReflectValueRef::F32(bits) => Some(bits),
            _ => None,
        }
    }

    /// Take the 64-bit float value, as its IEEE-754 bit pattern.
    pub fn to_f64(&self) -> (r: Option<u64>)
        ensures
            match self@ {
                ValueModel::F64(bits) => r == Some(bits),
                _ => r is None,
            },
    {
        match *self {
            ReflectValueRef::F64(bits) => Some(bits),
            _ => None,
        }
    }

    /// Take `bool` value.
    pub fn to_bool(&self) -> (r: Option<bool>)
        ensures
            match self@ {
                ValueModel::Bool(v) => r == Some(v),
                _ => r is None,
            },
    {
        match *self {
            ReflectValueRef::Bool(v) => Some(v),
            _ => None,
        }
    }

    /// Take `str` value.
    pub fn to_str(&self) -> (r: Option<&'a str>)
        ensures
            match self@ {
                ValueModel::String(s) => r is Some && r->0@ == s,
                _ => r is None,
            },
    {
        match *self {
            ReflectValueRef::String(v) => Some(v),
            _ => None,
        }
    }

    /// Take `[u8]` value.
    pub fn to_bytes(&self) -> (r: Option<&'a [u8]>)
        ensures
            match self@ {
                ValueModel::Bytes(b) => r is Some && r->0@ == b,
                _ => r is None,
            },
    {
        match *self {
            ReflectValueRef::Bytes(v) => Some(v),
            _ => None,
        }
    }

    /// Take message value.
    pub fn to_message(&self) -> (r: Option<&'a M>)
        ensures
            match self@ {
                ValueModel::Message(m) => r is Some && *r->0 == m,
                _ => r is None,
            },
    {
        match *self {
            ReflectValueRef::Message(m) => Some(m),
            _ => None,
        }
    }

    /// Clone to a box: scalars by value, text and bytes by copying the
    /// contents, enums by the same descriptor, messages by their own
    /// polymorphic clone.  The owned value stands for the same tagged value.
    pub fn to_box(&self) -> (r: ReflectValueBox<M>)
        ensures
            r@ == self@,
    {
        match *self {
            ReflectValueRef::U32(v) => ReflectValueBox::U32(v),
            ReflectValueRef::U64(v) => ReflectValueBox::U64(v),
            ReflectValueRef::I32(v) => ReflectValueBox::I32(v),
            ReflectValueRef::I64(v) => ReflectValueBox::I64(v),
            ReflectValueRef::F32(bits) => ReflectValueBox::F32(bits),
            ReflectValueRef::F64(bits) => ReflectValueBox::F64(bits),
            ReflectValueRef::Bool(v) => ReflectValueBox::Bool(v),
            ReflectValueRef::String(v) => ReflectValueBox::String(v.to_owned()),
            ReflectValueRef::Bytes(v) => ReflectValueBox::Bytes(slice_to_vec(v)),
            ReflectValueRef::Enum(d, n) => ReflectValueBox::Enum(d, n),
            ReflectValueRef::Message(v) => ReflectValueBox::Message(v.clone_message()),
        }
    }

    /// Convert a value to an arbitrary elementary type: promote to an owned
    /// value and downcast.  On a mismatch the caller keeps an equivalent
    /// borrowed value.
    pub fn downcast_clone<V: ProtobufValue<M>>(&self) -> (r: Result<V, ReflectValueRef<'a, M>>)
        ensures
            match r {
                Ok(v) => V::accepts(self@) && v.value_model() == self@,
                Err(e) => !V::accepts(self@) && e@ == self@,
            },
    {
        match self.to_box().downcast::<V>() {
            Ok(v) => Ok(v),
            Err(_) => Err(self.clone()),
        }
    }
}

/// A mutable borrow of a value; only messages are exposed this way.
pub enum ReflectValueMut<'a, M: MessageValue> {
    /// `message`
    Message(&'a mut M),
}

/// Owned value of any elementary type.
#[derive(Debug, PartialEq)]
pub enum ReflectValueBox<M: MessageValue> {
    /// `u32`
    U32(u32),
    /// `u64`
    U64(u64),
    /// `i32`
    I32(i32),
    /// `i64`
    I64(i64),
    /// 32-bit float, as its IEEE-754 bit pattern
    F32(u32),
    /// 64-bit float, as its IEEE-754 bit pattern
    F64(u64),
    /// `bool`
    Bool(bool),
    /// `string`
    String(String),
    /// `bytes`
    Bytes(Vec<u8>),
    /// `enum`: the family's process-wide descriptor and the underlying number
    Enum(&'static EnumDescriptor, i32),
    /// `message`
    Message(M),
}

impl<M: MessageValue> View for ReflectValueBox<M> {
    type V = ValueModel<M>;

    open spec fn view(&self) -> ValueModel<M> {
        match *self {
            ReflectValueBox::U32(v) => ValueModel::U32(v),
            ReflectValueBox::U64(v) => ValueModel::U64(v),
            ReflectValueBox::I32(v) => ValueModel::I32(v),
            ReflectValueBox::I64(v) => ValueModel::I64(v),
            ReflectValueBox::F32(bits) => ValueModel::F32(bits),
            ReflectValueBox::F64(bits) => ValueModel::F64(bits),
            ReflectValueBox::Bool(v) => ValueModel::Bool(v),
            ReflectValueBox::String(ref s) => ValueModel::String(s@),
            ReflectValueBox::Bytes(ref b) => ValueModel::Bytes(b@),
            ReflectValueBox::Enum(d, n) => ValueModel::Enum(EnumModel { family: d@, number: n }),
            ReflectValueBox::Message(ref m) => ValueModel::Message(*m),
        }
    }
}

impl<M: MessageValue> Clone for ReflectValueBox<M> {
    /// A clone stands for the same tagged value: scalars and enums by value,
    /// text and bytes by copying the contents, messages by their own
    /// polymorphic clone.
    fn clone(&self) -> (r: Self)
        ensures
            r@ == self@,
    {
        match *self {
            ReflectValueBox::U32(v) => ReflectValueBox::U32(v),
            ReflectValueBox::U64(v) => ReflectValueBox::U64(v),
            ReflectValueBox::I32(v) => ReflectValueBox::I32(v),
            ReflectValueBox::I64(v) => ReflectValueBox::I64(v),
            ReflectValueBox::F32(bits) => ReflectValueBox::F32(bits),
            ReflectValueBox::F64(bits) => ReflectValueBox::F64(bits),
            ReflectValueBox::Bool(v) => ReflectValueBox::Bool(v),
            ReflectValueBox::String(ref s) => ReflectValueBox::String(s.clone()),
            ReflectValueBox::Bytes(ref v) => ReflectValueBox::Bytes(slice_to_vec(v.as_slice())),
            ReflectValueBox::Enum(d, n) => ReflectValueBox::Enum(d, n),
            ReflectValueBox::Message(ref m) => ReflectValueBox::Message(m.clone_message()),
        }
    }
}

impl<M: MessageValue> ReflectValueBox<M> {
    /// Downcast to real typed value: succeeds exactly when the requested
    /// type matches the stored variant, and on a mismatch returns the value
    /// unchanged.
    ///
    /// The stored variant already determines the concrete type, so the
    /// downcast is resolved structurally, by each type's own `from_box`; no
    /// runtime type registry is involved.
    ///
    /// For `enum`, `V` can be either a concrete enum type or
    /// `ProtobufEnumOrUnknown<E>`.
    pub fn downcast<V: ProtobufValue<M>>(self) -> (r: Result<V, Self>)
        ensures
            match r {
                Ok(v) => V::accepts(self@) && v.value_model() == self@,
                Err(e) => !V::accepts(self@) && e@ == self@,
            },
    {
        V::from_box(self)
    }
}

impl<M: MessageValue> ProtobufValue<M> for u32 {
    open spec fn value_model(&self) -> ValueModel<M> {
        ValueModel::U32(*self)
    }

    open spec fn accepts(m: ValueModel<M>) -> bool {
        m is U32
    }

    fn as_ref<'a>(&'a self) -> (r: ReflectValueRef<'a, M>) {
        ReflectValueRef::U32(*self)
    }

    fn from_box(b: ReflectValueBox<M>) -> (r: Result<Self, ReflectValueBox<M>>) {
        match b {
            ReflectValueBox::U32(v) => Ok(v),
            other => Err(other),
        }
    }
}

impl<M: MessageValue> ProtobufValue<M> for u64 {
    open spec fn value_model(&self) -> ValueModel<M> {
        ValueModel::U64(*self)
    }

    open spec fn accepts(m: ValueModel<M>) -> bool {
        m is U64
    }

    fn as_ref<'a>(&'a self) -> (r: ReflectValueRef<'a, M>) {
        ReflectValueRef::U64(*self)
    }

    fn from_box(b: ReflectValueBox<M>) -> (r: Result<Self, ReflectValueBox<M>>) {
        match b {
            ReflectValueBox::U64(v) => Ok(v),
            other => Err(other),
        }
    }
}

impl<M: MessageValue> ProtobufValue<M> for i32 {
    open spec fn value_model(&self) -> ValueModel<M> {
        ValueModel::I32(*self)
    }

    open spec fn accepts(m: ValueModel<M>) -> bool {
        m is I32
    }

    fn as_ref<'a>(&'a self) -> (r: ReflectValueRef<'a, M>) {
        ReflectValueRef::I32(*self)
    }

    fn from_box(b: ReflectValueBox<M>) -> (r: Result<Self, ReflectValueBox<M>>) {
        match b {
            ReflectValueBox::I32(v) => Ok(v),
            other => Err(other),
        }
    }
}

impl<M: MessageValue> ProtobufValue<M> for i64 {
    open spec fn value_model(&self) -> ValueModel<M> {
        ValueModel::I64(*self)
    }

    open spec fn accepts(m: ValueModel<M>) -> bool {
        m is I64
    }

    fn as_ref<'a>(&'a self) -> (r: ReflectValueRef<'a, M>) {
        ReflectValueRef::I64(*self)
    }

    fn from_box(b: ReflectValueBox<M>) -> (r: Result<Self, ReflectValueBox<M>>) {
        match b {
            ReflectValueBox::I64(v) => Ok(v),
            other => Err(other),
        }
    }
}

impl<M: MessageValue> ProtobufValue<M> for bool {
    open spec fn value_model(&self) -> ValueModel<M> {
        ValueModel::Bool(*self)
    }

    open spec fn accepts(m: ValueModel<M>) -> bool {
        m is Bool
    }

    fn as_ref<'a>(&'a self) -> (r: ReflectValueRef<'a, M>) {
        ReflectValueRef::Bool(*self)
    }

    fn from_box(b: ReflectValueBox<M>) -> (r: Result<Self, ReflectValueBox<M>>) {
        match b {
            ReflectValueBox::Bool(v) => Ok(v),
            other => Err(other),
        }
    }
}

impl<M: MessageValue> ProtobufValue<M> for String {
    open spec fn value_model(&self) -> ValueModel<M> {
        ValueModel::String(self@)
    }

    open spec fn accepts(m: ValueModel<M>) -> bool {
        m is String
    }

    fn as_ref<'a>(&'a self) -> (r: ReflectValueRef<'a, M>) {
        ReflectValueRef::String(self.as_str())
    }

    fn from_box(b: ReflectValueBox<M>) -> (r: Result<Self, ReflectValueBox<M>>) {
        match b {
            ReflectValueBox::String(v) => Ok(v),
            other => Err(other),
        }
    }
}

impl<M: MessageValue> ProtobufValue<M> for Vec<u8> {
    open spec fn value_model(&self) -> ValueModel<M> {
        ValueModel::Bytes(self@)
    }

    open spec fn accepts(m: ValueModel<M>) -> bool {
        m is Bytes
    }

    fn as_ref<'a>(&'a self) -> (r: ReflectValueRef<'a, M>) {
        ReflectValueRef::Bytes(self.as_slice())
    }

    fn from_box(b: ReflectValueBox<M>) -> (r: Result<Self, ReflectValueBox<M>>) {
        match b {
            ReflectValueBox::Bytes(v) => Ok(v),
            other => Err(other),
        }
    }
}

impl<M: MessageValue> ProtobufValue<M> for Chars {
    open spec fn value_model(&self) -> ValueModel<M> {
        ValueModel::String(self.chars())
    }

    open spec fn accepts(m: ValueModel<M>) -> bool {
        m is String
    }

    fn as_ref<'a>(&'a self) -> (r: ReflectValueRef<'a, M>) {
        ReflectValueRef::String(self.as_str())
    }

    fn from_box(b: ReflectValueBox<M>) -> (r: Result<Self, ReflectValueBox<M>>) {
        match b {
            ReflectValueBox::String(v) => Ok(Chars::from_string(v)),
            other => Err(other),
        }
    }
}

impl<M: MessageValue> ProtobufValue<M> for bytes::Bytes {
    open spec fn value_model(&self) -> ValueModel<M> {
        ValueModel::Bytes(bytes_content(*self))
    }

    open spec fn accepts(m: ValueModel<M>) -> bool {
        m is Bytes
    }

    fn as_ref<'a>(&'a self) -> (r: ReflectValueRef<'a, M>) {
        ReflectValueRef::Bytes(bytes_as_slice(self))
    }

    fn from_box(b: ReflectValueBox<M>) -> (r: Result<Self, ReflectValueBox<M>>) {
        match b {
            ReflectValueBox::Bytes(v) => Ok(bytes_from_vec(v)),
            other => Err(other),
        }
    }
}

impl<M: MessageValue, E: ProtobufEnum> ProtobufValue<M> for ProtobufEnumOrUnknown<E> {
    open spec fn value_model(&self) -> ValueModel<M> {
        ValueModel::Enum(EnumModel { family: E::family(), number: self.number() })
    }

    open spec fn accepts(m: ValueModel<M>) -> bool {
        m matches ValueModel::Enum(e) && e.family == E::family()
    }

    fn as_ref<'a>(&'a self) -> (r: ReflectValueRef<'a, M>) {
        ReflectValueRef::Enum(E::enum_descriptor(), self.value())
    }

    fn from_box(b: ReflectValueBox<M>) -> (r: Result<Self, ReflectValueBox<M>>) {
        match b {
            ReflectValueBox::Enum(d, n) => {
                if d.same_family(E::enum_descriptor()) {
                    Ok(ProtobufEnumOrUnknown::from_i32(n))
                } else {
                    Err(ReflectValueBox::Enum(d, n))
                }
            },
            other => Err(other),
        }
    }
}

impl<M: MessageValue> From<u32> for ReflectValueBox<M> {
    fn from(v: u32) -> (r: Self) {
        ReflectValueBox::U32(v)
    }
}

impl<M: MessageValue> vstd::std_specs::convert::FromSpecImpl<u32> for ReflectValueBox<M> {
    open spec fn obeys_from_spec() -> bool {
        true
    }

    open spec fn from_spec(v: u32) -> Self {
        ReflectValueBox::U32(v)
    }
}

impl<M: MessageValue> From<u64> for ReflectValueBox<M> {
    fn from(v: u64) -> (r: Self) {
        ReflectValueBox::U64(v)
    }
}

impl<M: MessageValue> vstd::std_specs::convert::FromSpecImpl<u64> for ReflectValueBox<M> {
    open spec fn obeys_from_spec() -> bool {
        true
    }

    open spec fn from_spec(v: u64) -> Self {
        ReflectValueBox::U64(v)
    }
}

impl<M: MessageValue> From<i32> for ReflectValueBox<M> {
    fn from(v: i32) -> (r: Self) {
        ReflectValueBox::I32(v)
    }
}

impl<M: MessageValue> vstd::std_specs::convert::FromSpecImpl<i32> for ReflectValueBox<M> {
    open spec fn obeys_from_spec() -> bool {
        true
    }

    open spec fn from_spec(v: i32) -> Self {
        ReflectValueBox::I32(v)
    }
}

impl<M: MessageValue> From<i64> for ReflectValueBox<M> {
    fn from(v: i64) -> (r: Self) {
        ReflectValueBox::I64(v)
    }
}

impl<M: MessageValue> vstd::std_specs::convert::FromSpecImpl<i64> for ReflectValueBox<M> {
    open spec fn obeys_from_spec() -> bool {
        true
    }

    open spec fn from_spec(v: i64) -> Self {
        ReflectValueBox::I64(v)
    }
}

impl<M: MessageValue> From<bool> for ReflectValueBox<M> {
    fn from(v: bool) -> (r: Self) {
        ReflectValueBox::Bool(v)
    }
}

impl<M: MessageValue> vstd::std_specs::convert::FromSpecImpl<bool> for ReflectValueBox<M> {
    open spec fn obeys_from_spec() -> bool {
        true
    }

    open spec fn from_spec(v: bool) -> Self {
        ReflectValueBox::Bool(v)
    }
}

impl<M: MessageValue> From<String> for ReflectValueBox<M> {
    fn from(v: String) -> (r: Self) {
        ReflectValueBox::String(v)
    }
}

impl<M: MessageValue> vstd::std_specs::convert::FromSpecImpl<String> for ReflectValueBox<M> {
    open spec fn obeys_from_spec() -> bool {
        true
    }

    open spec fn from_spec(v: String) -> Self {
        ReflectValueBox::String(v)
    }
}

impl<M: MessageValue> From<Vec<u8>> for ReflectValueBox<M> {
    fn from(v: Vec<u8>) -> (r: Self) {
        ReflectValueBox::Bytes(v)
    }
}

impl<M: MessageValue> vstd::std_specs::convert::FromSpecImpl<Vec<u8>> for ReflectValueBox<M> {
    open spec fn obeys_from_spec() -> bool {
        true
    }

    open spec fn from_spec(v: Vec<u8>) -> Self {
        ReflectValueBox::Bytes(v)
    }
}

impl<M: MessageValue> ReflectValueBox<M> {
    /// Wraps an owned message.
    pub fn from_message(m: M) -> (r: Self)
        ensures
            r@ == ValueModel::Message(m),
    {
        ReflectValueBox::Message(m)
    }

    /// Wraps an enumerated value: the family's descriptor and the raw number.
    pub fn from_enum(d: &'static EnumDescriptor, number: i32) -> (r: Self)
        ensures
            r@ == ValueModel::<M>::Enum(EnumModel { family: d@, number }),
    {
        ReflectValueBox::Enum(d, number)
    }
}

fn _assert_send_sync<T: Send + Sync>() {
}

fn _assert_value_box_send_sync<M: MessageValue>() {
    _assert_send_sync::<ReflectValueBox<M>>()
}

/// The owned tagged values that downcast to a concrete enum type `E`: enum
/// values of `E`'s own family whose number the family declares.
pub open spec fn plain_enum_accepts<M: MessageValue, E: ProtobufEnum>(m: ValueModel<M>) -> bool {
    m matches ValueModel::Enum(e) && e.family == E::family() && E::family().known.contains(
        e.number,
    )
}

/// The enum leg of the downcast, for the generated `ProtobufValue`
/// implementation of a concrete enum type to delegate to: recovers a value of
/// `E` exactly from the enum values of `E`'s own family whose number the
/// family declares.  On a mismatch, or on a number the schema does not
/// declare, the input comes back unchanged.
pub fn downcast_enum<M: MessageValue, E: ProtobufEnum>(b: ReflectValueBox<M>) -> (r: Result<
    E,
    ReflectValueBox<M>,
>)
    ensures
        match r {
            Ok(v) => plain_enum_accepts::<M, E>(b@) && b@ == ValueModel::<M>::Enum(
                EnumModel { family: E::family(), number: v.number_spec() },
            ),
            Err(e) => !plain_enum_accepts::<M, E>(b@) && e@ == b@,
        },
{
    match b {
        ReflectValueBox::Enum(d, n) => {
            if d.same_family(E::enum_descriptor()) {
                match E::from_i32(n) {
                    Some(v) => Ok(v),
                    None => Err(ReflectValueBox::Enum(d, n)),
                }
            } else {
                Err(ReflectValueBox::Enum(d, n))
            }
        },
        other => Err(other),
    }
}

} // verus!
