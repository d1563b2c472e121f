//! The library's laws: general statements about the value layer, proved once
//! and for all inputs.  The mismatch-preserves-value law needs no lemma of
//! its own: it is the `Err` clause of the `downcast` and `from_box`
//! contracts.

use vstd::prelude::*;

use crate::chars::Chars;
use crate::enums::ProtobufEnum;
use crate::enums::ProtobufEnumOrUnknown;
use crate::message::MessageValue;
use crate::model::model_non_zero;
use crate::model::EnumModel;
use crate::model::ValueModel;
use crate::model::F32_NEG_ZERO_BITS;
use crate::model::F64_NEG_ZERO_BITS;
use crate::value::plain_enum_accepts;
use crate::value::ProtobufValue;

verus! {

/// Law: a scalar value sent through `as_ref`, `to_box` and `downcast` comes
/// back unchanged.  Each scalar type accepts its own model, and no other
/// value of the type has that model, so the downcast contract forces the
/// result to be `Ok` with the original value.
pub proof fn lemma_scalar_round_trip<M: MessageValue>(
    vu32: u32,
    vu64: u64,
    vi32: i32,
    vi64: i64,
    vbool: bool,
)
    ensures
        <u32 as ProtobufValue<M>>::accepts(<u32 as ProtobufValue<M>>::value_model(&vu32)),
        forall|w: u32|
            <u32 as ProtobufValue<M>>::value_model(&w) == <u32 as ProtobufValue<M>>::value_model(
                &vu32,
            ) ==> w == vu32,
        <u64 as ProtobufValue<M>>::accepts(<u64 as ProtobufValue<M>>::value_model(&vu64)),
        forall|w: u64|
            <u64 as ProtobufValue<M>>::value_model(&w) == <u64 as ProtobufValue<M>>::value_model(
                &vu64,
            ) ==> w == vu64,
        <i32 as ProtobufValue<M>>::accepts(<i32 as ProtobufValue<M>>::value_model(&vi32)),
        forall|w: i32|
            <i32 as ProtobufValue<M>>::value_model(&w) == <i32 as ProtobufValue<M>>::value_model(
                &vi32,
            ) ==> w == vi32,
        <i64 as ProtobufValue<M>>::accepts(<i64 as ProtobufValue<M>>::value_model(&vi64)),
        forall|w: i64|
            <i64 as ProtobufValue<M>>::value_model(&w) == <i64 as ProtobufValue<M>>::value_model(
                &vi64,
            ) ==> w == vi64,
        <bool as ProtobufValue<M>>::accepts(<bool as ProtobufValue<M>>::value_model(&vbool)),
        forall|w: bool|
            <bool as ProtobufValue<M>>::value_model(&w) == <bool as ProtobufValue<M>>::value_model(
                &vbool,
            ) ==> w == vbool,
{
}

/// Law: the "zero" values are exactly the numeric zeros (for floats, both
/// IEEE-754 zero bit patterns), `false`, the empty text, the empty byte
/// buffer and the enum values numbered zero; a message is non-zero whatever
/// it contains.
pub proof fn lemma_zero_check<M: MessageValue>(m: M, e: EnumModel)
    ensures
        !model_non_zero(ValueModel::<M>::U32(0)),
        !model_non_zero(ValueModel::<M>::U64(0)),
        !model_non_zero(ValueModel::<M>::I32(0)),
        !model_non_zero(ValueModel::<M>::I64(0)),
        !model_non_zero(ValueModel::<M>::F32(0)),
        !model_non_zero(ValueModel::<M>::F32(F32_NEG_ZERO_BITS)),
        !model_non_zero(ValueModel::<M>::F64(0)),
        !model_non_zero(ValueModel::<M>::F64(F64_NEG_ZERO_BITS)),
        !model_non_zero(ValueModel::<M>::Bool(false)),
        !model_non_zero(ValueModel::<M>::String(Seq::empty())),
        !model_non_zero(ValueModel::<M>::Bytes(Seq::empty())),
        model_non_zero(ValueModel::<M>::Enum(e)) == (e.number != 0),
        model_non_zero(ValueModel::<M>::Message(m)),
{
}

/// Law: a plain owned text value is accepted by the alternate (shared)
/// representation with content-equal data, and vice versa, while an unrelated
/// type still refuses text; the same holds between plain and shared byte
/// buffers.
pub proof fn lemma_alternate_representation<M: MessageValue>(s: Seq<char>, b: Seq<u8>)
    ensures
        <Chars as ProtobufValue<M>>::accepts(ValueModel::String(s)),
        <String as ProtobufValue<M>>::accepts(ValueModel::String(s)),
        !<u32 as ProtobufValue<M>>::accepts(ValueModel::String(s)),
        !<Vec<u8> as ProtobufValue<M>>::accepts(ValueModel::String(s)),
        forall|c: Chars|
            <Chars as ProtobufValue<M>>::value_model(&c) == ValueModel::<M>::String(s)
                ==> c.chars() == s,
        forall|w: String|
            <String as ProtobufValue<M>>::value_model(&w) == ValueModel::<M>::String(s) ==> w@
                == s,
        <bytes::Bytes as ProtobufValue<M>>::accepts(ValueModel::Bytes(b)),
        <Vec<u8> as ProtobufValue<M>>::accepts(ValueModel::Bytes(b)),
        !<String as ProtobufValue<M>>::accepts(ValueModel::Bytes(b)),
        forall|w: Vec<u8>|
            <Vec<u8> as ProtobufValue<M>>::value_model(&w) == ValueModel::<M>::Bytes(b) ==> w@
                == b,
        forall|w: bytes::Bytes|
            <bytes::Bytes as ProtobufValue<M>>::value_model(&w) == ValueModel::<M>::Bytes(b)
                ==> crate::shared::bytes_content(w) == b,
{
}

/// Law: an enum number its family does not declare refuses the concrete enum
/// type but is accepted by the unknown-tolerant wrapper, which preserves the
/// raw integer; a declared number is accepted by both.
pub proof fn lemma_enum_unknown<M: MessageValue, E: ProtobufEnum>(number: i32)
    ensures
        plain_enum_accepts::<M, E>(
            ValueModel::Enum(EnumModel { family: E::family(), number }),
        ) == E::family().known.contains(number),
        <ProtobufEnumOrUnknown<E> as ProtobufValue<M>>::accepts(
            ValueModel::Enum(EnumModel { family: E::family(), number }),
        ),
        forall|w: ProtobufEnumOrUnknown<E>|
            <ProtobufEnumOrUnknown<E> as ProtobufValue<M>>::value_model(&w)
                == ValueModel::<M>::Enum(EnumModel { family: E::family(), number }) ==> w.number()
                == number,
{
}

} // verus!
