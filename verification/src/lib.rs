//! Elementary-value layer of a schema-driven reflection API.
//!
//! Schema-generic code reads and converts scalar, text, byte, enumerated and
//! message values without knowing their concrete static type, while fully
//! typed callers can recover the exact original type through a checked
//! downcast.  Borrowed views ([`ReflectValueRef`]) and owned values
//! ([`ReflectValueBox`]) share one mathematical model ([`ValueModel`]), and
//! every conversion is proved to preserve it.

#![allow(unused_imports)]

use vstd::prelude::*;

pub mod chars;
pub mod enums;
pub mod laws;
pub mod message;
pub mod model;
pub mod shared;
pub mod value;

pub use chars::Chars;
pub use enums::EnumDescriptor;
pub use enums::ProtobufEnum;
pub use enums::ProtobufEnumOrUnknown;
pub use message::MessageValue;
pub use model::EnumDescriptorModel;
pub use model::EnumModel;
pub use model::ValueModel;
pub use value::downcast_enum;
pub use value::plain_enum_accepts;
pub use value::ProtobufValue;
pub use value::ReflectValueBox;
pub use value::ReflectValueMut;
pub use value::ReflectValueRef;
