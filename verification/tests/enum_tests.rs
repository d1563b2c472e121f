use reflect_value::downcast_enum;
use reflect_value::EnumDescriptor;
use reflect_value::EnumDescriptorModel;
use reflect_value::ValueModel;
use reflect_value::MessageValue;
use reflect_value::ProtobufEnum;
use reflect_value::ProtobufEnumOrUnknown;
use reflect_value::ProtobufValue;
use reflect_value::ReflectValueBox;
use reflect_value::ReflectValueRef;

#[derive(Clone, PartialEq, Debug)]
struct TestMessage {
    payload: u32,
}

impl MessageValue for TestMessage {
    fn clone_message(&self) -> Self {
        self.clone()
    }
}

#[derive(Clone, Copy, PartialEq, Debug)]
enum Color {
    Black,
    Red,
    Blue,
}

const COLOR_FAMILY: u64 = 7;

fn color_descriptor() -> &'static EnumDescriptor {
    Box::leak(Box::new(EnumDescriptor::new(COLOR_FAMILY, vec![0, 1, 2])))
}

impl ProtobufEnum for Color {
    // The specification-only items are never called at run time.
    fn family() -> EnumDescriptorModel {
        unreachable!()
    }

    fn number_spec(self) -> i32 {
        unreachable!()
    }

    fn number_known(self) {}

    fn enum_descriptor() -> &'static EnumDescriptor {
        color_descriptor()
    }

    fn from_i32(v: i32) -> Option<Color> {
        match v {
            0 => Some(Color::Black),
            1 => Some(Color::Red),
            2 => Some(Color::Blue),
            _ => None,
        }
    }

    fn value(&self) -> i32 {
        match self {
            Color::Black => 0,
            Color::Red => 1,
            Color::Blue => 2,
        }
    }
}

impl ProtobufValue<TestMessage> for Color {
    // The specification-only items are never called at run time.
    fn value_model(&self) -> ValueModel<TestMessage> {
        unreachable!()
    }

    fn accepts(_: ValueModel<TestMessage>) -> bool {
        unreachable!()
    }

    fn as_ref<'a>(&'a self) -> ReflectValueRef<'a, TestMessage> {
        ReflectValueRef::Enum(Color::enum_descriptor(), self.value())
    }

    fn from_box(b: ReflectValueBox<TestMessage>) -> Result<Self, ReflectValueBox<TestMessage>> {
        downcast_enum::<TestMessage, Color>(b)
    }
}

type VRef<'a> = ReflectValueRef<'a, TestMessage>;
type VBox = ReflectValueBox<TestMessage>;

#[test]
fn known_enum_round_trip() {
    let red = Color::Red;
    let b = red.as_ref().to_box();
    assert_eq!(b.downcast::<Color>(), Ok(Color::Red));
}

#[test]
fn unknown_number_refuses_the_plain_enum() {
    let b = VBox::from_enum(color_descriptor(), 5);
    match b.downcast::<Color>() {
        Ok(_) => panic!("an undeclared number must not become a plain enum value"),
        Err(back) => match back {
            VBox::Enum(d, n) => {
                assert_eq!(n, 5);
                assert_eq!(d.id(), COLOR_FAMILY);
            },
            _ => panic!("mismatch must preserve the variant"),
        },
    }
}

#[test]
fn unknown_number_is_kept_by_the_wrapper() {
    let b = VBox::from_enum(color_descriptor(), 5);
    let w = b.downcast::<ProtobufEnumOrUnknown<Color>>().map_err(|_| ()).expect(
        "the unknown-tolerant wrapper must accept any number of the family",
    );
    assert_eq!(w.value(), 5);
    assert_eq!(w.enum_value(), Err(5));

    let b = VBox::from_enum(color_descriptor(), 2);
    let w = b.downcast::<ProtobufEnumOrUnknown<Color>>().map_err(|_| ()).unwrap();
    assert_eq!(w.enum_value(), Ok(Color::Blue));
}

#[test]
fn foreign_family_is_refused() {
    let other = Box::leak(Box::new(EnumDescriptor::new(99, vec![0, 1])));
    let b = VBox::from_enum(other, 1);
    assert!(b.downcast::<Color>().is_err());
    let b = VBox::from_enum(other, 1);
    assert!(b.downcast::<ProtobufEnumOrUnknown<Color>>().is_err());
}

#[test]
fn enum_wrapper_as_ref() {
    let w: ProtobufEnumOrUnknown<Color> = ProtobufEnumOrUnknown::from_i32(5);
    let r = <ProtobufEnumOrUnknown<Color> as ProtobufValue<TestMessage>>::as_ref(&w);
    match r {
        VRef::Enum(d, n) => {
            assert_eq!(n, 5);
            assert_eq!(d.id(), COLOR_FAMILY);
        },
        _ => panic!("an enum value must view as the enum variant"),
    }
}

#[test]
fn enum_as_ref_copy_is_untied() {
    let w: ProtobufEnumOrUnknown<Color> = ProtobufEnumOrUnknown::from_i32(1);
    let r: ReflectValueRef<'static, TestMessage> =
        <ProtobufEnumOrUnknown<Color> as ProtobufValue<TestMessage>>::as_ref_copy(&w);
    drop(w);
    match r {
        VRef::Enum(d, n) => {
            assert_eq!(n, 1);
            assert_eq!(d.id(), COLOR_FAMILY);
        },
        _ => panic!("an enum value must view as the enum variant"),
    }
}

#[test]
fn zero_check() {
    assert!(!VRef::U32(0).is_non_zero());
    assert!(VRef::U32(1).is_non_zero());
    assert!(!VRef::U64(0).is_non_zero());
    assert!(!VRef::I32(0).is_non_zero());
    assert!(VRef::I32(-1).is_non_zero());
    assert!(!VRef::I64(0).is_non_zero());
    assert!(!VRef::Bool(false).is_non_zero());
    assert!(VRef::Bool(true).is_non_zero());
    assert!(!VRef::String("").is_non_zero());
    assert!(VRef::String("x").is_non_zero());
    assert!(!VRef::Bytes(&[]).is_non_zero());
    assert!(VRef::Bytes(&[0]).is_non_zero());
    assert!(!VRef::F32(0.0f32.to_bits()).is_non_zero());
    assert!(!VRef::F32((-0.0f32).to_bits()).is_non_zero());
    assert!(VRef::F32(0.5f32.to_bits()).is_non_zero());
    assert!(!VRef::F64(0.0f64.to_bits()).is_non_zero());
    assert!(!VRef::F64((-0.0f64).to_bits()).is_non_zero());
    assert!(VRef::F64(3.0f64.to_bits()).is_non_zero());
    assert!(!VRef::Enum(color_descriptor(), 0).is_non_zero());
    assert!(VRef::Enum(color_descriptor(), 2).is_non_zero());

    let empty = TestMessage { payload: 0 };
    assert!(VRef::Message(&empty).is_non_zero());
    assert!(<TestMessage as ProtobufValue<TestMessage>>::is_non_zero(&empty));
    assert!(!<u32 as ProtobufValue<TestMessage>>::is_non_zero(&0u32));
    assert!(!<String as ProtobufValue<TestMessage>>::is_non_zero(&String::new()));
}

#[test]
fn descriptor_queries() {
    let d = color_descriptor();
    assert!(d.is_known(0));
    assert!(d.is_known(2));
    assert!(!d.is_known(5));
    assert!(d.same_family(color_descriptor()));
    let other = Box::leak(Box::new(EnumDescriptor::new(99, vec![0, 1])));
    assert!(!d.same_family(other));
}

impl ProtobufValue<TestMessage> for TestMessage {
    // The specification-only items are never called at run time.
    fn value_model(&self) -> ValueModel<TestMessage> {
        unreachable!()
    }

    fn accepts(_: ValueModel<TestMessage>) -> bool {
        unreachable!()
    }

    fn as_ref<'a>(&'a self) -> ReflectValueRef<'a, TestMessage> {
        ReflectValueRef::Message(self)
    }

    fn from_box(b: ReflectValueBox<TestMessage>) -> Result<Self, ReflectValueBox<TestMessage>> {
        match b {
            ReflectValueBox::Message(m) => Ok(m),
            other => Err(other),
        }
    }
}
