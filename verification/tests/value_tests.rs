use reflect_value::Chars;
use reflect_value::MessageValue;
use reflect_value::ProtobufValue;
use reflect_value::ReflectValueBox;
use reflect_value::ReflectValueRef;
use reflect_value::ValueModel;

#[derive(Clone, PartialEq, Debug)]
struct TestMessage {
    payload: u32,
}

impl MessageValue for TestMessage {
    fn clone_message(&self) -> Self {
        self.clone()
    }
}

impl ProtobufValue<TestMessage> for TestMessage {
    // The specification-only items are never called at run time.
    fn value_model(&self) -> ValueModel<TestMessage> {
        unreachable!()
    }

    fn accepts(_: ValueModel<TestMessage>) -> bool {
        unreachable!()
    }

    fn as_ref<'a>(&'a self) -> ReflectValueRef<'a, TestMessage> {
        ReflectValueRef::Message(self)
    }

    fn from_box(b: ReflectValueBox<TestMessage>) -> Result<Self, ReflectValueBox<TestMessage>> {
        match b {
            ReflectValueBox::Message(m) => Ok(m),
            other => Err(other),
        }
    }
}

type VRef<'a> = ReflectValueRef<'a, TestMessage>;
type VBox = ReflectValueBox<TestMessage>;

#[test]
fn scalar_round_trip() {
    assert_eq!(
        <u32 as ProtobufValue<TestMessage>>::as_ref(&17u32).to_box().downcast::<u32>(),
        Ok(17u32)
    );
    assert_eq!(
        <u64 as ProtobufValue<TestMessage>>::as_ref(&18u64).to_box().downcast::<u64>(),
        Ok(18u64)
    );
    assert_eq!(
        <i32 as ProtobufValue<TestMessage>>::as_ref(&-19i32).to_box().downcast::<i32>(),
        Ok(-19i32)
    );
    assert_eq!(
        <i64 as ProtobufValue<TestMessage>>::as_ref(&-20i64).to_box().downcast::<i64>(),
        Ok(-20i64)
    );
    assert_eq!(
        <bool as ProtobufValue<TestMessage>>::as_ref(&true).to_box().downcast::<bool>(),
        Ok(true)
    );
}

#[test]
fn string_round_trip() {
    let s = String::from("hello");
    let b = <String as ProtobufValue<TestMessage>>::as_ref(&s).to_box();
    assert_eq!(b.downcast::<String>(), Ok(String::from("hello")));
}

#[test]
fn float_bits_round_trip() {
    let bits = 1.5f32.to_bits();
    let r = VRef::F32(bits);
    assert_eq!(r.to_f32(), Some(bits));
    let b = r.to_box();
    match b {
        VBox::F32(got) => assert_eq!(f32::from_bits(got), 1.5f32),
        _ => panic!("tag changed"),
    }
    let bits64 = 2.25f64.to_bits();
    assert_eq!(VRef::F64(bits64).to_box().downcast::<u64>(), Err(VBox::F64(bits64)));
}

#[test]
fn bytes_scenario() {
    let data: [u8; 3] = [1, 2, 3];
    let b = VRef::Bytes(&data).to_box();
    assert_eq!(b.downcast::<Vec<u8>>(), Ok(vec![1u8, 2, 3]));

    let b = VRef::Bytes(&data).to_box();
    match b.downcast::<String>() {
        Ok(_) => panic!("bytes must not downcast to text"),
        Err(back) => match back {
            VBox::Bytes(v) => assert_eq!(v, vec![1u8, 2, 3]),
            _ => panic!("mismatch must preserve the variant"),
        },
    }
}

#[test]
fn mismatch_preserves_value() {
    let b: VBox = VBox::U32(7);
    match b.downcast::<i32>() {
        Ok(_) => panic!("u32 must not downcast to i32"),
        Err(back) => assert_eq!(back.downcast::<u32>(), Ok(7u32)),
    }

    let s = String::from("keep me");
    let b: VBox = VBox::String(s);
    match b.downcast::<Vec<u8>>() {
        Ok(_) => panic!("text must not downcast to bytes"),
        Err(back) => assert_eq!(back.downcast::<String>(), Ok(String::from("keep me"))),
    }
}

#[test]
fn alternate_text_representation() {
    let b: VBox = VBox::String(String::from("shared"));
    let c = b.downcast::<Chars>().map_err(|_| ()).expect("text must downcast to Chars");
    assert_eq!(c.as_str(), "shared");

    let again = <Chars as ProtobufValue<TestMessage>>::as_ref(&c).to_box();
    assert_eq!(again.downcast::<String>(), Ok(String::from("shared")));

    let b: VBox = VBox::String(String::from("shared"));
    match b.downcast::<u32>() {
        Ok(_) => panic!("text must not downcast to u32"),
        Err(back) => assert_eq!(back.downcast::<String>(), Ok(String::from("shared"))),
    }
}

#[test]
fn alternate_bytes_representation() {
    let b: VBox = VBox::Bytes(vec![9u8, 8, 7]);
    let shared = b.downcast::<bytes::Bytes>().map_err(|_| ()).expect(
        "bytes must downcast to the shared representation",
    );
    assert_eq!(AsRef::<[u8]>::as_ref(&shared), &[9u8, 8, 7]);

    let again = <bytes::Bytes as ProtobufValue<TestMessage>>::as_ref(&shared).to_box();
    assert_eq!(again.downcast::<Vec<u8>>(), Ok(vec![9u8, 8, 7]));
}

#[test]
fn chars_from_string_and_clone() {
    let c = Chars::from_string(String::from("abc"));
    assert_eq!(c.as_str(), "abc");
    let d = c.shallow_clone();
    assert_eq!(d.as_str(), "abc");
}

#[test]
fn message_round_trip() {
    let m = TestMessage { payload: 9 };
    let r = m.as_ref();
    assert_eq!(r.to_message(), Some(&m));
    let b = r.to_box();
    assert_eq!(b.downcast::<TestMessage>(), Ok(TestMessage { payload: 9 }));

    let b = VBox::from_message(TestMessage { payload: 3 });
    match b.downcast::<u32>() {
        Ok(_) => panic!("a message must not downcast to a scalar"),
        Err(back) => assert_eq!(back.downcast::<TestMessage>(), Ok(TestMessage { payload: 3 })),
    }
}

#[test]
fn downcast_clone_keeps_the_original() {
    let data: [u8; 2] = [5, 6];
    let r = VRef::Bytes(&data);
    let got: Result<Vec<u8>, _> = r.downcast_clone::<Vec<u8>>();
    assert_eq!(got.ok(), Some(vec![5u8, 6]));

    let r = VRef::Bytes(&data);
    match r.downcast_clone::<String>() {
        Ok(_) => panic!("bytes must not downcast to text"),
        Err(back) => assert_eq!(back.to_bytes(), Some(&data[..])),
    }
}

#[test]
fn accessors_narrow_by_tag() {
    assert_eq!(VRef::I32(-4).to_i32(), Some(-4));
    assert_eq!(VRef::I32(-4).to_i64(), None);
    assert_eq!(VRef::U32(4).to_u32(), Some(4));
    assert_eq!(VRef::U64(44).to_u64(), Some(44));
    assert_eq!(VRef::Bool(true).to_bool(), Some(true));
    assert_eq!(VRef::U32(4).to_bool(), None);
    assert_eq!(VRef::String("x").to_str(), Some("x"));
    assert_eq!(VRef::String("x").to_bytes(), None);
    let m = TestMessage { payload: 1 };
    assert_eq!(VRef::Message(&m).to_str(), None);
}

#[test]
fn as_ref_copy_scalars() {
    let r = <u32 as ProtobufValue<TestMessage>>::as_ref_copy(&21u32);
    assert_eq!(r.to_u32(), Some(21));
    let r = <bool as ProtobufValue<TestMessage>>::as_ref_copy(&false);
    assert_eq!(r.to_bool(), Some(false));
}

#[test]
fn box_from_conversions() {
    assert_eq!(VBox::from(5u32).downcast::<u32>(), Ok(5u32));
    assert_eq!(VBox::from(6u64).downcast::<u64>(), Ok(6u64));
    assert_eq!(VBox::from(-7i32).downcast::<i32>(), Ok(-7i32));
    assert_eq!(VBox::from(-8i64).downcast::<i64>(), Ok(-8i64));
    assert_eq!(VBox::from(true).downcast::<bool>(), Ok(true));
    assert_eq!(VBox::from(String::from("s")).downcast::<String>(), Ok(String::from("s")));
    assert_eq!(VBox::from(vec![1u8]).downcast::<Vec<u8>>(), Ok(vec![1u8]));
}
