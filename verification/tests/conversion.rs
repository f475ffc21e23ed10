use ffi_bridge::abi::{AbiValue, ConversionFault, NativeValue, TypeTag, lift, lower, shape_of};
use ffi_bridge::AbiShape;
use ffi_bridge::codegen::ExternalCodeType;
use ffi_bridge::exports::{
    greet, say, say_after_message, say_after_with_tokio_message, always_ready, sleep, fallible_me,
    lower_my_error, lift_my_error, new_megaphone, Megaphone, MyError,
};
use ffi_bridge::registry::ObjectRegistry;

fn roundtrip(v: NativeValue, tag: TypeTag, reg: &ObjectRegistry) -> NativeValue {
    let dup = match &v {
        NativeValue::Bool(b) => NativeValue::Bool(*b),
        NativeValue::U8(u) => NativeValue::U8(*u),
        NativeValue::Text(s) => NativeValue::Text(s.clone()),
        NativeValue::Unit => NativeValue::Unit,
        NativeValue::Object(h) => NativeValue::Object(*h),
    };
    lift(tag, lower(&dup), reg).expect("a lowered value must lift")
}

#[test]
fn roundtrip_scalars() {
    let reg = ObjectRegistry::new();
    assert!(matches!(
        roundtrip(NativeValue::Bool(true), TypeTag::Boolean, &reg),
        NativeValue::Bool(true)
    ));
    assert!(matches!(
        roundtrip(NativeValue::Bool(false), TypeTag::Boolean, &reg),
        NativeValue::Bool(false)
    ));
    assert!(matches!(roundtrip(NativeValue::U8(0), TypeTag::UInt8, &reg), NativeValue::U8(0)));
    assert!(matches!(roundtrip(NativeValue::U8(255), TypeTag::UInt8, &reg), NativeValue::U8(255)));
    assert!(matches!(roundtrip(NativeValue::Unit, TypeTag::Unit, &reg), NativeValue::Unit));
}

#[test]
fn roundtrip_text() {
    let reg = ObjectRegistry::new();
    for s in ["", "hello", "héllo wörld", "⚙ gears"] {
        match roundtrip(NativeValue::Text(s.to_string()), TypeTag::Text, &reg) {
            NativeValue::Text(t) => assert_eq!(t, s),
            other => panic!("lifted to the wrong variant: {other:?}"),
        }
    }
}

#[test]
fn roundtrip_object() {
    let mut reg = ObjectRegistry::new();
    let h = reg.register();
    match roundtrip(NativeValue::Object(h), TypeTag::Object, &reg) {
        NativeValue::Object(g) => assert_eq!(g, h),
        other => panic!("lifted to the wrong variant: {other:?}"),
    }
}

#[test]
fn lift_rejects_out_of_range_scalars() {
    let reg = ObjectRegistry::new();
    assert_eq!(
        lift(TypeTag::Boolean, AbiValue::Scalar(2), &reg).unwrap_err(),
        ConversionFault::OutOfRange
    );
    assert_eq!(
        lift(TypeTag::UInt8, AbiValue::Scalar(256), &reg).unwrap_err(),
        ConversionFault::OutOfRange
    );
    assert_eq!(
        lift(TypeTag::Unit, AbiValue::Scalar(1), &reg).unwrap_err(),
        ConversionFault::OutOfRange
    );
}

#[test]
fn lift_rejects_wrong_shapes() {
    let reg = ObjectRegistry::new();
    assert_eq!(
        lift(TypeTag::Boolean, AbiValue::Buffer(vec![1]), &reg).unwrap_err(),
        ConversionFault::WrongShape
    );
    assert_eq!(
        lift(TypeTag::Text, AbiValue::Scalar(7), &reg).unwrap_err(),
        ConversionFault::WrongShape
    );
    assert_eq!(
        lift(TypeTag::Object, AbiValue::Scalar(7), &reg).unwrap_err(),
        ConversionFault::WrongShape
    );
}

#[test]
fn lift_rejects_malformed_text() {
    let reg = ObjectRegistry::new();
    assert_eq!(
        lift(TypeTag::Text, AbiValue::Buffer(vec![0xff, 0xfe]), &reg).unwrap_err(),
        ConversionFault::MalformedText
    );
}

#[test]
fn lift_rejects_dangling_handle() {
    let reg = ObjectRegistry::new();
    assert_eq!(
        lift(TypeTag::Object, AbiValue::Handle(3), &reg).unwrap_err(),
        ConversionFault::DanglingHandle
    );
}

#[test]
fn shapes_per_type() {
    assert_eq!(shape_of(TypeTag::Boolean), AbiShape::Scalar);
    assert_eq!(shape_of(TypeTag::UInt8), AbiShape::Scalar);
    assert_eq!(shape_of(TypeTag::Unit), AbiShape::Scalar);
    assert_eq!(shape_of(TypeTag::Text), AbiShape::Buffer);
    assert_eq!(shape_of(TypeTag::Object), AbiShape::Handle);
}

#[test]
fn registry_counts_and_destroys_once() {
    let mut reg = ObjectRegistry::new();
    let a = reg.register();
    let b = reg.register();
    assert_ne!(a, b);
    assert!(reg.is_live(a) && reg.is_live(b));
    reg.acquire(a);
    assert!(!reg.release(a), "a second reference must keep it alive");
    assert!(reg.release(a), "the last reference must destroy it");
    assert!(!reg.is_live(a));
    assert!(reg.is_live(b), "destroying one object must not touch another");
    assert!(reg.release(b));
    assert!(!reg.is_live(b));
}

#[test]
fn my_error_roundtrip_and_range() {
    let v = lower_my_error(MyError::Foo);
    assert_eq!(lift_my_error(&v).unwrap(), MyError::Foo);
    assert_eq!(lift_my_error(&AbiValue::Scalar(9)).unwrap_err(), ConversionFault::OutOfRange);
    assert_eq!(
        lift_my_error(&AbiValue::Buffer(vec![0])).unwrap_err(),
        ConversionFault::WrongShape
    );
}

#[test]
fn export_values() {
    assert_eq!(greet("world".to_string()), "Hello, world");
    assert_eq!(say(), "Hello, Future!");
    assert_eq!(say_after_message("Alice"), "Hello, Alice!");
    assert_eq!(say_after_with_tokio_message("Bob"), "Hello, Bob (with Tokio)!");
    assert!(always_ready());
    assert!(sleep());
    assert_eq!(fallible_me(false), Ok(42));
    assert_eq!(fallible_me(true), Err(MyError::Foo));
}

#[test]
fn megaphone_yells() {
    let m = Megaphone;
    assert_eq!(m.say_after_message("world"), "HELLO, WORLD!");
}

#[test]
fn megaphone_is_exported_with_one_reference() {
    let mut reg = ObjectRegistry::new();
    let h = new_megaphone(&mut reg);
    assert!(reg.is_live(h));
    assert!(reg.release(h), "the one reference must be the last");
}

#[test]
fn external_code_type_names() {
    let t = ExternalCodeType::new("FrameTimestamp".to_string());
    assert_eq!(t.type_label(), "FrameTimestamp");
    assert_eq!(t.canonical_name(), "TypeFrameTimestamp");
}
