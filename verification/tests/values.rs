use serde_beve::bits::{pack_bits, test_bit};
use serde_beve::bytes::{push_le, read_le};
use serde_beve::headers::{
    BOOL_ARRAY, GENERIC_ARRAY, I16_OBJECT, STRING_ARRAY, STRING_OBJECT, TAG, U32_ARRAY,
};
use serde_beve::scalar::Scalar;
use serde_beve::ser::Serializer;
use serde_beve::value::{entries_serializable, list_serializable};
use serde_beve::{ArrayKind, ObjectKind, Value};

fn encode(v: &Value) -> Vec<u8> {
    let mut s = Serializer::new(Vec::new());
    s.serialize_value(v).unwrap();
    s.into_inner()
}

#[test]
fn every_value_has_its_header() {
    let cases: Vec<(Value, u8)> = vec![
        (Value::Null, 0),
        (Value::True, 24),
        (Value::False, 8),
        (Value::BF16(0), 1),
        (Value::F16(0), 33),
        (Value::F32(0), 65),
        (Value::F64(0), 97),
        (Value::F128, 129),
        (Value::I8(0), 9),
        (Value::I16(0), 41),
        (Value::I32(0), 73),
        (Value::I64(0), 105),
        (Value::I128(0), 137),
        (Value::U8(0), 17),
        (Value::U16(0), 49),
        (Value::U32(0), 81),
        (Value::U64(0), 113),
        (Value::U128(0), 145),
        (Value::String(vec![]), 2),
        (Value::StringObject(vec![]), 3),
        (Value::I8Object(vec![]), 11),
        (Value::I16Object(vec![]), 43),
        (Value::I32Object(vec![]), 75),
        (Value::I64Object(vec![]), 107),
        (Value::I128Object(vec![]), 139),
        (Value::U8Object(vec![]), 19),
        (Value::U16Object(vec![]), 51),
        (Value::U32Object(vec![]), 83),
        (Value::U64Object(vec![]), 115),
        (Value::U128Object(vec![]), 147),
        (Value::BF16Array(vec![]), 4),
        (Value::F16Array(vec![]), 36),
        (Value::F32Array(vec![]), 68),
        (Value::F64Array(vec![]), 100),
        (Value::F128Array, 132),
        (Value::I8Array(vec![]), 12),
        (Value::I16Array(vec![]), 44),
        (Value::I32Array(vec![]), 76),
        (Value::I64Array(vec![]), 108),
        (Value::I128Array(vec![]), 140),
        (Value::U8Array(vec![]), 20),
        (Value::U16Array(vec![]), 52),
        (Value::U32Array(vec![]), 84),
        (Value::U64Array(vec![]), 116),
        (Value::U128Array(vec![]), 148),
        (Value::BoolArray(0, vec![]), 28),
        (Value::StringArray(vec![]), 60),
        (Value::GenericArray(vec![]), 5),
        (Value::Delimiter, 6),
        (Value::Tag(0, Box::new(Value::Null)), 14),
        (Value::Matrix, 22),
        (Value::Complex, 30),
        (Value::Reserved, 7),
    ];
    for (value, header) in cases {
        assert_eq!(value.header(), header);
    }
    assert_eq!(Value::I32(1).name(), "32-bit integer");
    assert_eq!(Value::Tag(0, Box::new(Value::Null)).name(), "unknown type");
}

#[test]
fn values_are_written_header_length_payload() {
    assert_eq!(encode(&Value::String(b"hi".to_vec())), vec![2, 8, b'h', b'i']);
    assert_eq!(encode(&Value::U32Array(vec![1, 2])), vec![U32_ARRAY, 8, 1, 0, 0, 0, 2, 0, 0, 0]);
    assert_eq!(encode(&Value::BoolArray(3, vec![0b101])), vec![BOOL_ARRAY, 12, 0b101]);
    assert_eq!(
        encode(&Value::StringArray(vec![b"a".to_vec(), b"bc".to_vec()])),
        vec![STRING_ARRAY, 8, 4, b'a', 8, b'b', b'c']
    );
    assert_eq!(
        encode(&Value::GenericArray(vec![Value::Null, Value::U8(3)])),
        vec![GENERIC_ARRAY, 8, 0, 17, 3]
    );
    assert_eq!(encode(&Value::Tag(5, Box::new(Value::True))), vec![TAG, 20, 24]);
}

#[test]
fn object_keys_have_no_header() {
    assert_eq!(
        encode(&Value::I16Object(vec![(-2, Value::True), (3, Value::Null)])),
        vec![I16_OBJECT, 8, 0xFE, 0xFF, 24, 3, 0, 0]
    );
    assert_eq!(
        encode(&Value::StringObject(vec![(b"k".to_vec(), Value::U8(1))])),
        vec![STRING_OBJECT, 4, 4, b'k', 17, 1]
    );
}

#[test]
fn nested_values_are_written_in_order() {
    let value = Value::GenericArray(vec![
        Value::StringObject(vec![(b"a".to_vec(), Value::I8Array(vec![1, -1]))]),
        Value::Tag(1, Box::new(Value::GenericArray(vec![]))),
    ]);
    assert_eq!(
        encode(&value),
        vec![GENERIC_ARRAY, 8, STRING_OBJECT, 4, 4, b'a', 12, 8, 1, 0xFF, TAG, 4, GENERIC_ARRAY, 0]
    );
}

#[test]
fn values_that_are_never_written_are_told_apart() {
    assert!(Value::Null.is_serializable());
    assert!(Value::I32Array(vec![1]).is_serializable());
    assert!(Value::Tag(1, Box::new(Value::True)).is_serializable());
    assert!(!Value::BF16(0).is_serializable());
    assert!(!Value::F16(0).is_serializable());
    assert!(!Value::F128.is_serializable());
    assert!(!Value::BF16Array(vec![]).is_serializable());
    assert!(!Value::F16Array(vec![]).is_serializable());
    assert!(!Value::F128Array.is_serializable());
    assert!(!Value::Delimiter.is_serializable());
    assert!(!Value::Matrix.is_serializable());
    assert!(!Value::Complex.is_serializable());
    assert!(!Value::Reserved.is_serializable());
    assert!(!Value::Tag(1, Box::new(Value::F128)).is_serializable());
    assert!(!Value::GenericArray(vec![Value::True, Value::Reserved]).is_serializable());
    assert!(!Value::U8Object(vec![(1, Value::True), (2, Value::Matrix)]).is_serializable());
    assert!(Value::StringObject(vec![(vec![], Value::GenericArray(vec![]))]).is_serializable());
    assert!(list_serializable(&vec![Value::Null]));
    assert!(!list_serializable(&vec![Value::Null, Value::F128]));
    assert!(entries_serializable(&vec![(1u8, Value::Null)]));
    assert!(!entries_serializable(&vec![(1u8, Value::Complex)]));
}

#[test]
fn values_know_their_kinds() {
    assert_eq!(Value::True.element_kind(), ArrayKind::Boolean);
    assert_eq!(Value::False.element_kind(), ArrayKind::Boolean);
    assert_eq!(Value::String(vec![]).element_kind(), ArrayKind::String);
    assert_eq!(Value::I64(0).element_kind(), ArrayKind::I64);
    assert_eq!(Value::F32(0).element_kind(), ArrayKind::F32);
    assert_eq!(Value::Null.element_kind(), ArrayKind::Generic);
    assert_eq!(Value::U8Array(vec![]).element_kind(), ArrayKind::Generic);
    assert_eq!(Value::BF16(0).element_kind(), ArrayKind::Generic);
    assert_eq!(Value::I64(0).key_kind(), Some(ObjectKind::I64));
    assert_eq!(Value::String(vec![]).key_kind(), Some(ObjectKind::String));
    assert_eq!(Value::F32(0).key_kind(), None);
    assert_eq!(Value::True.key_kind(), None);
    assert_eq!(Value::I16(-1).scalar_bits(), Some((ArrayKind::I16, 0xFFFF)));
    assert_eq!(Value::U64(5).scalar_bits(), Some((ArrayKind::U64, 5)));
    assert_eq!(Value::F64(7).scalar_bits(), Some((ArrayKind::F64, 7)));
    assert_eq!(Value::True.scalar_bits(), None);
}

#[test]
fn little_endian_digits_are_pushed_and_read() {
    let mut out = vec![9u8];
    push_le(&mut out, 0x0102_0304, 4);
    push_le(&mut out, 0x0102_0304, 2);
    push_le(&mut out, 5, 0);
    push_le(&mut out, 1, 3);
    assert_eq!(out, vec![9, 4, 3, 2, 1, 4, 3, 1, 0, 0]);
    assert_eq!(read_le(&[4, 3, 2, 1]), 0x0102_0304);
    assert_eq!(read_le(&[]), 0);
    assert_eq!(read_le(&[0xFF; 16]), u128::MAX);
    assert_eq!(read_le(&[0, 1]), 256);
}

#[test]
fn numbers_spell_their_payload_in_twos_complement() {
    assert_eq!((-1i8).to_bits(), 0xFF);
    assert_eq!(i8::MIN.to_bits(), 0x80);
    assert_eq!((-2i16).to_bits(), 0xFFFE);
    assert_eq!(i32::MIN.to_bits(), 0x8000_0000);
    assert_eq!((-1i64).to_bits(), u64::MAX as u128);
    assert_eq!((-1i128).to_bits(), u128::MAX);
    assert_eq!(i128::MIN.to_bits(), 1u128 << 127);
    assert_eq!(7u32.to_bits(), 7);
    assert_eq!(i8::from_bits(0x80), i8::MIN);
    assert_eq!(i8::from_bits(0x7F), i8::MAX);
    assert_eq!(i16::from_bits(0xFFFF), -1);
    assert_eq!(i32::from_bits(0xFFFF_FFFE), -2);
    assert_eq!(i64::from_bits(1u128 << 63), i64::MIN);
    assert_eq!(i128::from_bits(u128::MAX), -1);
    assert_eq!(i128::from_bits(1u128 << 127), i128::MIN);
    assert_eq!(u8::from_bits(200), 200);
    assert_eq!(u16::from_bits(65535), 65535);
    assert_eq!(u64::from_bits(u64::MAX as u128), u64::MAX);
    assert_eq!(u128::from_bits(u128::MAX), u128::MAX);
    assert_eq!(<i8 as Scalar>::byte_width(), 1);
    assert_eq!(<u16 as Scalar>::byte_width(), 2);
    assert_eq!(<i32 as Scalar>::byte_width(), 4);
    assert_eq!(<u64 as Scalar>::byte_width(), 8);
    assert_eq!(<i128 as Scalar>::byte_width(), 16);
}

#[test]
fn bits_are_packed_lowest_first() {
    assert_eq!(pack_bits(&vec![]), Vec::<u8>::new());
    assert_eq!(pack_bits(&vec![true]), vec![1]);
    assert_eq!(pack_bits(&vec![false, true]), vec![2]);
    assert_eq!(pack_bits(&vec![false; 8]), vec![0]);
    assert_eq!(pack_bits(&vec![false, false, false, false, false, false, false, true]), vec![128]);
    assert_eq!(pack_bits(&vec![true; 9]), vec![255, 1]);
    let bools = vec![true, false, true, true, false, false, false, true, true, false];
    let packed = pack_bits(&bools);
    assert_eq!(packed, vec![0x8D, 0x01]);
    for (i, b) in bools.iter().enumerate() {
        assert_eq!(test_bit(packed[i / 8], i % 8), *b);
    }
    for k in 2..8 {
        assert!(!test_bit(packed[1], k));
    }
}
