use serde_beve::de::{Deserializer, Item};
use serde_beve::headers::{
    BOOL_ARRAY, F64_ARRAY, GENERIC_ARRAY, I32, I32_ARRAY, I8, NULL, STRING, STRING_ARRAY, TAG,
    TRUE, U8_ARRAY,
};
use serde_beve::ser::seq::SeqSerializer;
use serde_beve::ser::Serializer;
use serde_beve::{ArrayKind, Error, IoError, Value};

fn sequence(elements: Vec<Value>) -> (Value, Vec<u8>) {
    let mut s = Serializer::new(Vec::new());
    let mut seq = s.serialize_seq(Some(elements.len())).unwrap();
    for e in elements {
        seq.serialize_element(e).unwrap();
    }
    let v = seq.end().unwrap();
    (v, s.into_inner())
}

#[test]
fn three_i32_make_one_homogeneous_array() {
    let (value, bytes) = sequence(vec![Value::I32(1), Value::I32(2), Value::I32(3)]);
    assert_eq!(value, Value::I32Array(vec![1, 2, 3]));
    assert_eq!(bytes, vec![I32_ARRAY, 3 << 2, 1, 0, 0, 0, 2, 0, 0, 0, 3, 0, 0, 0]);

    let mut d = Deserializer::new(&bytes);
    let mut seq = d.deserialize_seq().unwrap();
    assert_eq!(seq.len, 3);
    assert_eq!(seq.kind, ArrayKind::I32);
    assert_eq!(seq.size_hint(), Some(3));
    assert_eq!(seq.next_i32(), Ok(Some(1)));
    assert_eq!(seq.size_hint(), Some(2));
    assert!(!seq.is_done());
    assert_eq!(seq.next_i32(), Ok(Some(2)));
    assert_eq!(seq.next_i32(), Ok(Some(3)));
    assert!(seq.is_done());
    assert_eq!(seq.size_hint(), Some(0));
    assert_eq!(seq.next_i32(), Ok(None));
    assert_eq!(d.get_byte(), Err(Error::Io(IoError::UnexpectedEof)));
}

#[test]
fn asking_an_i32_array_for_an_f64_is_a_mismatch() {
    let (_, bytes) = sequence(vec![Value::I32(1), Value::I32(2), Value::I32(3)]);
    let mut d = Deserializer::new(&bytes);
    let mut seq = d.deserialize_seq().unwrap();
    assert_eq!(
        seq.next_f64(),
        Err(Error::MismatchedElementType { expected: ArrayKind::F64, found: ArrayKind::I32 })
    );
    assert_eq!(seq.index, 0);
    assert_eq!(seq.next_i32(), Ok(Some(1)));
    assert_eq!(
        seq.next_bool(),
        Err(Error::MismatchedElementType { expected: ArrayKind::Boolean, found: ArrayKind::I32 })
    );
    assert_eq!(
        seq.next_string(),
        Err(Error::MismatchedElementType { expected: ArrayKind::String, found: ArrayKind::I32 })
    );
    assert_eq!(seq.next_element(), Ok(Some(Item::I32(2))));
}

#[test]
fn ten_booleans_are_packed_into_two_bytes() {
    let input = [true, false, true, true, false, false, false, true, true, false];
    let elements = input.iter().map(|b| if *b { Value::True } else { Value::False }).collect();
    let (value, bytes) = sequence(elements);
    assert_eq!(value, Value::BoolArray(10, vec![0b1000_1101, 0b0000_0001]));
    assert_eq!(bytes, vec![BOOL_ARRAY, 10 << 2, 0b1000_1101, 0b0000_0001]);

    let mut d = Deserializer::new(&bytes);
    let mut seq = d.deserialize_seq().unwrap();
    assert_eq!(seq.kind, ArrayKind::Boolean);
    assert_eq!(seq.len, 10);
    for expected in input {
        assert_eq!(seq.next_bool(), Ok(Some(expected)));
    }
    assert_eq!(seq.next_bool(), Ok(None));
    assert_eq!(d.get_byte(), Err(Error::Io(IoError::UnexpectedEof)));
}

#[test]
fn boolean_elements_come_as_items_too() {
    let bytes = [BOOL_ARRAY, 9 << 2, 0xFF, 0x00, I8];
    let mut d = Deserializer::new(&bytes);
    let mut seq = d.deserialize_seq().unwrap();
    for _ in 0..8 {
        assert_eq!(seq.next_element(), Ok(Some(Item::Bool(true))));
    }
    assert_eq!(seq.next_element(), Ok(Some(Item::Bool(false))));
    assert_eq!(seq.next_element(), Ok(None));
    assert_eq!(d.get_byte(), Ok(I8));
}

#[test]
fn eight_and_sixteen_booleans_fill_whole_bytes() {
    let (value, bytes) = sequence((0..8).map(|_| Value::True).collect());
    assert_eq!(value, Value::BoolArray(8, vec![0xFF]));
    assert_eq!(bytes, vec![BOOL_ARRAY, 32, 0xFF]);
    let mut sixteen = Vec::new();
    for i in 0..16 {
        sixteen.push(if i % 2 == 1 { Value::True } else { Value::False });
    }
    let (value, _) = sequence(sixteen);
    assert_eq!(value, Value::BoolArray(16, vec![0xAA, 0xAA]));
}

#[test]
fn strings_make_a_string_array() {
    let (value, bytes) =
        sequence(vec![Value::String(b"ab".to_vec()), Value::String(vec![]), Value::String(b"c".to_vec())]);
    assert_eq!(value, Value::StringArray(vec![b"ab".to_vec(), vec![], b"c".to_vec()]));
    assert_eq!(bytes, vec![STRING_ARRAY, 12, 8, b'a', b'b', 0, 4, b'c']);
    let mut d = Deserializer::new(&bytes);
    let mut seq = d.deserialize_seq().unwrap();
    assert_eq!(seq.next_string(), Ok(Some("ab".to_string())));
    assert_eq!(seq.next_element(), Ok(Some(Item::String(String::new()))));
    assert_eq!(seq.next_string(), Ok(Some("c".to_string())));
    assert_eq!(seq.next_string(), Ok(None));
}

#[test]
fn floats_make_a_float_array() {
    let (value, bytes) = sequence(vec![Value::F64(1.0f64.to_bits()), Value::F64(2.5f64.to_bits())]);
    assert_eq!(value, Value::F64Array(vec![1.0f64.to_bits(), 2.5f64.to_bits()]));
    let mut expected = vec![F64_ARRAY, 8];
    expected.extend_from_slice(&1.0f64.to_le_bytes());
    expected.extend_from_slice(&2.5f64.to_le_bytes());
    assert_eq!(bytes, expected);
    let mut d = Deserializer::new(&bytes);
    let mut seq = d.deserialize_seq().unwrap();
    assert_eq!(seq.next_f64(), Ok(Some(1.0f64.to_bits())));
    assert_eq!(seq.next_element(), Ok(Some(Item::F64(2.5f64.to_bits()))));
}

#[test]
fn every_integer_kind_makes_its_array() {
    assert_eq!(sequence(vec![Value::I8(-1)]).0, Value::I8Array(vec![-1]));
    assert_eq!(sequence(vec![Value::I16(-1)]).0, Value::I16Array(vec![-1]));
    assert_eq!(sequence(vec![Value::I64(i64::MIN)]).0, Value::I64Array(vec![i64::MIN]));
    assert_eq!(sequence(vec![Value::I128(i128::MIN)]).0, Value::I128Array(vec![i128::MIN]));
    assert_eq!(sequence(vec![Value::U8(255)]).0, Value::U8Array(vec![255]));
    assert_eq!(sequence(vec![Value::U16(65535)]).0, Value::U16Array(vec![65535]));
    assert_eq!(sequence(vec![Value::U32(7)]).0, Value::U32Array(vec![7]));
    assert_eq!(sequence(vec![Value::U64(u64::MAX)]).0, Value::U64Array(vec![u64::MAX]));
    assert_eq!(sequence(vec![Value::U128(u128::MAX)]).0, Value::U128Array(vec![u128::MAX]));
    assert_eq!(sequence(vec![Value::F32(9), Value::F32(8)]).0, Value::F32Array(vec![9, 8]));
    let (_, bytes) = sequence(vec![Value::U8(1), Value::U8(2)]);
    assert_eq!(bytes, vec![U8_ARRAY, 8, 1, 2]);
    let (_, bytes) = sequence(vec![Value::I16(-2), Value::I16(3)]);
    let mut d = Deserializer::new(&bytes);
    let mut seq = d.deserialize_seq().unwrap();
    assert_eq!(seq.next_i16(), Ok(Some(-2)));
    assert_eq!(seq.next_i16(), Ok(Some(3)));
}

#[test]
fn mixed_elements_are_promoted_to_a_generic_array() {
    let (value, bytes) = sequence(vec![Value::I32(1), Value::True, Value::String(b"x".to_vec())]);
    assert_eq!(
        value,
        Value::GenericArray(vec![Value::I32(1), Value::True, Value::String(b"x".to_vec())])
    );
    assert_eq!(bytes, vec![GENERIC_ARRAY, 12, I32, 1, 0, 0, 0, TRUE, STRING, 4, b'x']);
    let mut d = Deserializer::new(&bytes);
    let mut seq = d.deserialize_seq().unwrap();
    assert_eq!(seq.kind, ArrayKind::Generic);
    assert_eq!(seq.next_i32(), Ok(Some(1)));
    assert_eq!(seq.next_bool(), Ok(Some(true)));
    assert_eq!(seq.next_string(), Ok(Some("x".to_string())));
    assert_eq!(seq.next_element(), Ok(None));
}

#[test]
fn generic_elements_are_checked_by_their_own_header() {
    let (_, bytes) = sequence(vec![Value::I32(1), Value::True]);
    let mut d = Deserializer::new(&bytes);
    let mut seq = d.deserialize_seq().unwrap();
    assert_eq!(
        seq.next_i8(),
        Err(Error::WrongType { expected: "8-bit integer", found: "32-bit integer" })
    );
}

#[test]
fn the_empty_sequence_is_an_empty_generic_array() {
    let (value, bytes) = sequence(vec![]);
    assert_eq!(value, Value::GenericArray(vec![]));
    assert_eq!(bytes, vec![GENERIC_ARRAY, 0]);
    let mut d = Deserializer::new(&bytes);
    let mut seq = d.deserialize_seq().unwrap();
    assert!(seq.is_done());
    assert_eq!(seq.next_element(), Ok(None));
    assert_eq!(seq.next_u8(), Ok(None));
}

#[test]
fn null_elements_keep_the_array_generic() {
    let (value, bytes) = sequence(vec![Value::Null, Value::Null]);
    assert_eq!(value, Value::GenericArray(vec![Value::Null, Value::Null]));
    assert_eq!(bytes, vec![GENERIC_ARRAY, 8, NULL, NULL]);
}

#[test]
fn tracked_kind_follows_the_elements() {
    let mut s = Serializer::new(Vec::new());
    let mut seq = SeqSerializer::new(&mut s);
    assert_eq!(seq.kind, None);
    assert_eq!(seq.detect(), ArrayKind::Generic);
    seq.update_type(ArrayKind::U8);
    assert_eq!(seq.kind, Some(ArrayKind::U8));
    seq.update_type(ArrayKind::U8);
    assert_eq!(seq.kind, Some(ArrayKind::U8));
    assert_eq!(seq.detect(), ArrayKind::U8);
    seq.update_type(ArrayKind::I8);
    assert_eq!(seq.kind, Some(ArrayKind::Generic));
    seq.update_type(ArrayKind::I8);
    assert_eq!(seq.kind, Some(ArrayKind::Generic));
    seq.ensure_generic();
    assert_eq!(seq.kind, Some(ArrayKind::Generic));
    assert_eq!(seq.end(), Ok(Value::GenericArray(vec![])));
    assert_eq!(s.into_inner(), vec![GENERIC_ARRAY, 0]);
}

#[test]
fn a_kind_that_the_elements_do_not_share_falls_back_to_generic() {
    let mut s = Serializer::new(Vec::new());
    let mut seq = SeqSerializer::new(&mut s);
    seq.elements.push(Value::I32(1));
    seq.elements.push(Value::U8(2));
    seq.kind = Some(ArrayKind::I32);
    assert_eq!(seq.detect(), ArrayKind::Generic);
    assert_eq!(seq.end(), Ok(Value::GenericArray(vec![Value::I32(1), Value::U8(2)])));
}

#[test]
fn element_builders_track_the_kind_and_build_values() {
    let mut s = Serializer::new(Vec::new());
    let mut seq = s.serialize_seq(None).unwrap();
    let a = seq.serialize_u16(7).unwrap();
    assert_eq!(a, Value::U16(7));
    seq.serialize_element(a).unwrap();
    let b = seq.serialize_u16(8).unwrap();
    seq.serialize_element(b).unwrap();
    assert_eq!(seq.kind, Some(ArrayKind::U16));
    assert_eq!(seq.end(), Ok(Value::U16Array(vec![7, 8])));
    assert_eq!(s.into_inner(), vec![52, 8, 7, 0, 8, 0]);

    let mut s = Serializer::new(Vec::new());
    let mut seq = s.serialize_seq(Some(2)).unwrap();
    assert_eq!(seq.serialize_bool(true), Ok(Value::True));
    assert_eq!(seq.kind, Some(ArrayKind::Boolean));
    assert_eq!(seq.serialize_str("é"), Ok(Value::String(vec![0xC3, 0xA9])));
    assert_eq!(seq.kind, Some(ArrayKind::Generic));
    assert_eq!(seq.serialize_char('z'), Ok(Value::String(vec![b'z'])));
    assert_eq!(seq.serialize_bytes(&[1]), Ok(Value::U8Array(vec![1])));
    assert_eq!(seq.serialize_unit(), Ok(Value::Null));
    assert_eq!(seq.serialize_none(), Ok(Value::Null));
    assert_eq!(seq.serialize_f32(3), Ok(Value::F32(3)));
    assert_eq!(seq.serialize_i128(-3), Ok(Value::I128(-3)));
    assert_eq!(
        seq.serialize_unit_variant(2),
        Ok(Value::Tag(2, Box::new(Value::Null)))
    );
    assert_eq!(
        seq.serialize_newtype_variant(1, Value::U8(9)),
        Ok(Value::Tag(1, Box::new(Value::U8(9))))
    );
    assert_eq!(seq.elements.len(), 0);
    assert_eq!(seq.end(), Ok(Value::GenericArray(vec![])));
}

#[test]
fn nested_sequences_are_buffered_and_written_once() {
    let mut s = Serializer::new(Vec::new());
    {
        let mut outer = s.serialize_seq(None).unwrap();
        let inner_value = {
            let mut inner = outer.serialize_seq(None).unwrap();
            inner.serialize_element(Value::U8(1)).unwrap();
            inner.serialize_element(Value::U8(2)).unwrap();
            inner.end().unwrap()
        };
        assert_eq!(inner_value, Value::U8Array(vec![1, 2]));
        outer.serialize_element(inner_value).unwrap();
        let tagged = {
            let mut inner = outer.serialize_tuple_variant(3, 1).unwrap();
            inner.serialize_element(Value::True).unwrap();
            inner.end().unwrap()
        };
        assert_eq!(tagged, Value::Tag(3, Box::new(Value::GenericArray(vec![Value::True]))));
        outer.serialize_element(tagged).unwrap();
        let out = outer.end().unwrap();
        assert!(matches!(out, Value::GenericArray(_)));
    }
    assert_eq!(
        s.into_inner(),
        vec![GENERIC_ARRAY, 8, U8_ARRAY, 8, 1, 2, TAG, 12, GENERIC_ARRAY, 4, TRUE]
    );
}

#[test]
fn nested_arrays_are_read_through_nested_handles() {
    let bytes = [GENERIC_ARRAY, 8, U8_ARRAY, 8, 1, 2, I8, 0xFF];
    let mut d = Deserializer::new(&bytes);
    let mut outer = d.deserialize_seq().unwrap();
    assert_eq!(outer.next_element(), Ok(Some(Item::Array(2, ArrayKind::U8))));
    {
        let mut inner =
            serde_beve::de::seq::SeqDeserializer::new(&mut *outer.deserializer, 2, ArrayKind::U8);
        assert_eq!(inner.next_u8(), Ok(Some(1)));
        assert_eq!(inner.next_u8(), Ok(Some(2)));
        assert_eq!(inner.next_u8(), Ok(None));
    }
    assert_eq!(outer.next_i8(), Ok(Some(-1)));
    assert_eq!(outer.next_element(), Ok(None));
}

#[test]
fn an_array_of_an_exact_kind_is_checked_by_its_header() {
    let bytes = [I32_ARRAY, 4, 5, 0, 0, 0];
    let mut d = Deserializer::new(&bytes);
    let mut seq = d.deserialize_array(ArrayKind::I32).unwrap();
    assert_eq!(seq.next_i32(), Ok(Some(5)));
    let mut d = Deserializer::new(&bytes);
    assert_eq!(
        d.deserialize_array(ArrayKind::U8).err(),
        Some(Error::WrongType {
            expected: "array of 8-bit unsigned integers",
            found: "array of 32-bit integers"
        })
    );
}

#[test]
fn brain_float_arrays_are_widened_element_by_element() {
    let bytes = [4u8, 8, 0x48, 0x41, 0x80, 0x3F];
    let mut d = Deserializer::new(&bytes);
    let mut seq = d.deserialize_seq().unwrap();
    assert_eq!(seq.kind, ArrayKind::BF16);
    assert_eq!(seq.next_element(), Ok(Some(Item::F32(12.5f32.to_bits()))));
    assert_eq!(
        seq.next_f32(),
        Err(Error::MismatchedElementType { expected: ArrayKind::F32, found: ArrayKind::BF16 })
    );
    assert_eq!(seq.next_element(), Ok(Some(Item::F32(1.0f32.to_bits()))));
    let halves = [36u8, 4, 0x40, 0x4A];
    let mut d = Deserializer::new(&halves);
    let mut seq = d.deserialize_seq().unwrap();
    assert_eq!(seq.next_element(), Ok(Some(Item::F16(0x4A40))));
}

#[test]
fn an_array_that_ends_early_is_an_io_error() {
    let bytes = [I32_ARRAY, 8, 1, 0, 0, 0, 2, 0];
    let mut d = Deserializer::new(&bytes);
    let mut seq = d.deserialize_seq().unwrap();
    assert_eq!(seq.next_i32(), Ok(Some(1)));
    assert_eq!(seq.next_i32(), Err(Error::Io(IoError::UnexpectedEof)));
    assert_eq!(seq.index, 1);
    let short = [BOOL_ARRAY, 4];
    let mut d = Deserializer::new(&short);
    let mut seq = d.deserialize_seq().unwrap();
    assert_eq!(seq.next_bool(), Err(Error::Io(IoError::UnexpectedEof)));
}

#[test]
fn a_header_that_is_no_array_is_of_the_wrong_type() {
    let bytes = [I32, 1, 0, 0, 0];
    let mut d = Deserializer::new(&bytes);
    assert_eq!(
        d.deserialize_seq().err(),
        Some(Error::WrongType { expected: "array", found: "32-bit integer" })
    );
    let bytes = [132u8, 0];
    let mut d = Deserializer::new(&bytes);
    assert_eq!(
        d.deserialize_seq().err(),
        Some(Error::WrongType { expected: "array", found: "array of 128-bit floats" })
    );
}

#[test]
fn tuples_are_generic_arrays_whatever_they_hold() {
    let mut s = Serializer::new(Vec::new());
    {
        let mut seq = s.serialize_tuple(2).unwrap();
        assert_eq!(seq.kind, Some(ArrayKind::Generic));
        seq.serialize_element(Value::U8(1)).unwrap();
        seq.serialize_element(Value::U8(2)).unwrap();
        assert_eq!(seq.end(), Ok(Value::GenericArray(vec![Value::U8(1), Value::U8(2)])));
    }
    {
        let mut seq = s.serialize_tuple_struct(1).unwrap();
        seq.serialize_element(Value::True).unwrap();
        let nested = {
            let mut inner = seq.serialize_tuple(1).unwrap();
            inner.serialize_element(Value::I8(3)).unwrap();
            inner.end().unwrap()
        };
        assert_eq!(nested, Value::GenericArray(vec![Value::I8(3)]));
        seq.serialize_element(nested).unwrap();
        seq.end().unwrap();
    }
    assert_eq!(
        s.into_inner(),
        vec![GENERIC_ARRAY, 8, 17, 1, 17, 2, GENERIC_ARRAY, 8, TRUE, GENERIC_ARRAY, 4, I8, 3]
    );
}
