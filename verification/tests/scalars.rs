use serde_beve::de::{Deserializer, Item};
use serde_beve::headers::{BF16, F16, F32, F64, I16, I32, I8, NULL, STRING, TRUE, U128, U64};
use serde_beve::ser::Serializer;
use serde_beve::{Error, Value};

fn encode(v: &Value) -> Vec<u8> {
    let mut s = Serializer::new(Vec::new());
    s.serialize_value(v).unwrap();
    s.into_inner()
}

#[test]
fn scalar_bytes_are_header_then_little_endian_payload() {
    assert_eq!(encode(&Value::Null), vec![NULL]);
    assert_eq!(encode(&Value::True), vec![TRUE]);
    assert_eq!(encode(&Value::False), vec![8]);
    assert_eq!(encode(&Value::I8(-2)), vec![I8, 0xFE]);
    assert_eq!(encode(&Value::I16(-2)), vec![I16, 0xFE, 0xFF]);
    assert_eq!(encode(&Value::I32(0x0102_0304)), vec![I32, 4, 3, 2, 1]);
    assert_eq!(encode(&Value::U64(1)), vec![U64, 1, 0, 0, 0, 0, 0, 0, 0]);
    let mut wide = vec![U128];
    wide.extend_from_slice(&u128::MAX.to_le_bytes());
    assert_eq!(encode(&Value::U128(u128::MAX)), wide);
    assert_eq!(encode(&Value::F32(1.5f32.to_bits())), vec![F32, 0, 0, 0xC0, 0x3F]);
    let mut double = vec![F64];
    double.extend_from_slice(&(-2.25f64).to_le_bytes());
    assert_eq!(encode(&Value::F64((-2.25f64).to_bits())), double);
}

#[test]
fn booleans_round_trip() {
    for v in [true, false] {
        let mut s = Serializer::new(Vec::new());
        let out = s.serialize_bool(v).unwrap();
        assert_eq!(out, if v { Value::True } else { Value::False });
        let bytes = s.into_inner();
        assert_eq!(Deserializer::new(&bytes).deserialize_bool(), Ok(v));
        assert_eq!(Deserializer::new(&bytes).deserialize_any(), Ok(Item::Bool(v)));
    }
}

#[test]
fn unit_round_trips() {
    let mut s = Serializer::new(Vec::new());
    assert_eq!(s.serialize_unit(), Ok(Value::Null));
    assert_eq!(s.serialize_none(), Ok(Value::Null));
    let bytes = s.into_inner();
    assert_eq!(bytes, vec![NULL, NULL]);
    let mut d = Deserializer::new(&bytes);
    assert_eq!(d.deserialize_unit(), Ok(()));
    assert_eq!(d.deserialize_any(), Ok(Item::Unit));
}

#[test]
fn signed_integers_round_trip_at_their_bounds() {
    for v in [0i8, 1, -1, i8::MIN, i8::MAX] {
        let mut s = Serializer::new(Vec::new());
        assert_eq!(s.serialize_i8(v), Ok(Value::I8(v)));
        let bytes = s.into_inner();
        assert_eq!(bytes[1..], v.to_le_bytes());
        assert_eq!(Deserializer::new(&bytes).deserialize_i8(), Ok(v));
        assert_eq!(Deserializer::new(&bytes).deserialize_any(), Ok(Item::I8(v)));
    }
    for v in [0i16, 1, -1, i16::MIN, i16::MAX] {
        let mut s = Serializer::new(Vec::new());
        assert_eq!(s.serialize_i16(v), Ok(Value::I16(v)));
        let bytes = s.into_inner();
        assert_eq!(bytes[1..], v.to_le_bytes());
        assert_eq!(Deserializer::new(&bytes).deserialize_i16(), Ok(v));
        assert_eq!(Deserializer::new(&bytes).deserialize_any(), Ok(Item::I16(v)));
    }
    for v in [0i32, 1, -1, i32::MIN, i32::MAX] {
        let mut s = Serializer::new(Vec::new());
        assert_eq!(s.serialize_i32(v), Ok(Value::I32(v)));
        let bytes = s.into_inner();
        assert_eq!(bytes[1..], v.to_le_bytes());
        assert_eq!(Deserializer::new(&bytes).deserialize_i32(), Ok(v));
        assert_eq!(Deserializer::new(&bytes).deserialize_any(), Ok(Item::I32(v)));
    }
    for v in [0i64, 1, -1, i64::MIN, i64::MAX] {
        let mut s = Serializer::new(Vec::new());
        assert_eq!(s.serialize_i64(v), Ok(Value::I64(v)));
        let bytes = s.into_inner();
        assert_eq!(bytes[1..], v.to_le_bytes());
        assert_eq!(Deserializer::new(&bytes).deserialize_i64(), Ok(v));
        assert_eq!(Deserializer::new(&bytes).deserialize_any(), Ok(Item::I64(v)));
    }
    for v in [0i128, 1, -1, i128::MIN, i128::MAX] {
        let mut s = Serializer::new(Vec::new());
        assert_eq!(s.serialize_i128(v), Ok(Value::I128(v)));
        let bytes = s.into_inner();
        assert_eq!(bytes[1..], v.to_le_bytes());
        assert_eq!(Deserializer::new(&bytes).deserialize_i128(), Ok(v));
        assert_eq!(Deserializer::new(&bytes).deserialize_any(), Ok(Item::I128(v)));
    }
}

#[test]
fn unsigned_integers_round_trip_at_their_bounds() {
    for v in [0u8, 1, 0x7F, 0x80, u8::MAX] {
        let mut s = Serializer::new(Vec::new());
        assert_eq!(s.serialize_u8(v), Ok(Value::U8(v)));
        let bytes = s.into_inner();
        assert_eq!(bytes[1..], v.to_le_bytes());
        assert_eq!(Deserializer::new(&bytes).deserialize_u8(), Ok(v));
        assert_eq!(Deserializer::new(&bytes).deserialize_any(), Ok(Item::U8(v)));
    }
    for v in [0u16, 1, 0x1234, u16::MAX] {
        let mut s = Serializer::new(Vec::new());
        assert_eq!(s.serialize_u16(v), Ok(Value::U16(v)));
        let bytes = s.into_inner();
        assert_eq!(bytes[1..], v.to_le_bytes());
        assert_eq!(Deserializer::new(&bytes).deserialize_u16(), Ok(v));
        assert_eq!(Deserializer::new(&bytes).deserialize_any(), Ok(Item::U16(v)));
    }
    for v in [0u32, 1, 0x1234_5678, u32::MAX] {
        let mut s = Serializer::new(Vec::new());
        assert_eq!(s.serialize_u32(v), Ok(Value::U32(v)));
        let bytes = s.into_inner();
        assert_eq!(bytes[1..], v.to_le_bytes());
        assert_eq!(Deserializer::new(&bytes).deserialize_u32(), Ok(v));
        assert_eq!(Deserializer::new(&bytes).deserialize_any(), Ok(Item::U32(v)));
    }
    for v in [0u64, 1, 0x1234_5678_9ABC_DEF0, u64::MAX] {
        let mut s = Serializer::new(Vec::new());
        assert_eq!(s.serialize_u64(v), Ok(Value::U64(v)));
        let bytes = s.into_inner();
        assert_eq!(bytes[1..], v.to_le_bytes());
        assert_eq!(Deserializer::new(&bytes).deserialize_u64(), Ok(v));
        assert_eq!(Deserializer::new(&bytes).deserialize_any(), Ok(Item::U64(v)));
    }
    for v in [0u128, 1, 1 << 127, u128::MAX] {
        let mut s = Serializer::new(Vec::new());
        assert_eq!(s.serialize_u128(v), Ok(Value::U128(v)));
        let bytes = s.into_inner();
        assert_eq!(bytes[1..], v.to_le_bytes());
        assert_eq!(Deserializer::new(&bytes).deserialize_u128(), Ok(v));
        assert_eq!(Deserializer::new(&bytes).deserialize_any(), Ok(Item::U128(v)));
    }
}

#[test]
fn floats_round_trip_as_their_bits() {
    for v in [0.0f32, -0.0, 1.5, f32::MIN, f32::MAX, f32::INFINITY, f32::NAN] {
        let mut s = Serializer::new(Vec::new());
        assert_eq!(s.serialize_f32(v.to_bits()), Ok(Value::F32(v.to_bits())));
        let bytes = s.into_inner();
        assert_eq!(bytes[1..], v.to_le_bytes());
        assert_eq!(Deserializer::new(&bytes).deserialize_f32(), Ok(v.to_bits()));
        assert_eq!(Deserializer::new(&bytes).deserialize_any(), Ok(Item::F32(v.to_bits())));
    }
    for v in [0.0f64, -0.0, 1.5, f64::MIN, f64::MAX, f64::NEG_INFINITY, f64::NAN] {
        let mut s = Serializer::new(Vec::new());
        assert_eq!(s.serialize_f64(v.to_bits()), Ok(Value::F64(v.to_bits())));
        let bytes = s.into_inner();
        assert_eq!(bytes[1..], v.to_le_bytes());
        assert_eq!(Deserializer::new(&bytes).deserialize_f64(), Ok(v.to_bits()));
        assert_eq!(Deserializer::new(&bytes).deserialize_any(), Ok(Item::F64(v.to_bits())));
    }
}

#[test]
fn brain_float_is_widened_by_the_half_crate() {
    let bytes = [BF16, 0x48, 0x41];
    assert_eq!(Deserializer::new(&bytes).deserialize_bf16(), Ok(12.5f32.to_bits()));
    assert_eq!(Deserializer::new(&bytes).deserialize_any(), Ok(Item::F32(12.5f32.to_bits())));
    assert_eq!(Deserializer::new(&bytes[1..]).get_bf16_value(), Ok(0x4148_0000));
    let quiet = [BF16, 0x81, 0x7F];
    assert_eq!(Deserializer::new(&quiet).deserialize_bf16(), Ok(0x7FC1_0000));
    let negative = [BF16, 0x80, 0xBF];
    assert_eq!(Deserializer::new(&negative).deserialize_bf16(), Ok((-1.0f32).to_bits()));
}

#[test]
fn half_float_comes_as_its_own_bits() {
    let bytes = [F16, 0x40, 0x4A];
    assert_eq!(Deserializer::new(&bytes).deserialize_f16(), Ok(0x4A40));
    assert_eq!(Deserializer::new(&bytes).deserialize_any(), Ok(Item::F16(0x4A40)));
    assert_eq!(Deserializer::new(&bytes[1..]).get_f16_value(), Ok(0x4A40));
}

#[test]
fn strings_round_trip() {
    for text in ["", "a", "hello world", "héllo", "日本語", "🦀 crab"] {
        let mut s = Serializer::new(Vec::new());
        let out = s.serialize_str(text).unwrap();
        assert_eq!(out, Value::String(text.as_bytes().to_vec()));
        let bytes = s.into_inner();
        assert_eq!(bytes[0], STRING);
        assert_eq!(bytes[1] as usize, text.len() << 2);
        assert_eq!(&bytes[2..], text.as_bytes());
        assert_eq!(Deserializer::new(&bytes).deserialize_string(), Ok(text.to_string()));
        assert_eq!(Deserializer::new(&bytes).deserialize_str(), Ok(text.to_string()));
        assert_eq!(
            Deserializer::new(&bytes).deserialize_any(),
            Ok(Item::String(text.to_string()))
        );
    }
}

#[test]
fn long_string_uses_a_wider_length() {
    let text = "x".repeat(300);
    let mut s = Serializer::new(Vec::new());
    s.serialize_str(&text).unwrap();
    let bytes = s.into_inner();
    assert_eq!(bytes.len(), 1 + 2 + 300);
    assert_eq!(&bytes[..3], &[STRING, 0xB1, 0x04]);
    assert_eq!(Deserializer::new(&bytes).deserialize_string(), Ok(text));
}

#[test]
fn characters_are_strings_of_one_character() {
    let mut s = Serializer::new(Vec::new());
    assert_eq!(s.serialize_char('a'), Ok(Value::String(vec![b'a'])));
    assert_eq!(s.serialize_char('é'), Ok(Value::String(vec![0xC3, 0xA9])));
    let bytes = s.into_inner();
    assert_eq!(bytes, vec![STRING, 4, b'a', STRING, 8, 0xC3, 0xA9]);
    let mut d = Deserializer::new(&bytes);
    assert_eq!(d.deserialize_char(), Ok('a'));
    assert_eq!(
        d.deserialize_char(),
        Err(Error::WrongType { expected: "character", found: "string" })
    );
    let empty = [STRING, 0];
    assert_eq!(
        Deserializer::new(&empty).deserialize_char(),
        Err(Error::WrongType { expected: "character", found: "string" })
    );
}

#[test]
fn bytes_round_trip_as_an_array_of_u8() {
    let mut s = Serializer::new(Vec::new());
    assert_eq!(s.serialize_bytes(&[1, 2, 255]), Ok(Value::U8Array(vec![1, 2, 255])));
    let bytes = s.into_inner();
    assert_eq!(bytes, vec![20, 12, 1, 2, 255]);
    assert_eq!(Deserializer::new(&bytes).deserialize_bytes(), Ok(vec![1, 2, 255]));
    assert_eq!(Deserializer::new(&bytes).deserialize_byte_buf(), Ok(vec![1, 2, 255]));
    assert_eq!(Deserializer::new(&bytes[1..]).get_u8_array(), Ok(vec![1, 2, 255]));
}

#[test]
fn option_looks_ahead_without_taking_a_value() {
    let bytes = [NULL, I8, 5];
    let mut d = Deserializer::new(&bytes);
    assert_eq!(d.deserialize_option(), Ok(false));
    assert_eq!(d.deserialize_option(), Ok(true));
    assert_eq!(d.deserialize_option(), Ok(true));
    assert_eq!(d.deserialize_i8(), Ok(5));
    assert!(d.deserialize_option().is_err());
}

#[test]
fn peek_holds_the_byte_for_the_next_read() {
    let bytes = [1u8, 2, 3];
    let mut d = Deserializer::new(&bytes);
    assert_eq!(d.peek_byte(), Ok(1));
    assert_eq!(d.peek_byte(), Ok(1));
    assert_eq!(d.get_byte(), Ok(1));
    assert_eq!(d.peek_byte(), Ok(2));
    assert_eq!(d.get_bytes(2), Ok(vec![2, 3]));
    assert!(d.peek_byte().is_err());
    assert_eq!(d.get_bytes(0), Ok(vec![]));
}

#[test]
fn typed_payload_reads_take_the_peeked_byte_first() {
    let bytes = [0x34u8, 0x12, 9];
    let mut d = Deserializer::new(&bytes);
    assert_eq!(d.peek_byte(), Ok(0x34));
    assert_eq!(d.get_u16_value(), Ok(0x1234));
    assert_eq!(d.get_u8_value(), Ok(9));
    let more = [0xFFu8, 0xFF, 0xFF, 0xFF, 1, 0, 0, 0, 0, 0, 0, 0];
    let mut d = Deserializer::new(&more);
    assert_eq!(d.get_i32_value(), Ok(-1));
    assert_eq!(d.get_u64_value(), Ok(1));
    let mut d = Deserializer::new(&more);
    assert_eq!(d.get_f32_value(), Ok(u32::MAX));
    assert_eq!(d.get_f64_value(), Ok(1));
    let mut d = Deserializer::new(&more);
    assert_eq!(d.get_i8_value(), Ok(-1));
    assert_eq!(d.get_i16_value(), Ok(-1));
    assert_eq!(d.get_u8_value(), Ok(255));
    assert_eq!(d.get_i64_value(), Ok(1));
    let sixteen = [1u8, 0, 0, 0, 0, 0, 0, 0, 0, 0, 0, 0, 0, 0, 0, 0x80];
    assert_eq!(Deserializer::new(&sixteen).get_i128_value(), Ok(i128::MIN + 1));
    assert_eq!(Deserializer::new(&sixteen).get_u128_value(), Ok((1u128 << 127) + 1));
    assert_eq!(Deserializer::new(&sixteen).get_u32_value(), Ok(1));
}
