use serde_beve::de::map::MapDeserializer;
use serde_beve::de::{Deserializer, Item};
use serde_beve::headers::{I32, I32_OBJECT, I8, STRING_OBJECT, TAG, TRUE, U8_OBJECT};
use serde_beve::ser::map::MapSerializer;
use serde_beve::ser::Serializer;
use serde_beve::{ArrayKind, Error, IoError, ObjectKind, Value};

#[test]
fn a_string_key_then_an_integer_key_is_a_mismatch() {
    let mut s = Serializer::new(Vec::new());
    let mut map = s.serialize_map(None).unwrap();
    assert_eq!(map.serialize_key(Value::String(b"a".to_vec())), Ok(()));
    assert_eq!(map.kind, Some(ObjectKind::String));
    assert_eq!(map.serialize_value(Value::U8(1)), Ok(()));
    assert_eq!(
        map.serialize_key(Value::I32(5)),
        Err(Error::MismatchedKeyType { expected: ObjectKind::I32, found: ObjectKind::String })
    );
    assert_eq!(map.keys.len(), 1);
    assert_eq!(map.kind, Some(ObjectKind::String));
}

#[test]
fn i32_keys_round_trip_in_an_i32_keyed_object() {
    let mut s = Serializer::new(Vec::new());
    let value = {
        let mut map = s.serialize_map(Some(3)).unwrap();
        for k in [1, 2, 3] {
            map.serialize_key(Value::I32(k)).unwrap();
            map.serialize_value(Value::I8(-(k as i8))).unwrap();
        }
        assert_eq!(map.kind, Some(ObjectKind::I32));
        map.end().unwrap()
    };
    assert_eq!(
        value,
        Value::I32Object(vec![(1, Value::I8(-1)), (2, Value::I8(-2)), (3, Value::I8(-3))])
    );
    let bytes = s.into_inner();
    assert_eq!(
        bytes,
        vec![
            I32_OBJECT, 12, 1, 0, 0, 0, I8, 0xFF, 2, 0, 0, 0, I8, 0xFE, 3, 0, 0, 0, I8, 0xFD
        ]
    );
    let mut d = Deserializer::new(&bytes);
    let mut map = d.deserialize_map().unwrap();
    assert_eq!(map.kind, ObjectKind::I32);
    assert_eq!(map.len, 3);
    assert_eq!(map.size_hint(), Some(3));
    for k in [1, 2, 3] {
        assert!(!map.is_done());
        assert_eq!(map.next_key(), Ok(Some(Item::I32(k))));
        assert_eq!(map.next_value(), Ok(Item::I8(-(k as i8))));
    }
    assert!(map.is_done());
    assert_eq!(map.size_hint(), Some(0));
    assert_eq!(map.next_key(), Ok(None));
    assert_eq!(d.get_byte(), Err(Error::Io(IoError::UnexpectedEof)));
}

#[test]
fn a_key_that_is_no_string_or_integer_is_invalid() {
    let mut s = Serializer::new(Vec::new());
    let mut map = s.serialize_map(None).unwrap();
    assert_eq!(map.serialize_key(Value::True), Err(Error::InvalidKey));
    assert_eq!(map.serialize_key(Value::F64(0)), Err(Error::InvalidKey));
    assert_eq!(map.serialize_key(Value::Null), Err(Error::InvalidKey));
    assert_eq!(map.serialize_key(Value::U8Array(vec![])), Err(Error::InvalidKey));
    assert_eq!(map.kind, None);
    assert_eq!(map.keys.len(), 0);
    assert_eq!(map.end(), Ok(Value::StringObject(vec![])));
    assert_eq!(s.into_inner(), vec![STRING_OBJECT, 0]);
}

#[test]
fn key_builders_enforce_the_place_of_a_key() {
    let mut s = Serializer::new(Vec::new());
    let mut map = s.serialize_map(None).unwrap();
    map.key = true;
    assert_eq!(map.serialize_bool(true), Err(Error::InvalidKey));
    assert_eq!(map.serialize_f32(0), Err(Error::InvalidKey));
    assert_eq!(map.serialize_f64(0), Err(Error::InvalidKey));
    assert_eq!(map.serialize_bytes(&[1]), Err(Error::InvalidKey));
    assert_eq!(map.serialize_unit(), Err(Error::InvalidKey));
    assert_eq!(map.serialize_none(), Err(Error::InvalidKey));
    assert_eq!(map.serialize_unit_variant(0), Err(Error::InvalidKey));
    assert_eq!(map.serialize_newtype_variant(0, Value::Null), Err(Error::InvalidKey));
    assert_eq!(map.serialize_seq(None).err(), Some(Error::InvalidKey));
    assert_eq!(map.serialize_tuple_variant(0, 0).err(), Some(Error::InvalidKey));
    assert_eq!(map.serialize_tuple(0).err(), Some(Error::InvalidKey));
    assert_eq!(map.serialize_map(None).err(), Some(Error::InvalidKey));
    assert_eq!(map.serialize_struct(0).err(), Some(Error::InvalidKey));
    assert_eq!(map.serialize_struct_variant(0, 0).err(), Some(Error::InvalidKey));
    assert_eq!(map.kind, None);
    assert_eq!(map.serialize_u8(4), Ok(Value::U8(4)));
    assert_eq!(map.kind, Some(ObjectKind::U8));
    assert_eq!(
        map.serialize_str("k"),
        Err(Error::MismatchedKeyType { expected: ObjectKind::String, found: ObjectKind::U8 })
    );
    assert_eq!(
        map.serialize_char('k'),
        Err(Error::MismatchedKeyType { expected: ObjectKind::String, found: ObjectKind::U8 })
    );
    assert_eq!(
        map.serialize_i64(1),
        Err(Error::MismatchedKeyType { expected: ObjectKind::I64, found: ObjectKind::U8 })
    );
    assert_eq!(
        map.ensure_kind(ObjectKind::I8),
        Err(Error::MismatchedKeyType { expected: ObjectKind::I8, found: ObjectKind::U8 })
    );
    assert_eq!(map.ensure_kind(ObjectKind::U8), Ok(()));
    map.key = false;
    assert_eq!(map.ensure_kind(ObjectKind::I8), Ok(()));
    assert_eq!(map.serialize_bool(true), Ok(Value::True));
    assert_eq!(map.serialize_str("v"), Ok(Value::String(vec![b'v'])));
    assert_eq!(map.serialize_i64(1), Ok(Value::I64(1)));
    assert_eq!(map.serialize_f64(2), Ok(Value::F64(2)));
    assert_eq!(map.serialize_unit_variant(5), Ok(Value::Tag(5, Box::new(Value::Null))));
    assert_eq!(map.kind, Some(ObjectKind::U8));
}

#[test]
fn a_struct_has_string_keys_from_the_start() {
    let mut s = Serializer::new(Vec::new());
    let value = {
        let mut map = s.serialize_struct(2).unwrap();
        assert_eq!(map.kind, Some(ObjectKind::String));
        map.serialize_field("id", Value::U8(7)).unwrap();
        map.serialize_field("ok", Value::True).unwrap();
        map.end().unwrap()
    };
    assert_eq!(
        value,
        Value::StringObject(vec![(b"id".to_vec(), Value::U8(7)), (b"ok".to_vec(), Value::True)])
    );
    let bytes = s.into_inner();
    assert_eq!(
        bytes,
        vec![STRING_OBJECT, 8, 8, b'i', b'd', 17, 7, 8, b'o', b'k', TRUE]
    );
    let mut d = Deserializer::new(&bytes);
    let mut map = d.deserialize_map().unwrap();
    assert_eq!(map.kind, ObjectKind::String);
    assert_eq!(map.next_key(), Ok(Some(Item::String("id".to_string()))));
    assert_eq!(map.next_value(), Ok(Item::U8(7)));
    assert_eq!(map.next_key_as(ObjectKind::U32), Ok(Some(Item::String("ok".to_string()))));
    assert_eq!(map.next_value(), Ok(Item::Bool(true)));
    assert_eq!(map.next_key_as(ObjectKind::String), Ok(None));
}

#[test]
fn a_struct_refuses_an_integer_key() {
    let mut s = Serializer::new(Vec::new());
    let mut map = MapSerializer::new(&mut s, Some(ObjectKind::String));
    assert_eq!(
        map.serialize_key(Value::U64(1)),
        Err(Error::MismatchedKeyType { expected: ObjectKind::U64, found: ObjectKind::String })
    );
}

#[test]
fn keys_are_read_as_the_kind_that_is_asked_for() {
    let bytes = [U8_OBJECT, 8, 5, I8, 1, 6, I8, 2];
    let mut d = Deserializer::new(&bytes);
    let mut map = d.deserialize_map().unwrap();
    assert_eq!(map.next_key_as(ObjectKind::U8), Ok(Some(Item::U8(5))));
    assert_eq!(map.next_value(), Ok(Item::I8(1)));
    assert_eq!(
        map.next_key_as(ObjectKind::I32),
        Err(Error::MismatchedKeyType { expected: ObjectKind::I32, found: ObjectKind::U8 })
    );
    assert_eq!(
        map.next_key_as(ObjectKind::String),
        Err(Error::MismatchedKeyType { expected: ObjectKind::String, found: ObjectKind::U8 })
    );
    assert_eq!(map.index, 1);
    assert_eq!(map.next_key(), Ok(Some(Item::U8(6))));
    assert_eq!(map.deserializer.deserialize_i8(), Ok(2));
    assert_eq!(map.next_key(), Ok(None));
}

#[test]
fn every_integer_kind_keys_its_object() {
    fn object(key: Value) -> (Value, Vec<u8>) {
        let mut s = Serializer::new(Vec::new());
        let mut map = s.serialize_map(None).unwrap();
        map.serialize_key(key).unwrap();
        map.serialize_value(Value::Null).unwrap();
        let v = map.end().unwrap();
        (v, s.into_inner())
    }
    assert_eq!(object(Value::I8(-1)), (Value::I8Object(vec![(-1, Value::Null)]), vec![11, 4, 0xFF, 0]));
    assert_eq!(object(Value::I16(-1)).0, Value::I16Object(vec![(-1, Value::Null)]));
    assert_eq!(object(Value::I64(-1)).0, Value::I64Object(vec![(-1, Value::Null)]));
    assert_eq!(object(Value::I128(-1)).0, Value::I128Object(vec![(-1, Value::Null)]));
    assert_eq!(object(Value::U8(1)).0, Value::U8Object(vec![(1, Value::Null)]));
    assert_eq!(object(Value::U16(1)), (Value::U16Object(vec![(1, Value::Null)]), vec![51, 4, 1, 0, 0]));
    assert_eq!(object(Value::U32(1)).0, Value::U32Object(vec![(1, Value::Null)]));
    assert_eq!(object(Value::U64(1)).0, Value::U64Object(vec![(1, Value::Null)]));
    assert_eq!(object(Value::U128(1)).0, Value::U128Object(vec![(1, Value::Null)]));
    let (_, bytes) = object(Value::U128(3));
    let mut d = Deserializer::new(&bytes);
    let mut map = d.deserialize_object(ObjectKind::U128).unwrap();
    assert_eq!(map.next_key(), Ok(Some(Item::U128(3))));
    assert_eq!(map.next_value(), Ok(Item::Unit));
    let mut d = Deserializer::new(&bytes);
    assert_eq!(
        d.deserialize_object(ObjectKind::String).err(),
        Some(Error::WrongType {
            expected: "string-keyed object",
            found: "unsigned 128-bit integer-keyed object"
        })
    );
}

#[test]
fn end_checks_the_keys_that_were_put_in_by_hand() {
    let mut s = Serializer::new(vec![1, 2]);
    let mut map = MapSerializer::new(&mut s, Some(ObjectKind::I8));
    map.keys.push(Value::I8(1));
    map.keys.push(Value::U8(2));
    map.keys.push(Value::True);
    map.values.push(Value::Null);
    assert_eq!(
        map.end(),
        Err(Error::MismatchedKeyType { expected: ObjectKind::U8, found: ObjectKind::I8 })
    );
    let mut map = MapSerializer::new(&mut s, Some(ObjectKind::I8));
    map.keys.push(Value::F32(1));
    assert_eq!(map.end(), Err(Error::InvalidKey));
    assert_eq!(s.into_inner(), vec![1, 2]);
}

#[test]
fn keys_without_values_are_left_out() {
    let mut s = Serializer::new(Vec::new());
    let mut map = s.serialize_map(None).unwrap();
    map.serialize_key(Value::U8(1)).unwrap();
    map.serialize_value(Value::True).unwrap();
    map.serialize_key(Value::U8(2)).unwrap();
    assert_eq!(map.end(), Ok(Value::U8Object(vec![(1, Value::True)])));
    assert_eq!(s.into_inner(), vec![U8_OBJECT, 4, 1, TRUE]);
}

#[test]
fn nested_maps_are_buffered_and_written_once() {
    let mut s = Serializer::new(Vec::new());
    {
        let mut outer = s.serialize_map(None).unwrap();
        outer.serialize_key(Value::String(b"m".to_vec())).unwrap();
        outer.key = false;
        let inner = {
            let mut inner = outer.serialize_map(None).unwrap();
            inner.serialize_key(Value::U8(1)).unwrap();
            inner.serialize_value(Value::I32(2)).unwrap();
            inner.end().unwrap()
        };
        outer.serialize_value(inner).unwrap();
        outer.serialize_key(Value::String(b"s".to_vec())).unwrap();
        outer.key = false;
        let inner = {
            let mut seq = outer.serialize_seq(None).unwrap();
            seq.serialize_element(Value::True).unwrap();
            let nested = {
                let mut map = seq.serialize_struct_variant(2, 1).unwrap();
                map.serialize_field("f", Value::Null).unwrap();
                map.end().unwrap()
            };
            seq.serialize_element(nested).unwrap();
            seq.end().unwrap()
        };
        outer.serialize_value(inner).unwrap();
        outer.end().unwrap();
    }
    assert_eq!(
        s.into_inner(),
        vec![
            STRING_OBJECT, 8, 4, b'm', U8_OBJECT, 4, 1, I32, 2, 0, 0, 0, 4, b's', 5, 8, TRUE, TAG,
            8, STRING_OBJECT, 4, 4, b'f', 0
        ]
    );
}

#[test]
fn values_of_an_object_can_be_collections() {
    let bytes = [STRING_OBJECT, 4, 4, b'a', 76, 4, 9, 0, 0, 0];
    let mut d = Deserializer::new(&bytes);
    let mut map = d.deserialize_map().unwrap();
    assert_eq!(map.next_key(), Ok(Some(Item::String("a".to_string()))));
    assert_eq!(map.next_value(), Ok(Item::Array(1, ArrayKind::I32)));
    let mut seq = serde_beve::de::seq::SeqDeserializer::new(&mut *map.deserializer, 1, ArrayKind::I32);
    assert_eq!(seq.next_i32(), Ok(Some(9)));
}

#[test]
fn a_header_that_is_no_object_is_of_the_wrong_type() {
    let bytes = [I32, 0, 0, 0, 0];
    let mut d = Deserializer::new(&bytes);
    assert_eq!(
        d.deserialize_map().err(),
        Some(Error::WrongType { expected: "object", found: "32-bit integer" })
    );
    let mut d = Deserializer::new(&bytes);
    let handle = MapDeserializer::new(&mut d, 0, ObjectKind::String);
    assert!(handle.is_done());
}
