use serde_beve::de::{Deserializer, Item};
use serde_beve::headers::{COMPLEX, DELIMITER, F128, F128_ARRAY, I32, MATRIX, RESERVED, STRING, TRUE, U16};
use serde_beve::ser::Serializer;
use serde_beve::{Error, IoError, SpecialType, Value};

#[test]
fn an_unknown_header_is_invalid_and_takes_one_byte() {
    let bytes = [0xFFu8, 1, 2];
    let mut d = Deserializer::new(&bytes);
    assert_eq!(d.deserialize_any(), Err(Error::InvalidHeader(0xFF)));
    assert_eq!(d.get_byte(), Ok(0xFF));
    assert_eq!(d.get_byte(), Ok(1));
    assert_eq!(d.get_byte(), Ok(2));
    assert_eq!(d.get_byte(), Err(Error::Io(IoError::UnexpectedEof)));
}

#[test]
fn every_byte_that_is_no_header_is_invalid() {
    let mut invalid = 0;
    for byte in 0..=255u8 {
        let bytes = [byte, 0, 0, 0, 0, 0, 0, 0, 0, 0, 0, 0, 0, 0, 0, 0, 0];
        let mut d = Deserializer::new(&bytes);
        match d.deserialize_any() {
            Err(Error::InvalidHeader(found)) => {
                assert_eq!(found, byte);
                assert_eq!(serde_beve::headers::header_name(byte), "unknown type");
                assert_eq!(d.get_byte(), Ok(byte));
                invalid += 1;
            }
            Err(Error::Reserved) => assert_eq!(byte, RESERVED),
            Err(Error::UnsupportedDataType(SpecialType::F128)) => {
                assert!(byte == F128 || byte == F128_ARRAY)
            }
            Err(e) => panic!("unexpected error {:?} for {}", e, byte),
            Ok(_) => {}
        }
    }
    assert_eq!(invalid, 256 - 51);
}

#[test]
fn matrix_and_complex_headers_are_not_read() {
    let bytes = [MATRIX];
    assert_eq!(Deserializer::new(&bytes).deserialize_any(), Err(Error::InvalidHeader(MATRIX)));
    let bytes = [COMPLEX];
    assert_eq!(Deserializer::new(&bytes).deserialize_any(), Err(Error::InvalidHeader(COMPLEX)));
}

#[test]
fn the_delimiter_reads_as_unit() {
    let bytes = [DELIMITER, TRUE];
    let mut d = Deserializer::new(&bytes);
    assert_eq!(d.deserialize_any(), Ok(Item::Unit));
    assert_eq!(d.deserialize_any(), Ok(Item::Bool(true)));
}

#[test]
fn malformed_utf8_is_its_own_error() {
    let bytes = [STRING, 2 << 2, 0xC3, 0x28];
    assert_eq!(Deserializer::new(&bytes).deserialize_string(), Err(Error::FromUtf8));
    assert_eq!(Deserializer::new(&bytes).deserialize_str(), Err(Error::FromUtf8));
    assert_eq!(Deserializer::new(&bytes).deserialize_char(), Err(Error::FromUtf8));
    assert_eq!(Deserializer::new(&bytes).deserialize_any(), Err(Error::FromUtf8));
    assert_eq!(Deserializer::new(&bytes[1..]).get_string_value(), Err(Error::FromUtf8));
    let lone = [STRING, 4, 0x80, TRUE];
    let mut d = Deserializer::new(&lone);
    assert_eq!(d.deserialize_string(), Err(Error::FromUtf8));
    assert_eq!(d.deserialize_bool(), Ok(true));
    let truncated = [STRING, 4, 0xE2];
    assert_eq!(Deserializer::new(&truncated).deserialize_string(), Err(Error::FromUtf8));
}

#[test]
fn a_string_that_ends_early_is_an_io_error() {
    let bytes = [STRING, 3 << 2, b'a', b'b'];
    let mut d = Deserializer::new(&bytes);
    assert_eq!(d.deserialize_string(), Err(Error::Io(IoError::UnexpectedEof)));
    assert_eq!(d.get_byte(), Ok(b'a'));
}

#[test]
fn the_128_bit_float_is_unsupported() {
    let bytes = [F128, 0];
    let mut d = Deserializer::new(&bytes);
    assert_eq!(d.deserialize_any(), Err(Error::UnsupportedDataType(SpecialType::F128)));
    assert_eq!(d.get_byte(), Ok(F128));
    let bytes = [F128_ARRAY, 0];
    assert_eq!(
        Deserializer::new(&bytes).deserialize_any(),
        Err(Error::UnsupportedDataType(SpecialType::F128))
    );
}

#[test]
fn the_reserved_header_is_refused() {
    let bytes = [RESERVED];
    assert_eq!(Deserializer::new(&bytes).deserialize_any(), Err(Error::Reserved));
}

#[test]
fn a_typed_read_never_widens_or_narrows() {
    let bytes = [U16, 1, 0];
    assert_eq!(
        Deserializer::new(&bytes).deserialize_u8(),
        Err(Error::WrongType { expected: "8-bit unsigned integer", found: "16-bit unsigned integer" })
    );
    assert_eq!(
        Deserializer::new(&bytes).deserialize_u32(),
        Err(Error::WrongType { expected: "32-bit unsigned integer", found: "16-bit unsigned integer" })
    );
    assert_eq!(
        Deserializer::new(&bytes).deserialize_i16(),
        Err(Error::WrongType { expected: "16-bit integer", found: "16-bit unsigned integer" })
    );
    assert_eq!(
        Deserializer::new(&bytes).deserialize_bool(),
        Err(Error::WrongType { expected: "boolean", found: "16-bit unsigned integer" })
    );
    assert_eq!(
        Deserializer::new(&bytes).deserialize_unit(),
        Err(Error::WrongType { expected: "null", found: "16-bit unsigned integer" })
    );
    assert_eq!(
        Deserializer::new(&bytes).deserialize_string(),
        Err(Error::WrongType { expected: "string", found: "16-bit unsigned integer" })
    );
    assert_eq!(
        Deserializer::new(&bytes).deserialize_f32(),
        Err(Error::WrongType { expected: "32-bit float", found: "16-bit unsigned integer" })
    );
    assert_eq!(
        Deserializer::new(&bytes).deserialize_bf16(),
        Err(Error::WrongType { expected: "brain float", found: "16-bit unsigned integer" })
    );
    assert_eq!(
        Deserializer::new(&bytes).deserialize_bytes(),
        Err(Error::WrongType {
            expected: "array of 8-bit unsigned integers",
            found: "16-bit unsigned integer"
        })
    );
    let mut d = Deserializer::new(&bytes);
    assert!(d.deserialize_u64().is_err());
    assert_eq!(d.get_byte(), Ok(1));
    assert_eq!(Deserializer::new(&bytes).deserialize_u16(), Ok(1));
}

#[test]
fn the_end_of_the_input_is_an_io_error() {
    let empty: [u8; 0] = [];
    assert_eq!(Deserializer::new(&empty).deserialize_any(), Err(Error::Io(IoError::UnexpectedEof)));
    assert_eq!(Deserializer::new(&empty).deserialize_i32(), Err(Error::Io(IoError::UnexpectedEof)));
    assert_eq!(Deserializer::new(&empty).deserialize_bool(), Err(Error::Io(IoError::UnexpectedEof)));
    assert_eq!(Deserializer::new(&empty).deserialize_seq().err(), Some(Error::Io(IoError::UnexpectedEof)));
    assert_eq!(Deserializer::new(&empty).deserialize_map().err(), Some(Error::Io(IoError::UnexpectedEof)));
    assert_eq!(Deserializer::new(&empty).deserialize_enum().err(), Some(Error::Io(IoError::UnexpectedEof)));
    let short = [I32, 1, 2];
    let mut d = Deserializer::new(&short);
    assert_eq!(d.deserialize_i32(), Err(Error::Io(IoError::UnexpectedEof)));
    assert_eq!(d.get_bytes(3), Err(Error::Io(IoError::UnexpectedEof)));
    assert_eq!(d.get_bytes(2), Ok(vec![1, 2]));
}

#[test]
fn a_length_of_two_to_the_62_fails_and_writes_nothing() {
    if usize::BITS >= 64 {
        let too_long = (1u64 << 62) as usize;
        let mut s = Serializer::new(vec![7]);
        assert_eq!(s.serialize_value(&Value::Tag(too_long, Box::new(Value::Null))), Err(Error::TooLong));
        assert_eq!(s.serialize_value(&Value::BoolArray(too_long, vec![])), Err(Error::TooLong));
        let nested = Value::GenericArray(vec![
            Value::True,
            Value::U8Object(vec![(1, Value::Tag(too_long, Box::new(Value::Null)))]),
        ]);
        assert_eq!(s.serialize_value(&nested), Err(Error::TooLong));
        assert_eq!(
            s.serialize_newtype_variant(1, Value::BoolArray(too_long, vec![])),
            Err(Error::TooLong)
        );
        {
            let mut seq = s.serialize_seq(None).unwrap();
            seq.serialize_element(Value::True).unwrap();
            seq.serialize_element(Value::BoolArray(too_long, vec![])).unwrap();
            assert_eq!(seq.end(), Err(Error::TooLong));
        }
        {
            let mut map = s.serialize_map(None).unwrap();
            map.serialize_key(Value::U8(1)).unwrap();
            map.serialize_value(Value::BoolArray(too_long, vec![])).unwrap();
            assert_eq!(map.end(), Err(Error::TooLong));
        }
        assert_eq!(s.into_inner(), vec![7]);
    }
}

#[test]
fn a_custom_error_wraps_its_message() {
    assert_eq!(Error::custom("oops".to_string()), Error::Custom("oops".to_string()));
    assert_ne!(Error::Utf8, Error::FromUtf8);
}
