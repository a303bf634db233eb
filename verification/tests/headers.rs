use serde_beve::headers::{
    header_name, BOOL_ARRAY, COMPLEX, DELIMITER, F128, F16, GENERIC_ARRAY, I32, I32_ARRAY,
    I32_OBJECT, MATRIX, NULL, RESERVED, STRING, STRING_ARRAY, STRING_OBJECT, TAG, TRUE, U8,
    U8_OBJECT,
};
use serde_beve::{ArrayKind, ObjectKind, SpecialType};

const ARRAY_KINDS: [ArrayKind; 17] = [
    ArrayKind::Generic,
    ArrayKind::String,
    ArrayKind::Boolean,
    ArrayKind::I8,
    ArrayKind::I16,
    ArrayKind::I32,
    ArrayKind::I64,
    ArrayKind::I128,
    ArrayKind::U8,
    ArrayKind::U16,
    ArrayKind::U32,
    ArrayKind::U64,
    ArrayKind::U128,
    ArrayKind::BF16,
    ArrayKind::F16,
    ArrayKind::F32,
    ArrayKind::F64,
];

const OBJECT_KINDS: [ObjectKind; 11] = [
    ObjectKind::U8,
    ObjectKind::U16,
    ObjectKind::U32,
    ObjectKind::U64,
    ObjectKind::U128,
    ObjectKind::I8,
    ObjectKind::I16,
    ObjectKind::I32,
    ObjectKind::I64,
    ObjectKind::I128,
    ObjectKind::String,
];

#[test]
fn header_bytes_have_their_values() {
    assert_eq!(NULL, 0);
    assert_eq!(TRUE, 0b0001_1000);
    assert_eq!(F16, 0b0010_0001);
    assert_eq!(I32, 0b0100_1001);
    assert_eq!(STRING, 2);
    assert_eq!(STRING_OBJECT, 3);
    assert_eq!(I32_OBJECT, 0b0100_1011);
    assert_eq!(I32_ARRAY, 0b0100_1100);
    assert_eq!(BOOL_ARRAY, 0b0001_1100);
    assert_eq!(STRING_ARRAY, 0b0011_1100);
    assert_eq!(GENERIC_ARRAY, 5);
    assert_eq!(DELIMITER, 6);
    assert_eq!(TAG, 14);
    assert_eq!(MATRIX, 22);
    assert_eq!(COMPLEX, 30);
    assert_eq!(RESERVED, 7);
}

#[test]
fn header_names_are_the_diagnostic_texts() {
    assert_eq!(header_name(NULL), "null");
    assert_eq!(header_name(TRUE), "boolean");
    assert_eq!(header_name(8), "boolean");
    assert_eq!(header_name(I32), "32-bit integer");
    assert_eq!(header_name(U8), "8-bit unsigned integer");
    assert_eq!(header_name(F128), "128-bit float");
    assert_eq!(header_name(STRING), "string");
    assert_eq!(header_name(STRING_OBJECT), "string-keyed object");
    assert_eq!(header_name(U8_OBJECT), "unsigned 8-bit integer-keyed object");
    assert_eq!(header_name(I32_ARRAY), "array of 32-bit integers");
    assert_eq!(header_name(BOOL_ARRAY), "array of booleans");
    assert_eq!(header_name(GENERIC_ARRAY), "generic array");
}

#[test]
fn header_name_never_fails_on_unknown_bytes() {
    assert_eq!(header_name(0xFF), "unknown type");
    assert_eq!(header_name(TAG), "unknown type");
    assert_eq!(header_name(RESERVED), "unknown type");
    for byte in 0..=255u8 {
        assert!(!header_name(byte).is_empty());
    }
}

#[test]
fn array_kind_header_is_the_element_header() {
    assert_eq!(ArrayKind::Generic.header(), GENERIC_ARRAY);
    assert_eq!(ArrayKind::String.header(), STRING);
    assert_eq!(ArrayKind::Boolean.header(), TRUE);
    assert_eq!(ArrayKind::I32.header(), I32);
    assert_eq!(ArrayKind::F16.header(), F16);
    assert_eq!(ArrayKind::I32.name(), "32-bit integer");
    assert_eq!(ArrayKind::Boolean.name(), "boolean");
}

#[test]
fn array_headers_and_kinds_are_inverse() {
    for kind in ARRAY_KINDS {
        assert_eq!(ArrayKind::from_header(kind.array_header()), Some(kind));
    }
    let mut found = 0;
    for byte in 0..=255u8 {
        if let Some(kind) = ArrayKind::from_header(byte) {
            assert_eq!(kind.array_header(), byte);
            found += 1;
        }
    }
    assert_eq!(found, 17);
    assert_eq!(ArrayKind::from_header(I32), None);
    assert_eq!(ArrayKind::from_header(132), None);
}

#[test]
fn object_headers_and_kinds_are_inverse() {
    for kind in OBJECT_KINDS {
        assert_eq!(ObjectKind::from_header(kind.header()), Some(kind));
    }
    let mut found = 0;
    for byte in 0..=255u8 {
        if let Some(kind) = ObjectKind::from_header(byte) {
            assert_eq!(kind.header(), byte);
            assert_eq!(ArrayKind::from_header(byte), None);
            found += 1;
        }
    }
    assert_eq!(found, 11);
    assert_eq!(ObjectKind::I32.header(), I32_OBJECT);
    assert_eq!(ObjectKind::String.header(), STRING_OBJECT);
    assert_eq!(ObjectKind::I32.key_header(), I32);
    assert_eq!(ObjectKind::U8.name(), "8-bit unsigned integer");
    assert_eq!(ObjectKind::String.name(), "string");
    assert_eq!(ObjectKind::I64.layout(), ArrayKind::I64);
    assert_eq!(ObjectKind::String.layout(), ArrayKind::String);
}

#[test]
fn special_types_have_their_names() {
    assert_eq!(SpecialType::HalfFloat.name(), "16-bit float");
    assert_eq!(SpecialType::BrainFloat.name(), "brain float");
    assert_eq!(SpecialType::F128.name(), "128-bit float");
}
