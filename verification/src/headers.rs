//! The one-byte type tags of the wire format and the kinds of homogeneous
//! arrays and of object keys.
use vstd::prelude::*;

verus! {

pub const NULL: u8 = 0;
pub const FALSE: u8 = 0b00001000;
pub const TRUE: u8 = 0b00011000;

pub const BF16: u8 = 0b00000001;
pub const F16: u8 = 0b00100001;
pub const F32: u8 = 0b01000001;
pub const F64: u8 = 0b01100001;
pub const F128: u8 = 0b10000001;

pub const I8: u8 = 0b00001001;
pub const I16: u8 = 0b00101001;
pub const I32: u8 = 0b01001001;
pub const I64: u8 = 0b01101001;
pub const I128: u8 = 0b10001001;

pub const U8: u8 = 0b00010001;
pub const U16: u8 = 0b00110001;
pub const U32: u8 = 0b01010001;
pub const U64: u8 = 0b01110001;
pub const U128: u8 = 0b10010001;

pub const STRING: u8 = 0b00000010;

pub const STRING_OBJECT: u8 = 0b00000011;

pub const I8_OBJECT: u8 = 0b00001011;
pub const I16_OBJECT: u8 = 0b00101011;
pub const I32_OBJECT: u8 = 0b01001011;
pub const I64_OBJECT: u8 = 0b01101011;
pub const I128_OBJECT: u8 = 0b10001011;

pub const U8_OBJECT: u8 = 0b00010011;
pub const U16_OBJECT: u8 = 0b00110011;
pub const U32_OBJECT: u8 = 0b01010011;
pub const U64_OBJECT: u8 = 0b01110011;
pub const U128_OBJECT: u8 = 0b10010011;

pub const BF16_ARRAY: u8 = 0b00000100;
pub const F16_ARRAY: u8 = 0b00100100;
pub const F32_ARRAY: u8 = 0b01000100;
pub const F64_ARRAY: u8 = 0b01100100;
pub const F128_ARRAY: u8 = 0b10000100;

pub const I8_ARRAY: u8 = 0b00001100;
pub const I16_ARRAY: u8 = 0b00101100;
pub const I32_ARRAY: u8 = 0b01001100;
pub const I64_ARRAY: u8 = 0b01101100;
pub const I128_ARRAY: u8 = 0b10001100;

pub const U8_ARRAY: u8 = 0b00010100;
pub const U16_ARRAY: u8 = 0b00110100;
pub const U32_ARRAY: u8 = 0b01010100;
pub const U64_ARRAY: u8 = 0b01110100;
pub const U128_ARRAY: u8 = 0b10010100;

pub const BOOL_ARRAY: u8 = 0b00011100;
pub const STRING_ARRAY: u8 = 0b00111100;
pub const GENERIC_ARRAY: u8 = 0b00000101;

pub const DELIMITER: u8 = 0b00000110;
pub const TAG: u8 = 0b00001110;
pub const MATRIX: u8 = 0b00010110;
pub const COMPLEX: u8 = 0b00011110;
pub const RESERVED: u8 = 0b00000111;

/// The text that error messages use for a header. A byte that is no header
/// of a value, array or object reads as "unknown type".
pub open spec fn spec_header_name(header: u8) -> &'static str {
    if header == NULL {
        "null"
    } else if header == FALSE || header == TRUE {
        "boolean"
    } else if header == BF16 {
        "brain float"
    } else if header == F16 {
        "16-bit float"
    } else if header == F32 {
        "32-bit float"
    } else if header == F64 {
        "64-bit float"
    } else if header == F128 {
        "128-bit float"
    } else if header == I8 {
        "8-bit integer"
    } else if header == I16 {
        "16-bit integer"
    } else if header == I32 {
        "32-bit integer"
    } else if header == I64 {
        "64-bit integer"
    } else if header == I128 {
        "128-bit integer"
    } else if header == U8 {
        "8-bit unsigned integer"
    } else if header == U16 {
        "16-bit unsigned integer"
    } else if header == U32 {
        "32-bit unsigned integer"
    } else if header == U64 {
        "64-bit unsigned integer"
    } else if header == U128 {
        "128-bit unsigned integer"
    } else if header == STRING {
        "string"
    } else if header == STRING_OBJECT {
        "string-keyed object"
    } else if header == I8_OBJECT {
        "8-bit integer-keyed object"
    } else if header == I16_OBJECT {
        "16-bit integer-keyed object"
    } else if header == I32_OBJECT {
        "32-bit integer-keyed object"
    } else if header == I64_OBJECT {
        "64-bit integer-keyed object"
    } else if header == I128_OBJECT {
        "128-bit integer-keyed object"
    } else if header == U8_OBJECT {
        "unsigned 8-bit integer-keyed object"
    } else if header == U16_OBJECT {
        "unsigned 16-bit integer-keyed object"
    } else if header == U32_OBJECT {
        "unsigned 32-bit integer-keyed object"
    } else if header == U64_OBJECT {
        "unsigned 64-bit integer-keyed object"
    } else if header == U128_OBJECT {
        "unsigned 128-bit integer-keyed object"
    } else if header == BF16_ARRAY {
        "array of brain floats"
    } else if header == F16_ARRAY {
        "array of 16-bit floats"
    } else if header == F32_ARRAY {
        "array of 32-bit floats"
    } else if header == F64_ARRAY {
        "array of 64-bit floats"
    } else if header == F128_ARRAY {
        "array of 128-bit floats"
    } else if header == I8_ARRAY {
        "array of 8-bit integers"
    } else if header == I16_ARRAY {
        "array of 16-bit integers"
    } else if header == I32_ARRAY {
        "array of 32-bit integers"
    } else if header == I64_ARRAY {
        "array of 64-bit integers"
    } else if header == I128_ARRAY {
        "array of 128-bit integers"
    } else if header == U8_ARRAY {
        "array of 8-bit unsigned integers"
    } else if header == U16_ARRAY {
        "array of 16-bit unsigned integers"
    } else if header == U32_ARRAY {
        "array of 32-bit unsigned integers"
    } else if header == U64_ARRAY {
        "array of 64-bit unsigned integers"
    } else if header == U128_ARRAY {
        "array of 128-bit unsigned integers"
    } else if header == BOOL_ARRAY {
        "array of booleans"
    } else if header == STRING_ARRAY {
        "array of strings"
    } else if header == GENERIC_ARRAY {
        "generic array"
    } else {
        "unknown type"
    }
}

/// Names a header for an error message. It never fails: whatever it does
/// not know is an "unknown type".
#[verifier::when_used_as_spec(spec_header_name)]
pub fn header_name(header: u8) -> (name: &'static str)
    ensures
        name == spec_header_name(header),
{
    match header {
        NULL => "null",
        FALSE | TRUE => "boolean",
        BF16 => "brain float",
        F16 => "16-bit float",
        F32 => "32-bit float",
        F64 => "64-bit float",
        F128 => "128-bit float",
        I8 => "8-bit integer",
        I16 => "16-bit integer",
        I32 => "32-bit integer",
        I64 => "64-bit integer",
        I128 => "128-bit integer",
        U8 => "8-bit unsigned integer",
        U16 => "16-bit unsigned integer",
        U32 => "32-bit unsigned integer",
        U64 => "64-bit unsigned integer",
        U128 => "128-bit unsigned integer",
        STRING => "string",
        STRING_OBJECT => "string-keyed object",
        I8_OBJECT => "8-bit integer-keyed object",
        I16_OBJECT => "16-bit integer-keyed object",
        I32_OBJECT => "32-bit integer-keyed object",
        I64_OBJECT => "64-bit integer-keyed object",
        I128_OBJECT => "128-bit integer-keyed object",
        U8_OBJECT => "unsigned 8-bit integer-keyed object",
        U16_OBJECT => "unsigned 16-bit integer-keyed object",
        U32_OBJECT => "unsigned 32-bit integer-keyed object",
        U64_OBJECT => "unsigned 64-bit integer-keyed object",
        U128_OBJECT => "unsigned 128-bit integer-keyed object",
        BF16_ARRAY => "array of brain floats",
        F16_ARRAY => "array of 16-bit floats",
        F32_ARRAY => "array of 32-bit floats",
        F64_ARRAY => "array of 64-bit floats",
        F128_ARRAY => "array of 128-bit floats",
        I8_ARRAY => "array of 8-bit integers",
        I16_ARRAY => "array of 16-bit integers",
        I32_ARRAY => "array of 32-bit integers",
        I64_ARRAY => "array of 64-bit integers",
        I128_ARRAY => "array of 128-bit integers",
        U8_ARRAY => "array of 8-bit unsigned integers",
        U16_ARRAY => "array of 16-bit unsigned integers",
        U32_ARRAY => "array of 32-bit unsigned integers",
        U64_ARRAY => "array of 64-bit unsigned integers",
        U128_ARRAY => "array of 128-bit unsigned integers",
        BOOL_ARRAY => "array of booleans",
        STRING_ARRAY => "array of strings",
        GENERIC_ARRAY => "generic array",
        _ => "unknown type",
    }
}

/// What the elements of an array are. `Generic` is the array whose
/// elements each keep a header of their own.
#[derive(Debug, Clone, Copy, PartialEq, Eq, Structural)]
pub enum ArrayKind {
    Generic,
    String,
    Boolean,
    I8,
    I16,
    I32,
    I64,
    I128,
    U8,
    U16,
    U32,
    U64,
    U128,
    BF16,
    F16,
    F32,
    F64,
}

impl ArrayKind {
    /// The header that one element of this kind has when it stands alone.
    /// For `Generic` it is the header of the generic array itself.
    pub open spec fn spec_header(self) -> u8 {
        match self {
            Self::Generic => GENERIC_ARRAY,
            Self::String => STRING,
            Self::Boolean => TRUE,
            Self::I8 => I8,
            Self::I16 => I16,
            Self::I32 => I32,
            Self::I64 => I64,
            Self::I128 => I128,
            Self::U8 => U8,
            Self::U16 => U16,
            Self::U32 => U32,
            Self::U64 => U64,
            Self::U128 => U128,
            Self::BF16 => BF16,
            Self::F16 => F16,
            Self::F32 => F32,
            Self::F64 => F64,
        }
    }

    #[verifier::when_used_as_spec(spec_header)]
    pub fn header(self) -> (header: u8)
        ensures
            header == self.spec_header(),
    {
        match self {
            Self::Generic => GENERIC_ARRAY,
            Self::String => STRING,
            Self::Boolean => TRUE,
            Self::I8 => I8,
            Self::I16 => I16,
            Self::I32 => I32,
            Self::I64 => I64,
            Self::I128 => I128,
            Self::U8 => U8,
            Self::U16 => U16,
            Self::U32 => U32,
            Self::U64 => U64,
            Self::U128 => U128,
            Self::BF16 => BF16,
            Self::F16 => F16,
            Self::F32 => F32,
            Self::F64 => F64,
        }
    }

    /// The header that an array of this kind starts with.
    pub open spec fn spec_array_header(self) -> u8 {
        match self {
            Self::Generic => GENERIC_ARRAY,
            Self::String => STRING_ARRAY,
            Self::Boolean => BOOL_ARRAY,
            Self::I8 => I8_ARRAY,
            Self::I16 => I16_ARRAY,
            Self::I32 => I32_ARRAY,
            Self::I64 => I64_ARRAY,
            Self::I128 => I128_ARRAY,
            Self::U8 => U8_ARRAY,
            Self::U16 => U16_ARRAY,
            Self::U32 => U32_ARRAY,
            Self::U64 => U64_ARRAY,
            Self::U128 => U128_ARRAY,
            Self::BF16 => BF16_ARRAY,
            Self::F16 => F16_ARRAY,
            Self::F32 => F32_ARRAY,
            Self::F64 => F64_ARRAY,
        }
    }

    #[verifier::when_used_as_spec(spec_array_header)]
    pub fn array_header(self) -> (header: u8)
        ensures
            header == self.spec_array_header(),
    {
        match self {
            Self::Generic => GENERIC_ARRAY,
            Self::String => STRING_ARRAY,
            Self::Boolean => BOOL_ARRAY,
            Self::I8 => I8_ARRAY,
            Self::I16 => I16_ARRAY,
            Self::I32 => I32_ARRAY,
            Self::I64 => I64_ARRAY,
            Self::I128 => I128_ARRAY,
            Self::U8 => U8_ARRAY,
            Self::U16 => U16_ARRAY,
            Self::U32 => U32_ARRAY,
            Self::U64 => U64_ARRAY,
            Self::U128 => U128_ARRAY,
            Self::BF16 => BF16_ARRAY,
            Self::F16 => F16_ARRAY,
            Self::F32 => F32_ARRAY,
            Self::F64 => F64_ARRAY,
        }
    }

    /// The kind of array that a header announces, if it announces one.
    pub open spec fn spec_from_header(header: u8) -> Option<ArrayKind> {
        if header == GENERIC_ARRAY {
            Some(Self::Generic)
        } else if header == STRING_ARRAY {
            Some(Self::String)
        } else if header == BOOL_ARRAY {
            Some(Self::Boolean)
        } else if header == I8_ARRAY {
            Some(Self::I8)
        } else if header == I16_ARRAY {
            Some(Self::I16)
        } else if header == I32_ARRAY {
            Some(Self::I32)
        } else if header == I64_ARRAY {
            Some(Self::I64)
        } else if header == I128_ARRAY {
            Some(Self::I128)
        } else if header == U8_ARRAY {
            Some(Self::U8)
        } else if header == U16_ARRAY {
            Some(Self::U16)
        } else if header == U32_ARRAY {
            Some(Self::U32)
        } else if header == U64_ARRAY {
            Some(Self::U64)
        } else if header == U128_ARRAY {
            Some(Self::U128)
        } else if header == BF16_ARRAY {
            Some(Self::BF16)
        } else if header == F16_ARRAY {
            Some(Self::F16)
        } else if header == F32_ARRAY {
            Some(Self::F32)
        } else if header == F64_ARRAY {
            Some(Self::F64)
        } else {
            None
        }
    }

    #[verifier::when_used_as_spec(spec_from_header)]
    pub fn from_header(header: u8) -> (kind: Option<ArrayKind>)
        ensures
            kind == Self::spec_from_header(header),
            kind matches Some(k) ==> k.spec_array_header() == header,
    {
        match header {
            GENERIC_ARRAY => Some(Self::Generic),
            STRING_ARRAY => Some(Self::String),
            BOOL_ARRAY => Some(Self::Boolean),
            I8_ARRAY => Some(Self::I8),
            I16_ARRAY => Some(Self::I16),
            I32_ARRAY => Some(Self::I32),
            I64_ARRAY => Some(Self::I64),
            I128_ARRAY => Some(Self::I128),
            U8_ARRAY => Some(Self::U8),
            U16_ARRAY => Some(Self::U16),
            U32_ARRAY => Some(Self::U32),
            U64_ARRAY => Some(Self::U64),
            U128_ARRAY => Some(Self::U128),
            BF16_ARRAY => Some(Self::BF16),
            F16_ARRAY => Some(Self::F16),
            F32_ARRAY => Some(Self::F32),
            F64_ARRAY => Some(Self::F64),
            _ => None,
        }
    }

    /// The kind as error messages print it: the name of its element header.
    pub fn name(self) -> (name: &'static str)
        ensures
            name == spec_header_name(self.spec_header()),
    {
        header_name(self.header())
    }
}

/// What the keys of an object are.
#[derive(Debug, Clone, Copy, PartialEq, Eq, Structural)]
pub enum ObjectKind {
    U8,
    U16,
    U32,
    U64,
    U128,
    I8,
    I16,
    I32,
    I64,
    I128,
    String,
}

impl ObjectKind {
    /// The header that an object with keys of this kind starts with.
    pub open spec fn spec_header(self) -> u8 {
        match self {
            Self::U8 => U8_OBJECT,
            Self::U16 => U16_OBJECT,
            Self::U32 => U32_OBJECT,
            Self::U64 => U64_OBJECT,
            Self::U128 => U128_OBJECT,
            Self::I8 => I8_OBJECT,
            Self::I16 => I16_OBJECT,
            Self::I32 => I32_OBJECT,
            Self::I64 => I64_OBJECT,
            Self::I128 => I128_OBJECT,
            Self::String => STRING_OBJECT,
        }
    }

    #[verifier::when_used_as_spec(spec_header)]
    pub fn header(self) -> (header: u8)
        ensures
            header == self.spec_header(),
    {
        match self {
            Self::U8 => U8_OBJECT,
            Self::U16 => U16_OBJECT,
            Self::U32 => U32_OBJECT,
            Self::U64 => U64_OBJECT,
            Self::U128 => U128_OBJECT,
            Self::I8 => I8_OBJECT,
            Self::I16 => I16_OBJECT,
            Self::I32 => I32_OBJECT,
            Self::I64 => I64_OBJECT,
            Self::I128 => I128_OBJECT,
            Self::String => STRING_OBJECT,
        }
    }

    /// The header that one key of this kind would have as a value of its
    /// own. On the wire the keys of an object carry no header.
    pub open spec fn spec_key_header(self) -> u8 {
        match self {
            Self::U8 => U8,
            Self::U16 => U16,
            Self::U32 => U32,
            Self::U64 => U64,
            Self::U128 => U128,
            Self::I8 => I8,
            Self::I16 => I16,
            Self::I32 => I32,
            Self::I64 => I64,
            Self::I128 => I128,
            Self::String => STRING,
        }
    }

    #[verifier::when_used_as_spec(spec_key_header)]
    pub fn key_header(self) -> (header: u8)
        ensures
            header == self.spec_key_header(),
    {
        match self {
            Self::U8 => U8,
            Self::U16 => U16,
            Self::U32 => U32,
            Self::U64 => U64,
            Self::U128 => U128,
            Self::I8 => I8,
            Self::I16 => I16,
            Self::I32 => I32,
            Self::I64 => I64,
            Self::I128 => I128,
            Self::String => STRING,
        }
    }

    /// The kind of array whose elements are written as keys of this kind
    /// are: bare, without a header.
    pub open spec fn spec_layout(self) -> ArrayKind {
        match self {
            Self::U8 => ArrayKind::U8,
            Self::U16 => ArrayKind::U16,
            Self::U32 => ArrayKind::U32,
            Self::U64 => ArrayKind::U64,
            Self::U128 => ArrayKind::U128,
            Self::I8 => ArrayKind::I8,
            Self::I16 => ArrayKind::I16,
            Self::I32 => ArrayKind::I32,
            Self::I64 => ArrayKind::I64,
            Self::I128 => ArrayKind::I128,
            Self::String => ArrayKind::String,
        }
    }

    #[verifier::when_used_as_spec(spec_layout)]
    pub fn layout(self) -> (kind: ArrayKind)
        ensures
            kind == self.spec_layout(),
    {
        match self {
            Self::U8 => ArrayKind::U8,
            Self::U16 => ArrayKind::U16,
            Self::U32 => ArrayKind::U32,
            Self::U64 => ArrayKind::U64,
            Self::U128 => ArrayKind::U128,
            Self::I8 => ArrayKind::I8,
            Self::I16 => ArrayKind::I16,
            Self::I32 => ArrayKind::I32,
            Self::I64 => ArrayKind::I64,
            Self::I128 => ArrayKind::I128,
            Self::String => ArrayKind::String,
        }
    }

    /// The kind of keys that an object header announces, if the byte is an
    /// object header.
    pub open spec fn spec_from_header(header: u8) -> Option<ObjectKind> {
        if header == STRING_OBJECT {
            Some(Self::String)
        } else if header == I8_OBJECT {
            Some(Self::I8)
        } else if header == I16_OBJECT {
            Some(Self::I16)
        } else if header == I32_OBJECT {
            Some(Self::I32)
        } else if header == I64_OBJECT {
            Some(Self::I64)
        } else if header == I128_OBJECT {
            Some(Self::I128)
        } else if header == U8_OBJECT {
            Some(Self::U8)
        } else if header == U16_OBJECT {
            Some(Self::U16)
        } else if header == U32_OBJECT {
            Some(Self::U32)
        } else if header == U64_OBJECT {
            Some(Self::U64)
        } else if header == U128_OBJECT {
            Some(Self::U128)
        } else {
            None
        }
    }

    #[verifier::when_used_as_spec(spec_from_header)]
    pub fn from_header(header: u8) -> (kind: Option<ObjectKind>)
        ensures
            kind == Self::spec_from_header(header),
            kind matches Some(k) ==> k.spec_header() == header,
    {
        match header {
            STRING_OBJECT => Some(Self::String),
            I8_OBJECT => Some(Self::I8),
            I16_OBJECT => Some(Self::I16),
            I32_OBJECT => Some(Self::I32),
            I64_OBJECT => Some(Self::I64),
            I128_OBJECT => Some(Self::I128),
            U8_OBJECT => Some(Self::U8),
            U16_OBJECT => Some(Self::U16),
            U32_OBJECT => Some(Self::U32),
            U64_OBJECT => Some(Self::U64),
            U128_OBJECT => Some(Self::U128),
            _ => None,
        }
    }

    /// The kind as error messages print it: the name of its key header.
    pub fn name(self) -> (name: &'static str)
        ensures
            name == spec_header_name(self.spec_key_header()),
    {
        header_name(self.key_header())
    }
}

/// Every array kind is found again from the header of its array, and a
/// byte that announces an array is the header of the kind it announces.
pub proof fn lemma_array_header_inverse(kind: ArrayKind, header: u8)
    ensures
        ArrayKind::spec_from_header(kind.spec_array_header()) == Some(kind),
        ArrayKind::spec_from_header(header) matches Some(k) ==> k.spec_array_header() == header,
{
}

/// Every key kind is found again from the header of its object, and a byte
/// that announces an object is the header of the kind it announces.
pub proof fn lemma_object_header_inverse(kind: ObjectKind, header: u8)
    ensures
        ObjectKind::spec_from_header(kind.spec_header()) == Some(kind),
        ObjectKind::spec_from_header(header) matches Some(k) ==> k.spec_header() == header,
{
}

/// No byte announces both an array and an object.
pub proof fn lemma_array_and_object_headers_differ(header: u8)
    ensures
        !(ArrayKind::spec_from_header(header) is Some
            && ObjectKind::spec_from_header(header) is Some),
{
}

} // verus!
