//! The value tree that the encoder buffers and writes.
use vstd::prelude::*;
use crate::bytes::{le_bytes, radix};
use crate::headers::{
    BF16, BF16_ARRAY, BOOL_ARRAY, COMPLEX, DELIMITER, F128, F128_ARRAY, F16, F16_ARRAY, F32,
    F32_ARRAY, F64, F64_ARRAY, FALSE, GENERIC_ARRAY, I128, I128_ARRAY, I128_OBJECT, I16,
    I16_ARRAY, I16_OBJECT, I32, I32_ARRAY, I32_OBJECT, I64, I64_ARRAY, I64_OBJECT, I8, I8_ARRAY,
    I8_OBJECT, MATRIX, NULL, RESERVED, STRING, STRING_ARRAY, STRING_OBJECT, TAG, TRUE, U128,
    U128_ARRAY, U128_OBJECT, U16, U16_ARRAY, U16_OBJECT, U32, U32_ARRAY, U32_OBJECT, U64,
    U64_ARRAY, U64_OBJECT, U8, U8_ARRAY, U8_OBJECT, header_name, spec_header_name, ArrayKind,
    ObjectKind,
};
use crate::scalar::Scalar;
use crate::size::{size_bytes, SIZE_LIMIT};

verus! {

/// An intermediate representation of values used during serialization.
///
/// This is a nearly 1:1 mapping to the `HEADER | VALUE` layout of the wire.
/// Objects are vectors of key-value pairs, strings are their UTF-8 bytes and
/// floats are their bit patterns. A boolean array holds the number of its
/// elements and their bits, eight to a byte, lowest bit first.
#[derive(Debug, PartialEq, Eq)]
pub enum Value {
    Null,
    True,
    False,
    BF16(u16),
    F16(u16),
    F32(u32),
    F64(u64),
    F128,
    I8(i8),
    I16(i16),
    I32(i32),
    I64(i64),
    I128(i128),
    U8(u8),
    U16(u16),
    U32(u32),
    U64(u64),
    U128(u128),
    String(Vec<u8>),
    StringObject(Vec<(Vec<u8>, Value)>),
    I8Object(Vec<(i8, Value)>),
    I16Object(Vec<(i16, Value)>),
    I32Object(Vec<(i32, Value)>),
    I64Object(Vec<(i64, Value)>),
    I128Object(Vec<(i128, Value)>),
    U8Object(Vec<(u8, Value)>),
    U16Object(Vec<(u16, Value)>),
    U32Object(Vec<(u32, Value)>),
    U64Object(Vec<(u64, Value)>),
    U128Object(Vec<(u128, Value)>),
    BF16Array(Vec<u16>),
    F16Array(Vec<u16>),
    F32Array(Vec<u32>),
    F64Array(Vec<u64>),
    F128Array,
    I8Array(Vec<i8>),
    I16Array(Vec<i16>),
    I32Array(Vec<i32>),
    I64Array(Vec<i64>),
    I128Array(Vec<i128>),
    U8Array(Vec<u8>),
    U16Array(Vec<u16>),
    U32Array(Vec<u32>),
    U64Array(Vec<u64>),
    U128Array(Vec<u128>),
    BoolArray(usize, Vec<u8>),
    StringArray(Vec<Vec<u8>>),
    GenericArray(Vec<Value>),
    Delimiter,
    Tag(usize, Box<Value>),
    Matrix,
    Complex,
    Reserved,
}

/// The payload of one number: its little-endian bytes.
pub open spec fn num_wire<T: Scalar>(x: T) -> Seq<u8> {
    le_bytes(x.bits(), T::width())
}

/// The payloads of the numbers of `s`, one after the other.
pub open spec fn nums_wire<T: Scalar>(s: Seq<T>) -> Seq<u8>
    decreases s.len(),
{
    if s.len() == 0 {
        Seq::empty()
    } else {
        nums_wire(s.drop_last()) + num_wire(s.last())
    }
}

/// The payload of one string: its length, then its bytes.
pub open spec fn chunk_wire(bytes: Seq<u8>) -> Seq<u8> {
    size_bytes(bytes.len()) + bytes
}

/// The payloads of the strings of `s`, one after the other.
pub open spec fn chunks_wire(s: Seq<Vec<u8>>) -> Seq<u8>
    decreases s.len(),
{
    if s.len() == 0 {
        Seq::empty()
    } else {
        chunks_wire(s.drop_last()) + chunk_wire(s.last()@)
    }
}

/// The encodings of the first `n` values of `vs`, one after the other,
/// each with its own header.
pub open spec fn list_wire(vs: Seq<Value>, n: nat) -> Seq<u8>
    decreases vs, n,
{
    if n == 0 || n > vs.len() {
        Seq::empty()
    } else {
        list_wire(vs, (n - 1) as nat) + vs[n - 1].wire()
    }
}

/// The first `n` entries of an object with integer keys: each key as its
/// bare payload, each value with its own header.
pub open spec fn entries_wire<T: Scalar>(es: Seq<(T, Value)>, n: nat) -> Seq<u8>
    decreases es, n,
{
    if n == 0 || n > es.len() {
        Seq::empty()
    } else {
        entries_wire(es, (n - 1) as nat) + num_wire(es[n - 1].0) + es[n - 1].1.wire()
    }
}

/// The first `n` entries of an object with string keys: each key as length
/// and bytes, each value with its own header.
pub open spec fn str_entries_wire(es: Seq<(Vec<u8>, Value)>, n: nat) -> Seq<u8>
    decreases es, n,
{
    if n == 0 || n > es.len() {
        Seq::empty()
    } else {
        str_entries_wire(es, (n - 1) as nat) + chunk_wire(es[n - 1].0@) + es[n - 1].1.wire()
    }
}

/// Every value of the entries can be written.
pub open spec fn entries_ok<T>(es: Seq<(T, Value)>) -> bool
    decreases es,
{
    forall|i: int| 0 <= i < es.len() ==> (#[trigger] es[i]).1.serializable()
}

/// The number of entries and every value of them fit the format.
pub open spec fn entries_fit<T>(es: Seq<(T, Value)>) -> bool
    decreases es,
{
    &&& es.len() < SIZE_LIMIT
    &&& forall|i: int| 0 <= i < es.len() ==> (#[trigger] es[i]).1.fits()
}

impl Value {
    /// The header that the value starts with on the wire.
    pub open spec fn spec_header(&self) -> u8 {
        match self {
            Self::Null => NULL,
            Self::True => TRUE,
            Self::False => FALSE,
            Self::BF16(..) => BF16,
            Self::F16(..) => F16,
            Self::F32(..) => F32,
            Self::F64(..) => F64,
            Self::F128 => F128,
            Self::I8(..) => I8,
            Self::I16(..) => I16,
            Self::I32(..) => I32,
            Self::I64(..) => I64,
            Self::I128(..) => I128,
            Self::U8(..) => U8,
            Self::U16(..) => U16,
            Self::U32(..) => U32,
            Self::U64(..) => U64,
            Self::U128(..) => U128,
            Self::String(..) => STRING,
            Self::StringObject(..) => STRING_OBJECT,
            Self::I8Object(..) => I8_OBJECT,
            Self::I16Object(..) => I16_OBJECT,
            Self::I32Object(..) => I32_OBJECT,
            Self::I64Object(..) => I64_OBJECT,
            Self::I128Object(..) => I128_OBJECT,
            Self::U8Object(..) => U8_OBJECT,
            Self::U16Object(..) => U16_OBJECT,
            Self::U32Object(..) => U32_OBJECT,
            Self::U64Object(..) => U64_OBJECT,
            Self::U128Object(..) => U128_OBJECT,
            Self::BF16Array(..) => BF16_ARRAY,
            Self::F16Array(..) => F16_ARRAY,
            Self::F32Array(..) => F32_ARRAY,
            Self::F64Array(..) => F64_ARRAY,
            Self::F128Array => F128_ARRAY,
            Self::I8Array(..) => I8_ARRAY,
            Self::I16Array(..) => I16_ARRAY,
            Self::I32Array(..) => I32_ARRAY,
            Self::I64Array(..) => I64_ARRAY,
            Self::I128Array(..) => I128_ARRAY,
            Self::U8Array(..) => U8_ARRAY,
            Self::U16Array(..) => U16_ARRAY,
            Self::U32Array(..) => U32_ARRAY,
            Self::U64Array(..) => U64_ARRAY,
            Self::U128Array(..) => U128_ARRAY,
            Self::BoolArray(..) => BOOL_ARRAY,
            Self::StringArray(..) => STRING_ARRAY,
            Self::GenericArray(..) => GENERIC_ARRAY,
            Self::Delimiter => DELIMITER,
            Self::Tag(..) => TAG,
            Self::Matrix => MATRIX,
            Self::Complex => COMPLEX,
            Self::Reserved => RESERVED,
        }
    }

    #[verifier::when_used_as_spec(spec_header)]
    pub fn header(&self) -> (header: u8)
        ensures
            header == self.spec_header(),
    {
        match self {
            Self::Null => NULL,
            Self::True => TRUE,
            Self::False => FALSE,
            Self::BF16(..) => BF16,
            Self::F16(..) => F16,
            Self::F32(..) => F32,
            Self::F64(..) => F64,
            Self::F128 => F128,
            Self::I8(..) => I8,
            Self::I16(..) => I16,
            Self::I32(..) => I32,
            Self::I64(..) => I64,
            Self::I128(..) => I128,
            Self::U8(..) => U8,
            Self::U16(..) => U16,
            Self::U32(..) => U32,
            Self::U64(..) => U64,
            Self::U128(..) => U128,
            Self::String(..) => STRING,
            Self::StringObject(..) => STRING_OBJECT,
            Self::I8Object(..) => I8_OBJECT,
            Self::I16Object(..) => I16_OBJECT,
            Self::I32Object(..) => I32_OBJECT,
            Self::I64Object(..) => I64_OBJECT,
            Self::I128Object(..) => I128_OBJECT,
            Self::U8Object(..) => U8_OBJECT,
            Self::U16Object(..) => U16_OBJECT,
            Self::U32Object(..) => U32_OBJECT,
            Self::U64Object(..) => U64_OBJECT,
            Self::U128Object(..) => U128_OBJECT,
            Self::BF16Array(..) => BF16_ARRAY,
            Self::F16Array(..) => F16_ARRAY,
            Self::F32Array(..) => F32_ARRAY,
            Self::F64Array(..) => F64_ARRAY,
            Self::F128Array => F128_ARRAY,
            Self::I8Array(..) => I8_ARRAY,
            Self::I16Array(..) => I16_ARRAY,
            Self::I32Array(..) => I32_ARRAY,
            Self::I64Array(..) => I64_ARRAY,
            Self::I128Array(..) => I128_ARRAY,
            Self::U8Array(..) => U8_ARRAY,
            Self::U16Array(..) => U16_ARRAY,
            Self::U32Array(..) => U32_ARRAY,
            Self::U64Array(..) => U64_ARRAY,
            Self::U128Array(..) => U128_ARRAY,
            Self::BoolArray(..) => BOOL_ARRAY,
            Self::StringArray(..) => STRING_ARRAY,
            Self::GenericArray(..) => GENERIC_ARRAY,
            Self::Delimiter => DELIMITER,
            Self::Tag(..) => TAG,
            Self::Matrix => MATRIX,
            Self::Complex => COMPLEX,
            Self::Reserved => RESERVED,
        }
    }

    /// The value as error messages print it: the name of its header.
    pub fn name(&self) -> (name: &'static str)
        ensures
            name == spec_header_name(self.spec_header()),
    {
        header_name(self.header())
    }

    /// The value, and every value inside it, is one that the encoder
    /// writes. The 16-bit and 128-bit floats and the markers for
    /// delimiters, matrices, complex numbers and the reserved header are
    /// never written.
    pub open spec fn serializable(self) -> bool
        decreases self,
    {
        match self {
            Self::BF16(..) | Self::F16(..) | Self::F128 => false,
            Self::BF16Array(..) | Self::F16Array(..) | Self::F128Array => false,
            Self::Delimiter | Self::Matrix | Self::Complex | Self::Reserved => false,
            Self::StringObject(es) => entries_ok(es@),
            Self::I8Object(es) => entries_ok(es@),
            Self::I16Object(es) => entries_ok(es@),
            Self::I32Object(es) => entries_ok(es@),
            Self::I64Object(es) => entries_ok(es@),
            Self::I128Object(es) => entries_ok(es@),
            Self::U8Object(es) => entries_ok(es@),
            Self::U16Object(es) => entries_ok(es@),
            Self::U32Object(es) => entries_ok(es@),
            Self::U64Object(es) => entries_ok(es@),
            Self::U128Object(es) => entries_ok(es@),
            Self::GenericArray(vs) => forall|i: int|
                0 <= i < vs@.len() ==> (#[trigger] vs@[i]).serializable(),
            Self::Tag(_, inner) => inner.serializable(),
            _ => true,
        }
    }

    /// Every length in the value is below 2^62, so that it can be written
    /// as a compressed integer.
    pub open spec fn fits(self) -> bool
        decreases self,
    {
        match self {
            Self::String(b) => b@.len() < SIZE_LIMIT,
            Self::StringObject(es) => {
                &&& entries_fit(es@)
                &&& forall|i: int| 0 <= i < es@.len() ==> (#[trigger] es@[i]).0@.len() < SIZE_LIMIT
            },
            Self::I8Object(es) => entries_fit(es@),
            Self::I16Object(es) => entries_fit(es@),
            Self::I32Object(es) => entries_fit(es@),
            Self::I64Object(es) => entries_fit(es@),
            Self::I128Object(es) => entries_fit(es@),
            Self::U8Object(es) => entries_fit(es@),
            Self::U16Object(es) => entries_fit(es@),
            Self::U32Object(es) => entries_fit(es@),
            Self::U64Object(es) => entries_fit(es@),
            Self::U128Object(es) => entries_fit(es@),
            Self::BF16Array(a) => a@.len() < SIZE_LIMIT,
            Self::F16Array(a) => a@.len() < SIZE_LIMIT,
            Self::F32Array(a) => a@.len() < SIZE_LIMIT,
            Self::F64Array(a) => a@.len() < SIZE_LIMIT,
            Self::I8Array(a) => a@.len() < SIZE_LIMIT,
            Self::I16Array(a) => a@.len() < SIZE_LIMIT,
            Self::I32Array(a) => a@.len() < SIZE_LIMIT,
            Self::I64Array(a) => a@.len() < SIZE_LIMIT,
            Self::I128Array(a) => a@.len() < SIZE_LIMIT,
            Self::U8Array(a) => a@.len() < SIZE_LIMIT,
            Self::U16Array(a) => a@.len() < SIZE_LIMIT,
            Self::U32Array(a) => a@.len() < SIZE_LIMIT,
            Self::U64Array(a) => a@.len() < SIZE_LIMIT,
            Self::U128Array(a) => a@.len() < SIZE_LIMIT,
            Self::BoolArray(count, _) => count < SIZE_LIMIT,
            Self::StringArray(a) => {
                &&& a@.len() < SIZE_LIMIT
                &&& forall|i: int| 0 <= i < a@.len() ==> (#[trigger] a@[i])@.len() < SIZE_LIMIT
            },
            Self::GenericArray(vs) => {
                &&& vs@.len() < SIZE_LIMIT
                &&& forall|i: int| 0 <= i < vs@.len() ==> (#[trigger] vs@[i]).fits()
            },
            Self::Tag(index, inner) => index < SIZE_LIMIT && inner.fits(),
            _ => true,
        }
    }

    /// What follows the header on the wire.
    pub open spec fn payload(self) -> Seq<u8>
        decreases self, 0nat,
    {
        match self {
            Self::I8(x) => num_wire(x),
            Self::I16(x) => num_wire(x),
            Self::I32(x) => num_wire(x),
            Self::I64(x) => num_wire(x),
            Self::I128(x) => num_wire(x),
            Self::U8(x) => num_wire(x),
            Self::U16(x) => num_wire(x),
            Self::U32(x) => num_wire(x),
            Self::U64(x) => num_wire(x),
            Self::U128(x) => num_wire(x),
            Self::F32(x) => num_wire(x),
            Self::F64(x) => num_wire(x),
            Self::String(b) => chunk_wire(b@),
            Self::StringObject(es) => size_bytes(es@.len()) + str_entries_wire(es@, es@.len()),
            Self::I8Object(es) => size_bytes(es@.len()) + entries_wire(es@, es@.len()),
            Self::I16Object(es) => size_bytes(es@.len()) + entries_wire(es@, es@.len()),
            Self::I32Object(es) => size_bytes(es@.len()) + entries_wire(es@, es@.len()),
            Self::I64Object(es) => size_bytes(es@.len()) + entries_wire(es@, es@.len()),
            Self::I128Object(es) => size_bytes(es@.len()) + entries_wire(es@, es@.len()),
            Self::U8Object(es) => size_bytes(es@.len()) + entries_wire(es@, es@.len()),
            Self::U16Object(es) => size_bytes(es@.len()) + entries_wire(es@, es@.len()),
            Self::U32Object(es) => size_bytes(es@.len()) + entries_wire(es@, es@.len()),
            Self::U64Object(es) => size_bytes(es@.len()) + entries_wire(es@, es@.len()),
            Self::U128Object(es) => size_bytes(es@.len()) + entries_wire(es@, es@.len()),
            Self::F32Array(a) => size_bytes(a@.len()) + nums_wire(a@),
            Self::F64Array(a) => size_bytes(a@.len()) + nums_wire(a@),
            Self::I8Array(a) => size_bytes(a@.len()) + nums_wire(a@),
            Self::I16Array(a) => size_bytes(a@.len()) + nums_wire(a@),
            Self::I32Array(a) => size_bytes(a@.len()) + nums_wire(a@),
            Self::I64Array(a) => size_bytes(a@.len()) + nums_wire(a@),
            Self::I128Array(a) => size_bytes(a@.len()) + nums_wire(a@),
            Self::U8Array(a) => size_bytes(a@.len()) + nums_wire(a@),
            Self::U16Array(a) => size_bytes(a@.len()) + nums_wire(a@),
            Self::U32Array(a) => size_bytes(a@.len()) + nums_wire(a@),
            Self::U64Array(a) => size_bytes(a@.len()) + nums_wire(a@),
            Self::U128Array(a) => size_bytes(a@.len()) + nums_wire(a@),
            Self::BoolArray(count, bits) => size_bytes(count as nat) + bits@,
            Self::StringArray(a) => size_bytes(a@.len()) + chunks_wire(a@),
            Self::GenericArray(vs) => size_bytes(vs@.len()) + list_wire(vs@, vs@.len()),
            Self::Tag(index, inner) => size_bytes(index as nat) + inner.wire(),
            _ => Seq::empty(),
        }
    }

    /// The bytes of the value on the wire: its header, then its payload.
    /// It is the encoding of every value that is `serializable` and
    /// `fits`.
    pub open spec fn wire(self) -> Seq<u8>
        decreases self, 1nat,
    {
        seq![self.spec_header()] + self.payload()
    }

    /// For a number: the kind of array that holds such numbers, and the
    /// unsigned number that its payload spells. The 16-bit floats are never
    /// written and count as no number here.
    pub open spec fn spec_scalar_bits(&self) -> Option<(ArrayKind, nat)> {
        match self {
            Self::I8(x) => Some((ArrayKind::I8, x.bits())),
            Self::I16(x) => Some((ArrayKind::I16, x.bits())),
            Self::I32(x) => Some((ArrayKind::I32, x.bits())),
            Self::I64(x) => Some((ArrayKind::I64, x.bits())),
            Self::I128(x) => Some((ArrayKind::I128, x.bits())),
            Self::U8(x) => Some((ArrayKind::U8, x.bits())),
            Self::U16(x) => Some((ArrayKind::U16, x.bits())),
            Self::U32(x) => Some((ArrayKind::U32, x.bits())),
            Self::U64(x) => Some((ArrayKind::U64, x.bits())),
            Self::U128(x) => Some((ArrayKind::U128, x.bits())),
            Self::F32(x) => Some((ArrayKind::F32, x.bits())),
            Self::F64(x) => Some((ArrayKind::F64, x.bits())),
            _ => None,
        }
    }

    /// The kind and the payload number of a number; see `spec_scalar_bits`.
    pub fn scalar_bits(&self) -> (r: Option<(ArrayKind, u128)>)
        ensures
            match r {
                Some((kind, bits)) => self.spec_scalar_bits() == Some((kind, bits as nat)) && bits
                    < radix(kind_width(kind)),
                None => self.spec_scalar_bits() is None,
            },
    {
        match self {
            Self::I8(x) => Some((ArrayKind::I8, x.to_bits())),
            Self::I16(x) => Some((ArrayKind::I16, x.to_bits())),
            Self::I32(x) => Some((ArrayKind::I32, x.to_bits())),
            Self::I64(x) => Some((ArrayKind::I64, x.to_bits())),
            Self::I128(x) => Some((ArrayKind::I128, x.to_bits())),
            Self::U8(x) => Some((ArrayKind::U8, x.to_bits())),
            Self::U16(x) => Some((ArrayKind::U16, x.to_bits())),
            Self::U32(x) => Some((ArrayKind::U32, x.to_bits())),
            Self::U64(x) => Some((ArrayKind::U64, x.to_bits())),
            Self::U128(x) => Some((ArrayKind::U128, x.to_bits())),
            Self::F32(x) => Some((ArrayKind::F32, x.to_bits())),
            Self::F64(x) => Some((ArrayKind::F64, x.to_bits())),
            _ => None,
        }
    }

    /// The kind of homogeneous array that the value can be an element of:
    /// that of its type for a number, a boolean or a string, and `Generic`
    /// for everything else.
    pub open spec fn spec_element_kind(&self) -> ArrayKind {
        match self {
            Self::True | Self::False => ArrayKind::Boolean,
            Self::String(..) => ArrayKind::String,
            _ => match self.spec_scalar_bits() {
                Some((kind, _)) => kind,
                None => ArrayKind::Generic,
            },
        }
    }

    #[verifier::when_used_as_spec(spec_element_kind)]
    pub fn element_kind(&self) -> (kind: ArrayKind)
        ensures
            kind == self.spec_element_kind(),
    {
        match self {
            Self::True | Self::False => ArrayKind::Boolean,
            Self::String(..) => ArrayKind::String,
            _ => match self.scalar_bits() {
                Some((kind, _)) => kind,
                None => ArrayKind::Generic,
            },
        }
    }

    /// The kind of key that the value can be: that of its type for an
    /// integer or a string, none for everything else.
    pub open spec fn spec_key_kind(&self) -> Option<ObjectKind> {
        match self {
            Self::I8(..) => Some(ObjectKind::I8),
            Self::I16(..) => Some(ObjectKind::I16),
            Self::I32(..) => Some(ObjectKind::I32),
            Self::I64(..) => Some(ObjectKind::I64),
            Self::I128(..) => Some(ObjectKind::I128),
            Self::U8(..) => Some(ObjectKind::U8),
            Self::U16(..) => Some(ObjectKind::U16),
            Self::U32(..) => Some(ObjectKind::U32),
            Self::U64(..) => Some(ObjectKind::U64),
            Self::U128(..) => Some(ObjectKind::U128),
            Self::String(..) => Some(ObjectKind::String),
            _ => None,
        }
    }

    #[verifier::when_used_as_spec(spec_key_kind)]
    pub fn key_kind(&self) -> (kind: Option<ObjectKind>)
        ensures
            kind == self.spec_key_kind(),
    {
        match self {
            Self::I8(..) => Some(ObjectKind::I8),
            Self::I16(..) => Some(ObjectKind::I16),
            Self::I32(..) => Some(ObjectKind::I32),
            Self::I64(..) => Some(ObjectKind::I64),
            Self::I128(..) => Some(ObjectKind::I128),
            Self::U8(..) => Some(ObjectKind::U8),
            Self::U16(..) => Some(ObjectKind::U16),
            Self::U32(..) => Some(ObjectKind::U32),
            Self::U64(..) => Some(ObjectKind::U64),
            Self::U128(..) => Some(ObjectKind::U128),
            Self::String(..) => Some(ObjectKind::String),
            _ => None,
        }
    }

    /// Tells whether the encoder writes this value: whether it is
    /// `serializable`.
    pub fn is_serializable(&self) -> (ok: bool)
        ensures
            ok == self.serializable(),
        decreases self,
    {
        match self {
            Self::BF16(..) | Self::F16(..) | Self::F128 => false,
            Self::BF16Array(..) | Self::F16Array(..) | Self::F128Array => false,
            Self::Delimiter | Self::Matrix | Self::Complex | Self::Reserved => false,
            Self::StringObject(es) => entries_serializable(es),
            Self::I8Object(es) => entries_serializable(es),
            Self::I16Object(es) => entries_serializable(es),
            Self::I32Object(es) => entries_serializable(es),
            Self::I64Object(es) => entries_serializable(es),
            Self::I128Object(es) => entries_serializable(es),
            Self::U8Object(es) => entries_serializable(es),
            Self::U16Object(es) => entries_serializable(es),
            Self::U32Object(es) => entries_serializable(es),
            Self::U64Object(es) => entries_serializable(es),
            Self::U128Object(es) => entries_serializable(es),
            Self::GenericArray(vs) => list_serializable(vs),
            Self::Tag(_, inner) => inner.is_serializable(),
            _ => true,
        }
    }
}

/// Tells whether every value of the list is one that the encoder writes.
pub fn list_serializable(vs: &Vec<Value>) -> (ok: bool)
    ensures
        ok == (forall|i: int| 0 <= i < vs@.len() ==> (#[trigger] vs@[i]).serializable()),
    decreases vs,
{
    let mut i: usize = 0;
    while i < vs.len()
        invariant
            i <= vs@.len(),
            forall|j: int| 0 <= j < i ==> (#[trigger] vs@[j]).serializable(),
        decreases vs@.len() - i,
    {
        if !vs[i].is_serializable() {
            return false;
        }
        i = i + 1;
    }
    true
}

/// Tells whether every value of the entries is one that the encoder
/// writes.
pub fn entries_serializable<T>(es: &Vec<(T, Value)>) -> (ok: bool)
    ensures
        ok == entries_ok(es@),
    decreases es,
{
    let mut i: usize = 0;
    while i < es.len()
        invariant
            i <= es@.len(),
            forall|j: int| 0 <= j < i ==> (#[trigger] es@[j]).1.serializable(),
        decreases es@.len() - i,
    {
        if !es[i].1.is_serializable() {
            return false;
        }
        i = i + 1;
    }
    true
}

/// The number of bytes of one element of a homogeneous array of numbers.
pub open spec fn kind_width(kind: ArrayKind) -> nat {
    match kind {
        ArrayKind::I8 | ArrayKind::U8 => 1,
        ArrayKind::I16 | ArrayKind::U16 | ArrayKind::BF16 | ArrayKind::F16 => 2,
        ArrayKind::I32 | ArrayKind::U32 | ArrayKind::F32 => 4,
        ArrayKind::I64 | ArrayKind::U64 | ArrayKind::F64 => 8,
        ArrayKind::I128 | ArrayKind::U128 => 16,
        _ => 0,
    }
}

} // verus!
