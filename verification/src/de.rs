//! Deserialization logic.
pub mod enums;
pub mod map;
pub mod seq;

use vstd::prelude::*;
use vstd::slice::{slice_subrange, slice_to_vec};
use vstd::string::{StrSliceExecFns, StringSliceAdditionalSpecFns};
use vstd::utf8::{decode_utf8, encode_utf8, valid_utf8};
use crate::bytes::{
    le_value, lemma_le_value_bound, lemma_radix_monotonic, lemma_radix_values, radix, read_le,
};
use crate::de::enums::EnumDeserializer;
use crate::de::map::MapDeserializer;
use crate::de::seq::SeqDeserializer;
use crate::error::{eof, wrong_type, Error, IoError, SpecialType};
use crate::headers::{
    header_name, spec_header_name, ArrayKind, ObjectKind, BF16, DELIMITER, F128, F128_ARRAY, F16,
    F32, F64, FALSE, I128, I16, I32, I64, I8, NULL, RESERVED, STRING, TAG, TRUE, U128, U16, U32,
    U64, U8, U8_ARRAY,
};
use crate::narrow::{bf16_to_f32_bits, widen_bf16};
use crate::scalar::Scalar;
use crate::size::{announced_width, parse_size};
use crate::value::kind_width;

verus! {

/// Where a decoder stands: the whole input, how many bytes of it were
/// taken from the source, and the byte that was looked at ahead, if any.
pub struct Cursor {
    pub input: Seq<u8>,
    pub pos: nat,
    pub peek: Option<u8>,
}

impl Cursor {
    /// The bytes that are still to be delivered: the byte looked at ahead,
    /// then what the source still holds.
    pub open spec fn rest(self) -> Seq<u8> {
        match self.peek {
            Some(byte) => seq![byte] + self.input.skip(self.pos as int),
            None => self.input.skip(self.pos as int),
        }
    }

    /// The cursor after `n` of the remaining bytes were delivered.
    pub open spec fn skip(self, n: nat) -> Cursor {
        if n == 0 {
            self
        } else {
            match self.peek {
                Some(_) => Cursor { input: self.input, pos: (self.pos + n - 1) as nat, peek: None },
                None => Cursor { input: self.input, pos: self.pos + n, peek: None },
            }
        }
    }

    /// The cursor after a look ahead: the next byte of the source, if there
    /// is one and none is held yet, is taken and held. The remaining bytes
    /// are the same.
    pub open spec fn peeked(self) -> Cursor {
        if self.peek is None && self.pos < self.input.len() {
            Cursor { input: self.input, pos: self.pos + 1, peek: Some(self.input[self.pos as int]) }
        } else {
            self
        }
    }

    /// The position is inside the input.
    pub open spec fn wf(self) -> bool {
        self.pos <= self.input.len()
    }

    /// The cursor is `pre` after `n` of its remaining bytes were
    /// delivered: the input is the same, nothing is held, and what remains
    /// is what remained without its first `n` bytes.
    pub open spec fn follows(self, pre: Cursor, n: nat) -> bool {
        &&& n <= pre.rest().len()
        &&& self == pre.skip(n)
        &&& self.rest() == pre.rest().skip(n as int)
        &&& self.wf()
    }
}

/// What taking one byte from the stream `s` gives, and how many bytes it
/// takes.
pub open spec fn parse_byte(s: Seq<u8>) -> (Result<u8, Error>, nat) {
    if s.len() == 0 {
        (Err(eof()), 0)
    } else {
        (Ok(s[0]), 1)
    }
}

/// What taking `n` bytes from the stream `s` gives. A stream that is too
/// short gives an I/O error and loses nothing.
pub open spec fn parse_bytes(s: Seq<u8>, n: nat) -> (Result<Seq<u8>, Error>, nat) {
    if s.len() < n {
        (Err(eof()), 0)
    } else {
        (Ok(s.take(n as int)), n)
    }
}

/// What reading the bare payload of a number from the stream `s` gives.
pub open spec fn parse_num<T: Scalar>(s: Seq<u8>) -> (Result<T, Error>, nat) {
    if s.len() < T::width() {
        (Err(eof()), 0)
    } else {
        (Ok(T::of_bits(le_value(s.take(T::width() as int)))), T::width())
    }
}

/// What reading a length and then that many bytes from the stream `s`
/// gives.
pub open spec fn parse_chunk(s: Seq<u8>) -> (Result<Seq<u8>, Error>, nat) {
    match parse_size(s) {
        (Ok(n), used) => match parse_bytes(s.skip(used as int), n as nat) {
            (Ok(bytes), more) => (Ok(bytes), used + more),
            (Err(e), more) => (Err(e), used + more),
        },
        (Err(e), used) => (Err(e), used),
    }
}

/// What reading a string payload from the stream `s` gives: its length,
/// its bytes, and the characters that the bytes encode. Bytes that are not
/// UTF-8 are an error of their own; they are taken all the same.
pub open spec fn parse_text(s: Seq<u8>) -> (Result<Seq<char>, Error>, nat) {
    match parse_chunk(s) {
        (Ok(bytes), used) => if valid_utf8(bytes) {
            (Ok(decode_utf8(bytes)), used)
        } else {
            (Err(Error::FromUtf8), used)
        },
        (Err(e), used) => (Err(e), used),
    }
}

/// What a read that first takes the header `header` gives: the read that
/// follows it on the remaining stream, an error for another header, and an
/// I/O error at the end of the input.
pub open spec fn after_header<T>(s: Seq<u8>, header: u8, then: (Result<T, Error>, nat)) -> (
    Result<T, Error>,
    nat,
) {
    if s.len() == 0 {
        (Err(eof()), 0)
    } else if s[0] != header {
        (Err(wrong_type(header, s[0])), 1)
    } else {
        (then.0, 1 + then.1)
    }
}

/// What reading a number behind the header `header` gives.
pub open spec fn parse_headed<T: Scalar>(s: Seq<u8>, header: u8) -> (Result<T, Error>, nat) {
    after_header(s, header, parse_num::<T>(s.skip(1)))
}

/// What reading a boolean gives.
pub open spec fn parse_bool(s: Seq<u8>) -> (Result<bool, Error>, nat) {
    if s.len() == 0 {
        (Err(eof()), 0)
    } else if s[0] == TRUE {
        (Ok(true), 1)
    } else if s[0] == FALSE {
        (Ok(false), 1)
    } else {
        (Err(wrong_type(TRUE, s[0])), 1)
    }
}

/// What reading a string behind its header gives.
pub open spec fn parse_string(s: Seq<u8>) -> (Result<Seq<char>, Error>, nat) {
    after_header(s, STRING, parse_text(s.skip(1)))
}

/// What reading a character gives: the character of a string of one
/// byte. A longer or an empty string is of the wrong type.
pub open spec fn parse_char(s: Seq<u8>) -> (Result<char, Error>, nat) {
    match parse_string(s) {
        (Ok(chars), used) => if encode_utf8(chars).len() != 1 {
            (
                Err(Error::WrongType { expected: "character", found: spec_header_name(STRING) }),
                used,
            )
        } else {
            (Ok(chars[0]), used)
        },
        (Err(e), used) => (Err(e), used),
    }
}

/// What reading bytes behind the header of a byte array gives.
pub open spec fn parse_byte_array(s: Seq<u8>) -> (Result<Seq<u8>, Error>, nat) {
    after_header(s, U8_ARRAY, parse_chunk(s.skip(1)))
}

/// Whether a value is present in the stream `s`: a null is taken and
/// means that none is; any other byte is left where it is.
pub open spec fn parse_option(s: Seq<u8>) -> (Result<bool, Error>, nat) {
    if s.len() == 0 {
        (Err(eof()), 0)
    } else if s[0] == NULL {
        (Ok(false), 1)
    } else {
        (Ok(true), 0)
    }
}

/// What the decoder found next, as far as it can be said without the
/// driver: a scalar with its value, or the start of a collection with its
/// declared length and kind. Floats are their bit patterns; a brain float
/// comes as the 32-bit float it widens to, a 16-bit float as its own 16
/// bits.
#[derive(Debug, PartialEq, Eq)]
pub enum Item {
    Unit,
    Bool(bool),
    I8(i8),
    I16(i16),
    I32(i32),
    I64(i64),
    I128(i128),
    U8(u8),
    U16(u16),
    U32(u32),
    U64(u64),
    U128(u128),
    F16(u16),
    F32(u32),
    F64(u64),
    String(String),
    /// An array of the given length and kind; its elements follow.
    Array(usize, ArrayKind),
    /// An object of the given length and key kind; its entries follow.
    Object(usize, ObjectKind),
    /// A variant; its index follows.
    Enum,
}

/// An `Item` as contracts speak of it: a number by its kind and the
/// unsigned number that its payload spells, a string by its characters.
pub enum Shape {
    Unit,
    Bool(bool),
    Number(ArrayKind, nat),
    Text(Seq<char>),
    Array(usize, ArrayKind),
    Object(usize, ObjectKind),
    Enum,
}

impl Item {
    pub open spec fn shape(&self) -> Shape {
        match self {
            Item::Unit => Shape::Unit,
            Item::Bool(v) => Shape::Bool(*v),
            Item::I8(v) => Shape::Number(ArrayKind::I8, v.bits()),
            Item::I16(v) => Shape::Number(ArrayKind::I16, v.bits()),
            Item::I32(v) => Shape::Number(ArrayKind::I32, v.bits()),
            Item::I64(v) => Shape::Number(ArrayKind::I64, v.bits()),
            Item::I128(v) => Shape::Number(ArrayKind::I128, v.bits()),
            Item::U8(v) => Shape::Number(ArrayKind::U8, v.bits()),
            Item::U16(v) => Shape::Number(ArrayKind::U16, v.bits()),
            Item::U32(v) => Shape::Number(ArrayKind::U32, v.bits()),
            Item::U64(v) => Shape::Number(ArrayKind::U64, v.bits()),
            Item::U128(v) => Shape::Number(ArrayKind::U128, v.bits()),
            Item::F16(v) => Shape::Number(ArrayKind::F16, v.bits()),
            Item::F32(v) => Shape::Number(ArrayKind::F32, v.bits()),
            Item::F64(v) => Shape::Number(ArrayKind::F64, v.bits()),
            Item::String(s) => Shape::Text(s@),
            Item::Array(len, kind) => Shape::Array(*len, *kind),
            Item::Object(len, kind) => Shape::Object(*len, *kind),
            Item::Enum => Shape::Enum,
        }
    }
}

/// The kind of number that a scalar header announces.
pub open spec fn scalar_kind(header: u8) -> Option<ArrayKind> {
    if header == I8 {
        Some(ArrayKind::I8)
    } else if header == I16 {
        Some(ArrayKind::I16)
    } else if header == I32 {
        Some(ArrayKind::I32)
    } else if header == I64 {
        Some(ArrayKind::I64)
    } else if header == I128 {
        Some(ArrayKind::I128)
    } else if header == U8 {
        Some(ArrayKind::U8)
    } else if header == U16 {
        Some(ArrayKind::U16)
    } else if header == U32 {
        Some(ArrayKind::U32)
    } else if header == U64 {
        Some(ArrayKind::U64)
    } else if header == U128 {
        Some(ArrayKind::U128)
    } else if header == BF16 {
        Some(ArrayKind::BF16)
    } else if header == F16 {
        Some(ArrayKind::F16)
    } else if header == F32 {
        Some(ArrayKind::F32)
    } else if header == F64 {
        Some(ArrayKind::F64)
    } else {
        None
    }
}

/// What reading the bare payload of a number of `kind` gives: the
/// unsigned number that its bytes spell.
pub open spec fn parse_number(s: Seq<u8>, kind: ArrayKind) -> (Result<nat, Error>, nat) {
    if s.len() < kind_width(kind) {
        (Err(eof()), 0)
    } else {
        (Ok(le_value(s.take(kind_width(kind) as int))), kind_width(kind))
    }
}

/// The item for a number of `kind` whose payload spells `bits`. A brain
/// float is widened to a 32-bit float.
pub open spec fn number_shape(kind: ArrayKind, bits: nat) -> Shape {
    if kind == ArrayKind::BF16 {
        Shape::Number(ArrayKind::F32, bf16_to_f32_bits(bits as u16) as nat)
    } else {
        Shape::Number(kind, bits)
    }
}

/// A read that follows one header byte: its result, and one byte more
/// taken.
pub open spec fn headed<T>(then: (Result<T, Error>, nat)) -> (Result<T, Error>, nat) {
    (then.0, 1 + then.1)
}

/// What reading whatever comes next in the stream `s` gives, and how many
/// bytes the read takes. The first byte decides:
///
/// - null and the delimiter are the unit value, true and false a boolean;
/// - a number header is followed by the payload of its width, a string
///   header by length and UTF-8 bytes;
/// - an object or array header is followed by the length, and the entries
///   or elements are left for the handle that the caller makes;
/// - the tag header starts a variant, whose index is left for its handle;
/// - the headers of 128-bit floats and of their arrays are unsupported,
///   the reserved header is an error of its own, and every other byte is
///   an invalid header. These three take nothing: the byte stays the one
///   looked at ahead.
pub open spec fn parse_any(s: Seq<u8>) -> (Result<Shape, Error>, nat) {
    if s.len() == 0 {
        (Err(eof()), 0)
    } else {
        let header = s[0];
        let tail = s.skip(1);
        if header == NULL || header == DELIMITER {
            (Ok(Shape::Unit), 1)
        } else if header == TRUE {
            (Ok(Shape::Bool(true)), 1)
        } else if header == FALSE {
            (Ok(Shape::Bool(false)), 1)
        } else if header == F128 || header == F128_ARRAY {
            (Err(Error::UnsupportedDataType(SpecialType::F128)), 0)
        } else if header == RESERVED {
            (Err(Error::Reserved), 0)
        } else if header == TAG {
            (Ok(Shape::Enum), 1)
        } else if header == STRING {
            match parse_text(tail) {
                (Ok(chars), used) => (Ok(Shape::Text(chars)), 1 + used),
                (Err(e), used) => (Err(e), 1 + used),
            }
        } else if let Some(kind) = scalar_kind(header) {
            match parse_number(tail, kind) {
                (Ok(bits), used) => (Ok(number_shape(kind, bits)), 1 + used),
                (Err(e), used) => (Err(e), 1 + used),
            }
        } else if let Some(kind) = ObjectKind::spec_from_header(header) {
            match parse_size(tail) {
                (Ok(len), used) => (Ok(Shape::Object(len, kind)), 1 + used),
                (Err(e), used) => (Err(e), 1 + used),
            }
        } else if let Some(kind) = ArrayKind::spec_from_header(header) {
            match parse_size(tail) {
                (Ok(len), used) => (Ok(Shape::Array(len, kind)), 1 + used),
                (Err(e), used) => (Err(e), 1 + used),
            }
        } else {
            (Err(Error::InvalidHeader(header)), 0)
        }
    }
}

/// What reading the start of an array gives: its length and its kind. A
/// header that announces no array is of the wrong type.
pub open spec fn parse_seq(s: Seq<u8>) -> (Result<(usize, ArrayKind), Error>, nat) {
    if s.len() == 0 {
        (Err(eof()), 0)
    } else {
        match ArrayKind::spec_from_header(s[0]) {
            Some(kind) => match parse_size(s.skip(1)) {
                (Ok(len), used) => (Ok((len, kind)), 1 + used),
                (Err(e), used) => (Err(e), 1 + used),
            },
            None => (
                Err(Error::WrongType { expected: "array", found: spec_header_name(s[0]) }),
                1,
            ),
        }
    }
}

/// What reading the start of an object gives: its length and the kind
/// of its keys. A header that announces no object is of the wrong type.
pub open spec fn parse_map(s: Seq<u8>) -> (Result<(usize, ObjectKind), Error>, nat) {
    if s.len() == 0 {
        (Err(eof()), 0)
    } else {
        match ObjectKind::spec_from_header(s[0]) {
            Some(kind) => match parse_size(s.skip(1)) {
                (Ok(len), used) => (Ok((len, kind)), 1 + used),
                (Err(e), used) => (Err(e), 1 + used),
            },
            None => (
                Err(Error::WrongType { expected: "object", found: spec_header_name(s[0]) }),
                1,
            ),
        }
    }
}

/// What reading the length that stands behind the header `header` gives.
pub open spec fn parse_sized(s: Seq<u8>, header: u8) -> (Result<usize, Error>, nat) {
    after_header(s, header, parse_size(s.skip(1)))
}

/// The decoder. It reads from a byte slice and holds at most one byte
/// that it has looked at ahead.
pub struct Deserializer<'de> {
    reader: &'de [u8],
    pos: usize,
    peek: Option<u8>,
}

impl<'de> View for Deserializer<'de> {
    type V = Cursor;

    closed spec fn view(&self) -> Cursor {
        Cursor { input: self.reader@, pos: self.pos as nat, peek: self.peek }
    }
}

impl<'de> Deserializer<'de> {
    #[verifier::type_invariant]
    spec fn inv(&self) -> bool {
        self.pos <= self.reader@.len()
    }

    /// A decoder at the start of `reader`.
    pub fn new(reader: &'de [u8]) -> (deserializer: Self)
        ensures
            deserializer@ == (Cursor { input: reader@, pos: 0, peek: None }),
            deserializer@.rest() == reader@,
            deserializer@.wf(),
    {
        assert(reader@.skip(0) =~= reader@);
        Self { reader, pos: 0, peek: None }
    }

    /// Takes nothing: a read of no bytes.
    pub(crate) fn touch(&mut self)
        ensures
            final(self)@.follows(old(self)@, 0),
            final(self)@ == old(self)@,
    {
        proof {
            use_type_invariant(&*self);
            lemma_skip_rest(old(self)@, 0);
            assert(old(self)@.rest().skip(0) =~= old(self)@.rest());
        }
    }

    /// Takes the next byte from the source, past the byte that may be
    /// held.
    fn read_byte(&mut self) -> (r: Result<u8, Error>)
        ensures
            old(self).pos < old(self).reader@.len() ==> r == Ok::<u8, Error>(
                old(self).reader@[old(self).pos as int],
            ) && final(self).pos == old(self).pos + 1,
            old(self).pos >= old(self).reader@.len() ==> r == Err::<u8, Error>(eof())
                && final(self).pos == old(self).pos,
            final(self).reader == old(self).reader,
            final(self).peek == old(self).peek,
    {
        proof {
            use_type_invariant(&*self);
        }
        if self.pos < self.reader.len() {
            let byte: u8 = self.reader[self.pos];
            self.pos = self.pos + 1;
            Ok(byte)
        } else {
            Err(Error::Io(IoError::UnexpectedEof))
        }
    }

    /// Takes the next byte: the byte held from a look ahead if there is
    /// one, else the next byte of the source.
    pub fn get_byte(&mut self) -> (r: Result<u8, Error>)
        ensures
            r == parse_byte(old(self)@.rest()).0,
            final(self)@.follows(old(self)@, parse_byte(old(self)@.rest()).1),
    {
        proof {
            use_type_invariant(&*self);
            lemma_skip_rest(old(self)@, parse_byte(old(self)@.rest()).1);
        }
        match self.peek {
            Some(byte) => {
                self.peek = None;
                Ok(byte)
            },
            None => self.read_byte(),
        }
    }

    /// Looks at the next byte without taking it: the byte is read from the
    /// source once and held for the next read.
    pub fn peek_byte(&mut self) -> (r: Result<u8, Error>)
        ensures
            r == parse_byte(old(self)@.rest()).0,
            final(self)@ == old(self)@.peeked(),
            final(self)@.rest() == old(self)@.rest(),
            final(self)@.wf(),
    {
        proof {
            use_type_invariant(&*self);
        }
        match self.peek {
            Some(byte) => Ok(byte),
            None => {
                let byte = self.read_byte()?;
                self.peek = Some(byte);
                assert(self@.rest() =~= old(self)@.rest());
                Ok(byte)
            },
        }
    }

    /// Takes the next `n` bytes. If fewer are left, nothing is taken.
    pub fn get_bytes(&mut self, n: usize) -> (r: Result<Vec<u8>, Error>)
        ensures
            match parse_bytes(old(self)@.rest(), n as nat) {
                (Ok(bytes), _) => r matches Ok(v) && v@ == bytes,
                (Err(e), _) => r == Err::<Vec<u8>, Error>(e),
            },
            final(self)@.follows(old(self)@, parse_bytes(old(self)@.rest(), n as nat).1),
    {
        proof {
            use_type_invariant(&*self);
            lemma_skip_rest(old(self)@, parse_bytes(old(self)@.rest(), n as nat).1);
        }
        let left: usize = self.reader.len() - self.pos;
        match self.peek {
            Some(byte) => {
                if n == 0 {
                    assert(old(self)@.rest().take(0) =~= Seq::<u8>::empty());
                    return Ok(Vec::new());
                }
                if n - 1 > left {
                    return Err(Error::Io(IoError::UnexpectedEof));
                }
                let mut out: Vec<u8> = Vec::new();
                out.push(byte);
                let mut tail = slice_to_vec(slice_subrange(self.reader, self.pos, self.pos
                    + (n - 1)));
                out.append(&mut tail);
                self.peek = None;
                self.pos = self.pos + (n - 1);
                assert(out@ =~= old(self)@.rest().take(n as int));
                Ok(out)
            },
            None => {
                if n > left {
                    return Err(Error::Io(IoError::UnexpectedEof));
                }
                let out = slice_to_vec(slice_subrange(self.reader, self.pos, self.pos + n));
                self.pos = self.pos + n;
                assert(out@ =~= old(self)@.rest().take(n as int));
                Ok(out)
            },
        }
    }

    /// Reads a length: a compressed integer of 1, 2, 4 or 8 bytes, as the
    /// two low bits of its first byte announce. The bytes are put together
    /// little-endian and shifted right by two bits. An integer that is
    /// written wider than `usize` is `TooLong`.
    pub fn get_size(&mut self) -> (r: Result<usize, Error>)
        ensures
            r == parse_size(old(self)@.rest()).0,
            final(self)@.follows(old(self)@, parse_size(old(self)@.rest()).1),
    {
        let ghost s = old(self)@.rest();
        let first: u8 = self.get_byte()?;
        let width: usize = match first % 4 {
            0 => 1,
            1 => 2,
            2 => 4,
            _ => 8,
        };
        assert(width == announced_width(s[0]));
        let ghost mid = self@;
        let tail = self.get_bytes(width - 1)?;
        proof {
            lemma_follows(old(self)@, mid, self@, 1, (width - 1) as nat);
        }
        if width * 8 > usize::BITS as usize {
            return Err(Error::TooLong);
        }
        let mut all: Vec<u8> = Vec::new();
        all.push(first);
        let mut tail = tail;
        all.append(&mut tail);
        assert(all@ =~= s.take(width as int));
        let raw: u128 = read_le(all.as_slice());
        proof {
            lemma_radix_values();
            lemma_radix_monotonic(width as nat, 8);
            if width == 1 {
                assert(radix(1) == 0x100);
            } else if width == 2 {
                assert(radix(2) == 0x1_0000);
            } else if width == 4 {
                assert(radix(4) == 0x1_0000_0000);
            }
        }
        Ok((raw / 4) as usize)
    }

    /// Reads the bare payload of a number: its little-endian bytes.
    pub fn get_value<T: Scalar>(&mut self) -> (r: Result<T, Error>)
        ensures
            r == parse_num::<T>(old(self)@.rest()).0,
            r matches Ok(v) ==> v.bits() == le_value(old(self)@.rest().take(T::width() as int)),
            final(self)@.follows(old(self)@, parse_num::<T>(old(self)@.rest()).1),
    {
        let bytes = self.get_bytes(T::byte_width())?;
        let bits: u128 = read_le(bytes.as_slice());
        Ok(T::from_bits(bits))
    }

    /// Reads a length and then that many bytes.
    pub fn get_u8_array(&mut self) -> (r: Result<Vec<u8>, Error>)
        ensures
            match parse_chunk(old(self)@.rest()) {
                (Ok(bytes), _) => r matches Ok(v) && v@ == bytes,
                (Err(e), _) => r == Err::<Vec<u8>, Error>(e),
            },
            final(self)@.follows(old(self)@, parse_chunk(old(self)@.rest()).1),
    {
        let size = self.get_size()?;
        let ghost mid = self@;
        let r = self.get_bytes(size);
        proof {
            lemma_follows(
                old(self)@,
                mid,
                self@,
                parse_size(old(self)@.rest()).1,
                parse_bytes(mid.rest(), size as nat).1,
            );
        }
        r
    }

    /// Reads a string payload: its length, its bytes, and the string that
    /// the bytes spell in UTF-8.
    pub fn get_string_value(&mut self) -> (r: Result<String, Error>)
        ensures
            match parse_text(old(self)@.rest()) {
                (Ok(chars), used) => r matches Ok(s) && s@ == chars,
                (Err(e), used) => r == Err::<String, Error>(e),
            },
            final(self)@.follows(old(self)@, parse_text(old(self)@.rest()).1),
    {
        let bytes = self.get_u8_array()?;
        match String::from_utf8(bytes) {
            Ok(s) => Ok(s),
            Err(_) => Err(Error::FromUtf8),
        }
    }

    /// Reads the payload of a brain float and widens it to the bits of a
    /// 32-bit float.
    pub fn get_bf16_value(&mut self) -> (r: Result<u32, Error>)
        ensures
            match parse_num::<u16>(old(self)@.rest()) {
                (Ok(bits), _) => r == Ok::<u32, Error>(bf16_to_f32_bits(bits)),
                (Err(e), _) => r == Err::<u32, Error>(e),
            },
            final(self)@.follows(old(self)@, parse_num::<u16>(old(self)@.rest()).1),
    {
        let bits: u16 = self.get_value()?;
        Ok(widen_bf16(bits))
    }

    /// Reads the payload of a 16-bit float: its two bytes, as they are.
    pub fn get_f16_value(&mut self) -> (r: Result<u16, Error>)
        ensures
            r == parse_num::<u16>(old(self)@.rest()).0,
            final(self)@.follows(old(self)@, parse_num::<u16>(old(self)@.rest()).1),
    {
        self.get_value()
    }

    /// Reads the payload of a 32-bit float: its bits.
    pub fn get_f32_value(&mut self) -> (r: Result<u32, Error>)
        ensures
            r == parse_num::<u32>(old(self)@.rest()).0,
            final(self)@.follows(old(self)@, parse_num::<u32>(old(self)@.rest()).1),
    {
        self.get_value()
    }

    /// Reads the payload of a 64-bit float: its bits.
    pub fn get_f64_value(&mut self) -> (r: Result<u64, Error>)
        ensures
            r == parse_num::<u64>(old(self)@.rest()).0,
            final(self)@.follows(old(self)@, parse_num::<u64>(old(self)@.rest()).1),
    {
        self.get_value()
    }

    /// Reads the payload of an `i8`: its little-endian bytes.
    pub fn get_i8_value(&mut self) -> (r: Result<i8, Error>)
        ensures
            r == parse_num::<i8>(old(self)@.rest()).0,
            final(self)@.follows(old(self)@, parse_num::<i8>(old(self)@.rest()).1),
    {
        self.get_value()
    }

    /// Reads the payload of an `i16`: its little-endian bytes.
    pub fn get_i16_value(&mut self) -> (r: Result<i16, Error>)
        ensures
            r == parse_num::<i16>(old(self)@.rest()).0,
            final(self)@.follows(old(self)@, parse_num::<i16>(old(self)@.rest()).1),
    {
        self.get_value()
    }

    /// Reads the payload of an `i32`: its little-endian bytes.
    pub fn get_i32_value(&mut self) -> (r: Result<i32, Error>)
        ensures
            r == parse_num::<i32>(old(self)@.rest()).0,
            final(self)@.follows(old(self)@, parse_num::<i32>(old(self)@.rest()).1),
    {
        self.get_value()
    }

    /// Reads the payload of an `i64`: its little-endian bytes.
    pub fn get_i64_value(&mut self) -> (r: Result<i64, Error>)
        ensures
            r == parse_num::<i64>(old(self)@.rest()).0,
            final(self)@.follows(old(self)@, parse_num::<i64>(old(self)@.rest()).1),
    {
        self.get_value()
    }

    /// Reads the payload of an `i128`: its little-endian bytes.
    pub fn get_i128_value(&mut self) -> (r: Result<i128, Error>)
        ensures
            r == parse_num::<i128>(old(self)@.rest()).0,
            final(self)@.follows(old(self)@, parse_num::<i128>(old(self)@.rest()).1),
    {
        self.get_value()
    }

    /// Reads the payload of an `u8`: its little-endian bytes.
    pub fn get_u8_value(&mut self) -> (r: Result<u8, Error>)
        ensures
            r == parse_num::<u8>(old(self)@.rest()).0,
            final(self)@.follows(old(self)@, parse_num::<u8>(old(self)@.rest()).1),
    {
        self.get_value()
    }

    /// Reads the payload of an `u16`: its little-endian bytes.
    pub fn get_u16_value(&mut self) -> (r: Result<u16, Error>)
        ensures
            r == parse_num::<u16>(old(self)@.rest()).0,
            final(self)@.follows(old(self)@, parse_num::<u16>(old(self)@.rest()).1),
    {
        self.get_value()
    }

    /// Reads the payload of an `u32`: its little-endian bytes.
    pub fn get_u32_value(&mut self) -> (r: Result<u32, Error>)
        ensures
            r == parse_num::<u32>(old(self)@.rest()).0,
            final(self)@.follows(old(self)@, parse_num::<u32>(old(self)@.rest()).1),
    {
        self.get_value()
    }

    /// Reads the payload of an `u64`: its little-endian bytes.
    pub fn get_u64_value(&mut self) -> (r: Result<u64, Error>)
        ensures
            r == parse_num::<u64>(old(self)@.rest()).0,
            final(self)@.follows(old(self)@, parse_num::<u64>(old(self)@.rest()).1),
    {
        self.get_value()
    }

    /// Reads the payload of an `u128`: its little-endian bytes.
    pub fn get_u128_value(&mut self) -> (r: Result<u128, Error>)
        ensures
            r == parse_num::<u128>(old(self)@.rest()).0,
            final(self)@.follows(old(self)@, parse_num::<u128>(old(self)@.rest()).1),
    {
        self.get_value()
    }

    /// Takes one byte and holds it against the header that is expected.
    pub fn expect_header(&mut self, header: u8) -> (r: Result<(), Error>)
        ensures
            r == after_header(old(self)@.rest(), header, (Ok::<(), Error>(()), 0)).0,
            final(self)@.follows(
                old(self)@,
                after_header(old(self)@.rest(), header, (Ok::<(), Error>(()), 0)).1,
            ),
    {
        let found: u8 = self.get_byte()?;
        if found != header {
            return Err(Error::WrongType { expected: header_name(header),
                found: header_name(found) });
        }
        Ok(())
    }

    /// Reads a number that stands behind the header `header`.
    pub fn deserialize_num<T: Scalar>(&mut self, header: u8) -> (r: Result<T, Error>)
        ensures
            r == parse_headed::<T>(old(self)@.rest(), header).0,
            r matches Ok(v) ==> v.bits() == le_value(
                old(self)@.rest().skip(1).take(T::width() as int),
            ),
            final(self)@.follows(old(self)@, parse_headed::<T>(old(self)@.rest(), header).1),
    {
        self.expect_header(header)?;
        let ghost mid = self@;
        let r = self.get_value();
        proof {
            lemma_follows(old(self)@, mid, self@, 1, parse_num::<T>(mid.rest()).1);
        }
        r
    }

    /// Reads a boolean: the header for true or the header for false.
    pub fn deserialize_bool(&mut self) -> (r: Result<bool, Error>)
        ensures
            r == parse_bool(old(self)@.rest()).0,
            final(self)@.follows(old(self)@, parse_bool(old(self)@.rest()).1),
    {
        let header: u8 = self.get_byte()?;
        if header == TRUE {
            Ok(true)
        } else if header == FALSE {
            Ok(false)
        } else {
            Err(Error::WrongType { expected: header_name(TRUE), found: header_name(header) })
        }
    }

    /// Reads an `i8`: its header, which must be exactly that of the
    /// type, then its payload.
    pub fn deserialize_i8(&mut self) -> (r: Result<i8, Error>)
        ensures
            r == parse_headed::<i8>(old(self)@.rest(), I8).0,
            final(self)@.follows(old(self)@, parse_headed::<i8>(old(self)@.rest(), I8).1),
    {
        self.deserialize_num(I8)
    }

    /// Reads an `i16`: its header, which must be exactly that of the
    /// type, then its payload.
    pub fn deserialize_i16(&mut self) -> (r: Result<i16, Error>)
        ensures
            r == parse_headed::<i16>(old(self)@.rest(), I16).0,
            final(self)@.follows(old(self)@, parse_headed::<i16>(old(self)@.rest(), I16).1),
    {
        self.deserialize_num(I16)
    }

    /// Reads an `i32`: its header, which must be exactly that of the
    /// type, then its payload.
    pub fn deserialize_i32(&mut self) -> (r: Result<i32, Error>)
        ensures
            r == parse_headed::<i32>(old(self)@.rest(), I32).0,
            final(self)@.follows(old(self)@, parse_headed::<i32>(old(self)@.rest(), I32).1),
    {
        self.deserialize_num(I32)
    }

    /// Reads an `i64`: its header, which must be exactly that of the
    /// type, then its payload.
    pub fn deserialize_i64(&mut self) -> (r: Result<i64, Error>)
        ensures
            r == parse_headed::<i64>(old(self)@.rest(), I64).0,
            final(self)@.follows(old(self)@, parse_headed::<i64>(old(self)@.rest(), I64).1),
    {
        self.deserialize_num(I64)
    }

    /// Reads an `i128`: its header, which must be exactly that of the
    /// type, then its payload.
    pub fn deserialize_i128(&mut self) -> (r: Result<i128, Error>)
        ensures
            r == parse_headed::<i128>(old(self)@.rest(), I128).0,
            final(self)@.follows(old(self)@, parse_headed::<i128>(old(self)@.rest(), I128).1),
    {
        self.deserialize_num(I128)
    }

    /// Reads an `u8`: its header, which must be exactly that of the
    /// type, then its payload.
    pub fn deserialize_u8(&mut self) -> (r: Result<u8, Error>)
        ensures
            r == parse_headed::<u8>(old(self)@.rest(), U8).0,
            final(self)@.follows(old(self)@, parse_headed::<u8>(old(self)@.rest(), U8).1),
    {
        self.deserialize_num(U8)
    }

    /// Reads an `u16`: its header, which must be exactly that of the
    /// type, then its payload.
    pub fn deserialize_u16(&mut self) -> (r: Result<u16, Error>)
        ensures
            r == parse_headed::<u16>(old(self)@.rest(), U16).0,
            final(self)@.follows(old(self)@, parse_headed::<u16>(old(self)@.rest(), U16).1),
    {
        self.deserialize_num(U16)
    }

    /// Reads an `u32`: its header, which must be exactly that of the
    /// type, then its payload.
    pub fn deserialize_u32(&mut self) -> (r: Result<u32, Error>)
        ensures
            r == parse_headed::<u32>(old(self)@.rest(), U32).0,
            final(self)@.follows(old(self)@, parse_headed::<u32>(old(self)@.rest(), U32).1),
    {
        self.deserialize_num(U32)
    }

    /// Reads an `u64`: its header, which must be exactly that of the
    /// type, then its payload.
    pub fn deserialize_u64(&mut self) -> (r: Result<u64, Error>)
        ensures
            r == parse_headed::<u64>(old(self)@.rest(), U64).0,
            final(self)@.follows(old(self)@, parse_headed::<u64>(old(self)@.rest(), U64).1),
    {
        self.deserialize_num(U64)
    }

    /// Reads an `u128`: its header, which must be exactly that of the
    /// type, then its payload.
    pub fn deserialize_u128(&mut self) -> (r: Result<u128, Error>)
        ensures
            r == parse_headed::<u128>(old(self)@.rest(), U128).0,
            final(self)@.follows(old(self)@, parse_headed::<u128>(old(self)@.rest(), U128).1),
    {
        self.deserialize_num(U128)
    }

    /// Reads a float behind its header, as its bits.
    pub fn deserialize_f32(&mut self) -> (r: Result<u32, Error>)
        ensures
            r == parse_headed::<u32>(old(self)@.rest(), F32).0,
            final(self)@.follows(old(self)@, parse_headed::<u32>(old(self)@.rest(), F32).1),
    {
        self.deserialize_num(F32)
    }

    /// Reads a float behind its header, as its bits.
    pub fn deserialize_f64(&mut self) -> (r: Result<u64, Error>)
        ensures
            r == parse_headed::<u64>(old(self)@.rest(), F64).0,
            final(self)@.follows(old(self)@, parse_headed::<u64>(old(self)@.rest(), F64).1),
    {
        self.deserialize_num(F64)
    }

    /// Reads a float behind its header, as its bits.
    pub fn deserialize_f16(&mut self) -> (r: Result<u16, Error>)
        ensures
            r == parse_headed::<u16>(old(self)@.rest(), F16).0,
            final(self)@.follows(old(self)@, parse_headed::<u16>(old(self)@.rest(), F16).1),
    {
        self.deserialize_num(F16)
    }

    /// Reads a brain float behind its header, widened to the bits of a
    /// 32-bit float.
    pub fn deserialize_bf16(&mut self) -> (r: Result<u32, Error>)
        ensures
            match parse_headed::<u16>(old(self)@.rest(), BF16) {
                (Ok(bits), _) => r == Ok::<u32, Error>(bf16_to_f32_bits(bits)),
                (Err(e), _) => r == Err::<u32, Error>(e),
            },
            final(self)@.follows(old(self)@, parse_headed::<u16>(old(self)@.rest(), BF16).1),
    {
        let bits: u16 = self.deserialize_num(BF16)?;
        Ok(widen_bf16(bits))
    }

    /// Reads a string: its header, its length, and its bytes, which must
    /// be UTF-8.
    pub fn deserialize_string(&mut self) -> (r: Result<String, Error>)
        ensures
            match parse_string(old(self)@.rest()) {
                (Ok(chars), _) => r matches Ok(s) && s@ == chars,
                (Err(e), _) => r == Err::<String, Error>(e),
            },
            final(self)@.follows(old(self)@, parse_string(old(self)@.rest()).1),
    {
        self.expect_header(STRING)?;
        let ghost mid = self@;
        let r = self.get_string_value();
        proof {
            lemma_follows(old(self)@, mid, self@, 1, parse_text(mid.rest()).1);
        }
        r
    }

    /// Reads a string, as `deserialize_string` does.
    pub fn deserialize_str(&mut self) -> (r: Result<String, Error>)
        ensures
            match parse_string(old(self)@.rest()) {
                (Ok(chars), _) => r matches Ok(s) && s@ == chars,
                (Err(e), _) => r == Err::<String, Error>(e),
            },
            final(self)@.follows(old(self)@, parse_string(old(self)@.rest()).1),
    {
        self.deserialize_string()
    }

    /// Reads a character: a string of exactly one byte.
    pub fn deserialize_char(&mut self) -> (r: Result<char, Error>)
        ensures
            r == parse_char(old(self)@.rest()).0,
            final(self)@.follows(old(self)@, parse_char(old(self)@.rest()).1),
    {
        let string = self.deserialize_string()?;
        proof {
            let s = old(self)@.rest();
            let bytes = parse_chunk(s.skip(1)).0->Ok_0;
            vstd::utf8::decode_utf8_encode_utf8(bytes);
            assert(bytes.len() <= usize::MAX);
        }
        if string.as_str().len() != 1 {
            return Err(Error::WrongType { expected: "character", found: header_name(STRING) });
        }
        proof {
            reveal_with_fuel(encode_utf8, 2);
        }
        Ok(string.as_str().get_char(0))
    }

    /// Reads bytes: an array of 8-bit unsigned integers.
    pub fn deserialize_bytes(&mut self) -> (r: Result<Vec<u8>, Error>)
        ensures
            match parse_byte_array(old(self)@.rest()) {
                (Ok(bytes), _) => r matches Ok(v) && v@ == bytes,
                (Err(e), _) => r == Err::<Vec<u8>, Error>(e),
            },
            final(self)@.follows(old(self)@, parse_byte_array(old(self)@.rest()).1),
    {
        self.expect_header(U8_ARRAY)?;
        let ghost mid = self@;
        let r = self.get_u8_array();
        proof {
            lemma_follows(old(self)@, mid, self@, 1, parse_chunk(mid.rest()).1);
        }
        r
    }

    /// Reads bytes, as `deserialize_bytes` does.
    pub fn deserialize_byte_buf(&mut self) -> (r: Result<Vec<u8>, Error>)
        ensures
            match parse_byte_array(old(self)@.rest()) {
                (Ok(bytes), _) => r matches Ok(v) && v@ == bytes,
                (Err(e), _) => r == Err::<Vec<u8>, Error>(e),
            },
            final(self)@.follows(old(self)@, parse_byte_array(old(self)@.rest()).1),
    {
        self.deserialize_bytes()
    }

    /// Tells whether a value is present: looks at the next byte, takes it
    /// if it is null and says false, and leaves everything else to be read
    /// and says true.
    pub fn deserialize_option(&mut self) -> (r: Result<bool, Error>)
        ensures
            r == parse_option(old(self)@.rest()).0,
            final(self)@ == old(self)@.peeked().skip(parse_option(old(self)@.rest()).1),
            final(self)@.rest() == old(self)@.rest().skip(
                parse_option(old(self)@.rest()).1 as int,
            ),
            final(self)@.wf(),
    {
        let header: u8 = self.peek_byte()?;
        if header == NULL {
            let _ = self.get_byte();
            Ok(false)
        } else {
            Ok(true)
        }
    }

    /// Reads the unit value: a null.
    pub fn deserialize_unit(&mut self) -> (r: Result<(), Error>)
        ensures
            r == after_header(old(self)@.rest(), NULL, (Ok::<(), Error>(()), 0)).0,
            final(self)@.follows(
                old(self)@,
                after_header(old(self)@.rest(), NULL, (Ok::<(), Error>(()), 0)).1,
            ),
    {
        self.expect_header(NULL)
    }

    /// Reads whatever comes next: looks at one byte and reads what that
    /// header announces. A scalar is read whole. Of an array or an object
    /// the header and the length are read; the elements or entries are for
    /// the handle that the caller makes from the length and kind. Of a
    /// variant the tag is read; the index is for its handle.
    ///
    /// A header that cannot be read (a 128-bit float, the reserved header,
    /// a byte that is no header) fails without being taken: exactly the one
    /// byte looked at has left the source.
    pub fn deserialize_any(&mut self) -> (r: Result<Item, Error>)
        ensures
            match parse_any(old(self)@.rest()) {
                (Ok(shape), _) => r matches Ok(item) && item.shape() == shape,
                (Err(e), _) => r == Err::<Item, Error>(e),
            },
            final(self)@ == old(self)@.peeked().skip(parse_any(old(self)@.rest()).1),
            final(self)@.rest() == old(self)@.rest().skip(parse_any(old(self)@.rest()).1 as int),
            parse_any(old(self)@.rest()).1 <= old(self)@.rest().len(),
            final(self)@.wf(),
    {
        let header: u8 = self.peek_byte()?;
        if header == I8 || header == I16 || header == I32 || header == I64 || header == I128 {
            self.any_signed(header)
        } else if header == U8 || header == U16 || header == U32 || header == U64 || header
            == U128 {
            self.any_unsigned(header)
        } else if header == BF16 || header == F16 || header == F32 || header == F64 {
            self.any_float(header)
        } else if header == NULL || header == DELIMITER || header == TRUE || header == FALSE
            || header == TAG || header == STRING {
            self.any_plain(header)
        } else {
            self.any_collection(header)
        }
    }

    /// Reads the signed integer whose header was looked at.
    fn any_signed(&mut self, header: u8) -> (r: Result<Item, Error>)
        requires
            old(self)@.rest().len() > 0,
            old(self)@.rest()[0] == header,
            header == I8 || header == I16 || header == I32 || header == I64 || header == I128,
        ensures
            match parse_any(old(self)@.rest()) {
                (Ok(shape), _) => r matches Ok(item) && item.shape() == shape,
                (Err(e), _) => r == Err::<Item, Error>(e),
            },
            final(self)@.follows(old(self)@, parse_any(old(self)@.rest()).1),
    {
        if header == I8 {
            proof {
                lemma_any_number::<i8>(old(self)@.rest(), ArrayKind::I8);
            }
            let r = self.deserialize_i8();
            return match r {
                Ok(v) => Ok(Item::I8(v)),
                Err(e) => Err(e),
            };
        }
        if header == I16 {
            proof {
                lemma_any_number::<i16>(old(self)@.rest(), ArrayKind::I16);
            }
            let r = self.deserialize_i16();
            return match r {
                Ok(v) => Ok(Item::I16(v)),
                Err(e) => Err(e),
            };
        }
        if header == I32 {
            proof {
                lemma_any_number::<i32>(old(self)@.rest(), ArrayKind::I32);
            }
            let r = self.deserialize_i32();
            return match r {
                Ok(v) => Ok(Item::I32(v)),
                Err(e) => Err(e),
            };
        }
        if header == I64 {
            proof {
                lemma_any_number::<i64>(old(self)@.rest(), ArrayKind::I64);
            }
            let r = self.deserialize_i64();
            return match r {
                Ok(v) => Ok(Item::I64(v)),
                Err(e) => Err(e),
            };
        }
        proof {
            lemma_any_number::<i128>(old(self)@.rest(), ArrayKind::I128);
        }
        let r = self.deserialize_i128();
        match r {
            Ok(v) => Ok(Item::I128(v)),
            Err(e) => Err(e),
        }
    }

    /// Reads the unsigned integer whose header was looked at.
    fn any_unsigned(&mut self, header: u8) -> (r: Result<Item, Error>)
        requires
            old(self)@.rest().len() > 0,
            old(self)@.rest()[0] == header,
            header == U8 || header == U16 || header == U32 || header == U64 || header == U128,
        ensures
            match parse_any(old(self)@.rest()) {
                (Ok(shape), _) => r matches Ok(item) && item.shape() == shape,
                (Err(e), _) => r == Err::<Item, Error>(e),
            },
            final(self)@.follows(old(self)@, parse_any(old(self)@.rest()).1),
    {
        if header == U8 {
            proof {
                lemma_any_number::<u8>(old(self)@.rest(), ArrayKind::U8);
            }
            let r = self.deserialize_u8();
            return match r {
                Ok(v) => Ok(Item::U8(v)),
                Err(e) => Err(e),
            };
        }
        if header == U16 {
            proof {
                lemma_any_number::<u16>(old(self)@.rest(), ArrayKind::U16);
            }
            let r = self.deserialize_u16();
            return match r {
                Ok(v) => Ok(Item::U16(v)),
                Err(e) => Err(e),
            };
        }
        if header == U32 {
            proof {
                lemma_any_number::<u32>(old(self)@.rest(), ArrayKind::U32);
            }
            let r = self.deserialize_u32();
            return match r {
                Ok(v) => Ok(Item::U32(v)),
                Err(e) => Err(e),
            };
        }
        if header == U64 {
            proof {
                lemma_any_number::<u64>(old(self)@.rest(), ArrayKind::U64);
            }
            let r = self.deserialize_u64();
            return match r {
                Ok(v) => Ok(Item::U64(v)),
                Err(e) => Err(e),
            };
        }
        proof {
            lemma_any_number::<u128>(old(self)@.rest(), ArrayKind::U128);
        }
        let r = self.deserialize_u128();
        match r {
            Ok(v) => Ok(Item::U128(v)),
            Err(e) => Err(e),
        }
    }

    /// Reads the float whose header was looked at.
    fn any_float(&mut self, header: u8) -> (r: Result<Item, Error>)
        requires
            old(self)@.rest().len() > 0,
            old(self)@.rest()[0] == header,
            header == BF16 || header == F16 || header == F32 || header == F64,
        ensures
            match parse_any(old(self)@.rest()) {
                (Ok(shape), _) => r matches Ok(item) && item.shape() == shape,
                (Err(e), _) => r == Err::<Item, Error>(e),
            },
            final(self)@.follows(old(self)@, parse_any(old(self)@.rest()).1),
    {
        if header == F16 {
            proof {
                lemma_any_number::<u16>(old(self)@.rest(), ArrayKind::F16);
            }
            let r = self.deserialize_f16();
            return match r {
                Ok(v) => Ok(Item::F16(v)),
                Err(e) => Err(e),
            };
        }
        if header == F32 {
            proof {
                lemma_any_number::<u32>(old(self)@.rest(), ArrayKind::F32);
            }
            let r = self.deserialize_f32();
            return match r {
                Ok(v) => Ok(Item::F32(v)),
                Err(e) => Err(e),
            };
        }
        if header == F64 {
            proof {
                lemma_any_number::<u64>(old(self)@.rest(), ArrayKind::F64);
            }
            let r = self.deserialize_f64();
            return match r {
                Ok(v) => Ok(Item::F64(v)),
                Err(e) => Err(e),
            };
        }
        proof {
            lemma_any_number::<u16>(old(self)@.rest(), ArrayKind::BF16);
        }
        let r = self.deserialize_bf16();
        match r {
            Ok(v) => Ok(Item::F32(v)),
            Err(e) => Err(e),
        }
    }

    /// Reads the unit value, the boolean, the tag or the string whose
    /// header was looked at.
    fn any_plain(&mut self, header: u8) -> (r: Result<Item, Error>)
        requires
            old(self)@.rest().len() > 0,
            old(self)@.rest()[0] == header,
            header == NULL || header == DELIMITER || header == TRUE || header == FALSE
                || header == TAG
                || header == STRING,
        ensures
            match parse_any(old(self)@.rest()) {
                (Ok(shape), _) => r matches Ok(item) && item.shape() == shape,
                (Err(e), _) => r == Err::<Item, Error>(e),
            },
            final(self)@.follows(old(self)@, parse_any(old(self)@.rest()).1),
    {
        if header == STRING {
            let r = self.deserialize_string();
            match r {
                Ok(v) => Ok(Item::String(v)),
                Err(e) => Err(e),
            }
        } else if header == TRUE || header == FALSE {
            let r = self.deserialize_bool();
            match r {
                Ok(v) => Ok(Item::Bool(v)),
                Err(e) => Err(e),
            }
        } else {
            let _ = self.get_byte();
            if header == TAG {
                Ok(Item::Enum)
            } else {
                Ok(Item::Unit)
            }
        }
    }

    /// Reads the start of the object or array whose header was looked at,
    /// or fails for a header that announces nothing to read.
    fn any_collection(&mut self, header: u8) -> (r: Result<Item, Error>)
        requires
            old(self)@.rest().len() > 0,
            old(self)@.rest()[0] == header,
            scalar_kind(header) is None && header != NULL && header != DELIMITER && header != TRUE
                && header != FALSE && header != TAG && header != STRING,
        ensures
            match parse_any(old(self)@.rest()) {
                (Ok(shape), _) => r matches Ok(item) && item.shape() == shape,
                (Err(e), _) => r == Err::<Item, Error>(e),
            },
            final(self)@.follows(old(self)@, parse_any(old(self)@.rest()).1),
    {
        proof {
            use_type_invariant(&*self);
            lemma_skip_rest(old(self)@, 0);
            assert(old(self)@.rest().skip(0) =~= old(self)@.rest());
        }
        if header == F128 || header == F128_ARRAY {
            return Err(Error::UnsupportedDataType(SpecialType::F128));
        }
        if header == RESERVED {
            return Err(Error::Reserved);
        }
        match ObjectKind::from_header(header) {
            Some(kind) => {
                let r = self.deserialize_sized(header);
                match r {
                    Ok(len) => Ok(Item::Object(len, kind)),
                    Err(e) => Err(e),
                }
            },
            None => match ArrayKind::from_header(header) {
                Some(kind) => {
                    let r = self.deserialize_sized(header);
                    match r {
                        Ok(len) => Ok(Item::Array(len, kind)),
                        Err(e) => Err(e),
                    }
                },
                None => Err(Error::InvalidHeader(header)),
            },
        }
    }

    /// Reads the header `header` and the length behind it.
    pub fn deserialize_sized(&mut self, header: u8) -> (r: Result<usize, Error>)
        ensures
            r == parse_sized(old(self)@.rest(), header).0,
            final(self)@.follows(old(self)@, parse_sized(old(self)@.rest(), header).1),
    {
        self.expect_header(header)?;
        let ghost mid = self@;
        let r = self.get_size();
        proof {
            lemma_follows(old(self)@, mid, self@, 1, parse_size(mid.rest()).1);
        }
        r
    }

    /// Reads the bare payload of a number of `kind` as an item: the
    /// element of a homogeneous array or the key of an object, which have
    /// no header of their own.
    pub(crate) fn get_number(&mut self, kind: ArrayKind) -> (r: Result<Item, Error>)
        requires
            kind != ArrayKind::Generic && kind != ArrayKind::String && kind != ArrayKind::Boolean,
        ensures
            match parse_number(old(self)@.rest(), kind) {
                (Ok(bits), _) => r matches Ok(item) && item.shape() == number_shape(kind, bits),
                (Err(e), _) => r == Err::<Item, Error>(e),
            },
            final(self)@.follows(old(self)@, parse_number(old(self)@.rest(), kind).1),
    {
        match kind {
            ArrayKind::I8 | ArrayKind::I16 | ArrayKind::I32 | ArrayKind::I64 | ArrayKind::I128 => {
                self.get_signed(kind)
            },
            ArrayKind::U8 | ArrayKind::U16 | ArrayKind::U32 | ArrayKind::U64 | ArrayKind::U128 => {
                self.get_unsigned(kind)
            },
            _ => self.get_float(kind),
        }
    }

    /// Reads the bare payload of a signed integer as an item.
    fn get_signed(&mut self, kind: ArrayKind) -> (r: Result<Item, Error>)
        requires
            kind == ArrayKind::I8 || kind == ArrayKind::I16 || kind == ArrayKind::I32 || kind
                == ArrayKind::I64 || kind == ArrayKind::I128,
        ensures
            match parse_number(old(self)@.rest(), kind) {
                (Ok(bits), _) => r matches Ok(item) && item.shape() == number_shape(kind, bits),
                (Err(e), _) => r == Err::<Item, Error>(e),
            },
            final(self)@.follows(old(self)@, parse_number(old(self)@.rest(), kind).1),
    {
        if kind == ArrayKind::I8 {
            proof {
                lemma_bare_number::<i8>(old(self)@.rest(), kind);
            }
            let r = self.get_value::<i8>();
            return match r {
                Ok(v) => Ok(Item::I8(v)),
                Err(e) => Err(e),
            };
        }
        if kind == ArrayKind::I16 {
            proof {
                lemma_bare_number::<i16>(old(self)@.rest(), kind);
            }
            let r = self.get_value::<i16>();
            return match r {
                Ok(v) => Ok(Item::I16(v)),
                Err(e) => Err(e),
            };
        }
        if kind == ArrayKind::I32 {
            proof {
                lemma_bare_number::<i32>(old(self)@.rest(), kind);
            }
            let r = self.get_value::<i32>();
            return match r {
                Ok(v) => Ok(Item::I32(v)),
                Err(e) => Err(e),
            };
        }
        if kind == ArrayKind::I64 {
            proof {
                lemma_bare_number::<i64>(old(self)@.rest(), kind);
            }
            let r = self.get_value::<i64>();
            return match r {
                Ok(v) => Ok(Item::I64(v)),
                Err(e) => Err(e),
            };
        }
        proof {
            lemma_bare_number::<i128>(old(self)@.rest(), kind);
        }
        let r = self.get_value::<i128>();
        match r {
            Ok(v) => Ok(Item::I128(v)),
            Err(e) => Err(e),
        }
    }

    /// Reads the bare payload of an unsigned integer as an item.
    fn get_unsigned(&mut self, kind: ArrayKind) -> (r: Result<Item, Error>)
        requires
            kind == ArrayKind::U8 || kind == ArrayKind::U16 || kind == ArrayKind::U32 || kind
                == ArrayKind::U64 || kind == ArrayKind::U128,
        ensures
            match parse_number(old(self)@.rest(), kind) {
                (Ok(bits), _) => r matches Ok(item) && item.shape() == number_shape(kind, bits),
                (Err(e), _) => r == Err::<Item, Error>(e),
            },
            final(self)@.follows(old(self)@, parse_number(old(self)@.rest(), kind).1),
    {
        if kind == ArrayKind::U8 {
            proof {
                lemma_bare_number::<u8>(old(self)@.rest(), kind);
            }
            let r = self.get_value::<u8>();
            return match r {
                Ok(v) => Ok(Item::U8(v)),
                Err(e) => Err(e),
            };
        }
        if kind == ArrayKind::U16 {
            proof {
                lemma_bare_number::<u16>(old(self)@.rest(), kind);
            }
            let r = self.get_value::<u16>();
            return match r {
                Ok(v) => Ok(Item::U16(v)),
                Err(e) => Err(e),
            };
        }
        if kind == ArrayKind::U32 {
            proof {
                lemma_bare_number::<u32>(old(self)@.rest(), kind);
            }
            let r = self.get_value::<u32>();
            return match r {
                Ok(v) => Ok(Item::U32(v)),
                Err(e) => Err(e),
            };
        }
        if kind == ArrayKind::U64 {
            proof {
                lemma_bare_number::<u64>(old(self)@.rest(), kind);
            }
            let r = self.get_value::<u64>();
            return match r {
                Ok(v) => Ok(Item::U64(v)),
                Err(e) => Err(e),
            };
        }
        proof {
            lemma_bare_number::<u128>(old(self)@.rest(), kind);
        }
        let r = self.get_value::<u128>();
        match r {
            Ok(v) => Ok(Item::U128(v)),
            Err(e) => Err(e),
        }
    }

    /// Reads the bare payload of a float as an item.
    fn get_float(&mut self, kind: ArrayKind) -> (r: Result<Item, Error>)
        requires
            kind == ArrayKind::BF16 || kind == ArrayKind::F16 || kind == ArrayKind::F32 || kind
                == ArrayKind::F64,
        ensures
            match parse_number(old(self)@.rest(), kind) {
                (Ok(bits), _) => r matches Ok(item) && item.shape() == number_shape(kind, bits),
                (Err(e), _) => r == Err::<Item, Error>(e),
            },
            final(self)@.follows(old(self)@, parse_number(old(self)@.rest(), kind).1),
    {
        if kind == ArrayKind::F16 {
            proof {
                lemma_bare_number::<u16>(old(self)@.rest(), kind);
            }
            let r = self.get_value::<u16>();
            return match r {
                Ok(v) => Ok(Item::F16(v)),
                Err(e) => Err(e),
            };
        }
        if kind == ArrayKind::F32 {
            proof {
                lemma_bare_number::<u32>(old(self)@.rest(), kind);
            }
            let r = self.get_value::<u32>();
            return match r {
                Ok(v) => Ok(Item::F32(v)),
                Err(e) => Err(e),
            };
        }
        if kind == ArrayKind::F64 {
            proof {
                lemma_bare_number::<u64>(old(self)@.rest(), kind);
            }
            let r = self.get_value::<u64>();
            return match r {
                Ok(v) => Ok(Item::F64(v)),
                Err(e) => Err(e),
            };
        }
        proof {
            lemma_bare_number::<u16>(old(self)@.rest(), kind);
        }
        let r = self.get_bf16_value();
        match r {
            Ok(v) => Ok(Item::F32(v)),
            Err(e) => Err(e),
        }
    }

    /// Reads the start of an array: a header that announces one, then the
    /// length. The handle that is returned reads the elements.
    pub fn deserialize_seq(&mut self) -> (r: Result<SeqDeserializer<'_, 'de>, Error>)
        ensures
            match parse_seq(old(self)@.rest()) {
                (Ok((len, kind)), used) => r matches Ok(seq) && seq.len == len && seq.kind == kind
                    && seq.index == 0 && seq.deserializer@.follows(old(self)@, used) && *final(self)
                    == *final(seq.deserializer),
                (Err(e), used) => (r matches Err(err) && err == e) && final(self)@.follows(
                    old(self)@,
                    used,
                ),
            },
    {
        let header: u8 = self.get_byte()?;
        let ghost mid = self@;
        match ArrayKind::from_header(header) {
            Some(kind) => {
                let size = self.get_size();
                proof {
                    lemma_follows(old(self)@, mid, self@, 1, parse_size(mid.rest()).1);
                }
                let size = size?;
                Ok(SeqDeserializer::new(self, size, kind))
            },
            None => Err(Error::WrongType { expected: "array", found: header_name(header) }),
        }
    }

    /// Reads the start of an object: a header that announces one, then
    /// the length. The handle that is returned reads the entries.
    pub fn deserialize_map(&mut self) -> (r: Result<MapDeserializer<'_, 'de>, Error>)
        ensures
            match parse_map(old(self)@.rest()) {
                (Ok((len, kind)), used) => r matches Ok(map) && map.len == len && map.kind == kind
                    && map.index == 0 && map.deserializer@.follows(old(self)@, used) && *final(self)
                    == *final(map.deserializer),
                (Err(e), used) => (r matches Err(err) && err == e) && final(self)@.follows(
                    old(self)@,
                    used,
                ),
            },
    {
        let header: u8 = self.get_byte()?;
        let ghost mid = self@;
        match ObjectKind::from_header(header) {
            Some(kind) => {
                let size = self.get_size();
                proof {
                    lemma_follows(old(self)@, mid, self@, 1, parse_size(mid.rest()).1);
                }
                let size = size?;
                Ok(MapDeserializer::new(self, size, kind))
            },
            None => Err(Error::WrongType { expected: "object", found: header_name(header) }),
        }
    }

    /// Reads the start of an array of exactly the given kind.
    pub fn deserialize_array(&mut self, kind: ArrayKind) -> (r: Result<
        SeqDeserializer<'_, 'de>,
        Error,
    >)
        ensures
            match parse_sized(old(self)@.rest(), kind.spec_array_header()) {
                (Ok(len), used) => r matches Ok(seq) && seq.len == len && seq.kind == kind
                    && seq.index == 0 && seq.deserializer@.follows(old(self)@, used) && *final(self)
                    == *final(seq.deserializer),
                (Err(e), used) => (r matches Err(err) && err == e) && final(self)@.follows(
                    old(self)@,
                    used,
                ),
            },
    {
        let size = self.deserialize_sized(kind.array_header())?;
        Ok(SeqDeserializer::new(self, size, kind))
    }

    /// Reads the start of an object with keys of exactly the given kind.
    pub fn deserialize_object(&mut self, kind: ObjectKind) -> (r: Result<
        MapDeserializer<'_, 'de>,
        Error,
    >)
        ensures
            match parse_sized(old(self)@.rest(), kind.spec_header()) {
                (Ok(len), used) => r matches Ok(map) && map.len == len && map.kind == kind
                    && map.index == 0 && map.deserializer@.follows(old(self)@, used) && *final(self)
                    == *final(map.deserializer),
                (Err(e), used) => (r matches Err(err) && err == e) && final(self)@.follows(
                    old(self)@,
                    used,
                ),
            },
    {
        let size = self.deserialize_sized(kind.header())?;
        Ok(MapDeserializer::new(self, size, kind))
    }

    /// Reads the start of a variant: the tag header. The handle that is
    /// returned reads the index and the payload.
    pub fn deserialize_enum(&mut self) -> (r: Result<EnumDeserializer<'_, 'de>, Error>)
        ensures
            match after_header(old(self)@.rest(), TAG, (Ok::<(), Error>(()), 0)) {
                (Ok(_), used) => r matches Ok(variant) && variant.deserializer@.follows(
                    old(self)@,
                    used,
                ) && *final(self) == *final(variant.deserializer),
                (Err(e), used) => (r matches Err(err) && err == e) && final(self)@.follows(
                    old(self)@,
                    used,
                ),
            },
    {
        self.expect_header(TAG)?;
        Ok(EnumDeserializer::new(self))
    }
}

/// Reading a number behind its header is what reading whatever comes
/// next does when that header comes next.
proof fn lemma_any_number<T: Scalar>(s: Seq<u8>, kind: ArrayKind)
    requires
        s.len() > 0,
        scalar_kind(s[0]) == Some(kind),
        T::width() == kind_width(kind),
    ensures
        match parse_headed::<T>(s, s[0]) {
            (Ok(v), used) => parse_any(s) == (Ok::<Shape, Error>(number_shape(kind, v.bits())),
                used),
            (Err(e), used) => parse_any(s) == (Err::<Shape, Error>(e), used),
        },
{
    let tail = s.skip(1);
    if tail.len() >= T::width() {
        lemma_le_value_bound(tail.take(T::width() as int));
        T::lemma_of_bits(le_value(tail.take(T::width() as int)));
    }
}

/// Reading the bare payload of a number type is reading a number of the
/// kind of that width.
proof fn lemma_bare_number<T: Scalar>(s: Seq<u8>, kind: ArrayKind)
    requires
        T::width() == kind_width(kind),
    ensures
        match parse_num::<T>(s) {
            (Ok(v), used) => parse_number(s, kind) == (Ok::<nat, Error>(v.bits()), used),
            (Err(e), used) => parse_number(s, kind) == (Err::<nat, Error>(e), used),
        },
{
    if s.len() >= T::width() {
        lemma_le_value_bound(s.take(T::width() as int));
        T::lemma_of_bits(le_value(s.take(T::width() as int)));
    }
}

/// Skipping moves the remaining bytes along: what is left after `n` bytes
/// are delivered is the rest without its first `n` bytes.
pub proof fn lemma_skip_rest(c: Cursor, n: nat)
    requires
        c.wf(),
        n <= c.rest().len(),
    ensures
        c.skip(n).rest() == c.rest().skip(n as int),
        c.skip(n).wf(),
{
    assert(c.skip(n).rest() =~= c.rest().skip(n as int));
}

/// Two reads in a row are one read of both lengths.
pub proof fn lemma_follows(pre: Cursor, mid: Cursor, post: Cursor, n: nat, m: nat)
    requires
        mid.follows(pre, n),
        post.follows(mid, m),
    ensures
        post.follows(pre, n + m),
{
    assert(pre.rest().skip(n as int).skip(m as int) =~= pre.rest().skip((n + m) as int));
}

} // verus!
