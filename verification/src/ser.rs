//! Serialization logic.
pub mod map;
pub mod seq;

use vstd::prelude::*;
use vstd::slice::slice_to_vec;
use vstd::string::StringSliceAdditionalSpecFns;
use vstd::utf8::encode_utf8;
use crate::bytes::push_le;
use crate::error::Error;
use crate::headers::{ArrayKind, ObjectKind, TAG};
use crate::ser::map::MapSerializer;
use crate::ser::seq::SeqSerializer;
use crate::scalar::Scalar;
use crate::size::{lemma_size_width, size_bytes, SIZE_LIMIT};
use crate::text::char_to_string;
use crate::value::{
    chunk_wire, chunks_wire, entries_fit, entries_ok, entries_wire, list_wire, num_wire,
    nums_wire, str_entries_wire, Value,
};

verus! {

/// The encoder. It owns the bytes written so far and appends to them.
pub struct Serializer {
    writer: Vec<u8>,
}

impl View for Serializer {
    type V = Seq<u8>;

    /// The bytes written so far.
    closed spec fn view(&self) -> Seq<u8> {
        self.writer@
    }
}

impl Serializer {
    /// An encoder that appends to `writer`.
    pub fn new(writer: Vec<u8>) -> (serializer: Self)
        ensures
            serializer@ == writer@,
    {
        Self { writer }
    }

    /// Gives the bytes back.
    pub fn into_inner(self) -> (writer: Vec<u8>)
        ensures
            writer@ == self@,
    {
        self.writer
    }

    /// Drops what was written after the first `start` bytes.
    fn rewind(&mut self, start: usize)
        requires
            start <= old(self)@.len(),
        ensures
            final(self)@ == old(self)@.take(start as int),
    {
        self.writer.truncate(start);
    }

    /// The number of bytes written so far.
    fn mark(&self) -> (start: usize)
        ensures
            start == self@.len(),
    {
        self.writer.len()
    }

    /// Appends one byte.
    fn write_byte(&mut self, byte: u8)
        ensures
            final(self)@ == old(self)@ + seq![byte],
    {
        self.writer.push(byte);
        assert(self.writer@ =~= old(self).writer@ + seq![byte]);
    }

    /// Appends the bytes as they are.
    fn write_all(&mut self, bytes: &[u8])
        ensures
            final(self)@ == old(self)@ + bytes@,
    {
        let mut copy = slice_to_vec(bytes);
        self.writer.append(&mut copy);
    }

    /// Appends the little-endian payload of a number.
    fn write_num<T: Scalar>(&mut self, x: T)
        ensures
            final(self)@ == old(self)@ + num_wire(x),
    {
        push_le(&mut self.writer, x.to_bits(), T::byte_width());
    }

    /// Writes the numbers of `v` as a homogeneous array payload: their
    /// count, then each in little-endian bytes without a header.
    pub fn serialize_num_array<T: Scalar>(&mut self, v: &[T]) -> (r: Result<(), Error>)
        ensures
            v@.len() < SIZE_LIMIT ==> r == Ok::<(), Error>(()) && final(self)@ == old(self)@
                + size_bytes(v@.len()) + nums_wire(v@),
            v@.len() >= SIZE_LIMIT ==> r == Err::<(), Error>(Error::TooLong) && final(self)@
                == old(self)@,
    {
        self.serialize_size(v.len())?;
        let ghost base = self@;
        let mut i: usize = 0;
        assert(nums_wire(v@.take(0)) =~= Seq::<u8>::empty());
        assert(base + nums_wire(v@.take(0)) =~= base);
        while i < v.len()
            invariant
                i <= v@.len(),
                self@ == base + nums_wire(v@.take(i as int)),
            decreases v@.len() - i,
        {
            self.write_num(v[i]);
            proof {
                let next = v@.take(i + 1);
                assert(next.drop_last() =~= v@.take(i as int));
                assert(next.last() == v@[i as int]);
                assert(self@ =~= base + nums_wire(next));
            }
            i = i + 1;
        }
        assert(v@.take(v@.len() as int) =~= v@);
        assert(self@ =~= old(self)@ + size_bytes(v@.len()) + nums_wire(v@));
        Ok(())
    }

    /// Writes a length as a compressed integer: `size` shifted left by two
    /// bits with the width selector in the low bits, little-endian, in the
    /// smallest of 1, 2, 4 and 8 bytes that holds it. A length of 2^62 or
    /// more is `TooLong` and nothing is written.
    pub fn serialize_size(&mut self, size: usize) -> (r: Result<(), Error>)
        ensures
            size < SIZE_LIMIT ==> r == Ok::<(), Error>(()) && final(self)@ == old(self)@
                + size_bytes(size as nat),
            size >= SIZE_LIMIT ==> r == Err::<(), Error>(Error::TooLong)
                && final(self)@ == old(self)@,
    {
        let size: u64 = size as u64;
        if size >= SIZE_LIMIT {
            return Err(Error::TooLong);
        }
        proof {
            lemma_size_width(size as nat);
        }
        let shifted: u64 = size * 4;
        if size < 0x40 {
            push_le(&mut self.writer, shifted as u128, 1);
        } else if size < 0x4000 {
            push_le(&mut self.writer, (shifted + 1) as u128, 2);
        } else if size < 0x4000_0000 {
            push_le(&mut self.writer, (shifted + 2) as u128, 4);
        } else {
            push_le(&mut self.writer, (shifted + 3) as u128, 8);
        }
        Ok(())
    }

    /// Writes a string payload: the length of `value`, then its bytes.
    pub fn serialize_str_value(&mut self, value: &[u8]) -> (r: Result<(), Error>)
        ensures
            value@.len() < SIZE_LIMIT ==> r == Ok::<(), Error>(()) && final(self)@ == old(self)@
                + chunk_wire(value@),
            value@.len() >= SIZE_LIMIT ==> r == Err::<(), Error>(Error::TooLong) && final(self)@
                == old(self)@,
    {
        self.serialize_size(value.len())?;
        self.write_all(value);
        assert(self@ =~= old(self)@ + chunk_wire(value@));
        Ok(())
    }

    /// Writes the payload of a string array: the number of strings, then
    /// each with its length.
    fn write_chunks(&mut self, a: &Vec<Vec<u8>>) -> (r: Result<(), Error>)
        ensures
            chunks_fit(a@) ==> r == Ok::<(), Error>(()) && final(self)@ == old(self)@ + size_bytes(
                a@.len(),
            ) + chunks_wire(a@),
            !chunks_fit(a@) ==> r == Err::<(), Error>(Error::TooLong) && final(self)@ == old(self)@,
    {
        let start = self.mark();
        self.serialize_size(a.len())?;
        let ghost base = self@;
        let mut i: usize = 0;
        assert(base + chunks_wire(a@.take(0)) =~= base);
        while i < a.len()
            invariant
                i <= a@.len(),
                a@.len() < SIZE_LIMIT,
                start == old(self)@.len(),
                base == old(self)@ + size_bytes(a@.len()),
                self@ == base + chunks_wire(a@.take(i as int)),
                forall|j: int| 0 <= j < i ==> (#[trigger] a@[j])@.len() < SIZE_LIMIT,
            decreases a@.len() - i,
        {
            match self.serialize_str_value(a[i].as_slice()) {
                Ok(()) => {},
                Err(e) => {
                    self.rewind(start);
                    assert(self@ =~= old(self)@);
                    return Err(e);
                },
            }
            proof {
                let next = a@.take(i + 1);
                assert(next.drop_last() =~= a@.take(i as int));
                assert(next.last() == a@[i as int]);
                assert(self@ =~= base + chunks_wire(next));
            }
            i = i + 1;
        }
        assert(a@.take(a@.len() as int) =~= a@);
        Ok(())
    }

    /// Writes the payload of a generic array: the number of values, then
    /// each with its own header.
    fn write_list(&mut self, vs: &Vec<Value>) -> (r: Result<(), Error>)
        requires
            forall|i: int| 0 <= i < vs@.len() ==> (#[trigger] vs@[i]).serializable(),
        ensures
            list_fits(vs@) ==> r == Ok::<(), Error>(()) && final(self)@ == old(self)@ + size_bytes(
                vs@.len(),
            ) + list_wire(vs@, vs@.len()),
            !list_fits(vs@) ==> r == Err::<(), Error>(Error::TooLong) && final(self)@ == old(self)@,
        decreases vs,
    {
        let start = self.mark();
        self.serialize_size(vs.len())?;
        let ghost base = self@;
        let mut i: usize = 0;
        assert(base + list_wire(vs@, 0) =~= base);
        while i < vs.len()
            invariant
                i <= vs@.len(),
                vs@.len() < SIZE_LIMIT,
                start == old(self)@.len(),
                base == old(self)@ + size_bytes(vs@.len()),
                self@ == base + list_wire(vs@, i as nat),
                forall|j: int| 0 <= j < vs@.len() ==> (#[trigger] vs@[j]).serializable(),
                forall|j: int| 0 <= j < i ==> (#[trigger] vs@[j]).fits(),
            decreases vs@.len() - i,
        {
            match self.serialize_value(&vs[i]) {
                Ok(()) => {},
                Err(e) => {
                    self.rewind(start);
                    assert(self@ =~= old(self)@);
                    return Err(e);
                },
            }
            assert(self@ =~= base + list_wire(vs@, (i + 1) as nat));
            i = i + 1;
        }
        Ok(())
    }

    /// Writes the payload of an object with integer keys: the number of
    /// entries, then each key as its bare number and each value with its
    /// own header.
    fn write_entries<T: Scalar>(&mut self, es: &Vec<(T, Value)>) -> (r: Result<(), Error>)
        requires
            entries_ok(es@),
        ensures
            entries_fit(es@) ==> r == Ok::<(), Error>(()) && final(self)@ == old(self)@
                + size_bytes(es@.len()) + entries_wire(es@, es@.len()),
            !entries_fit(es@) ==> r == Err::<(), Error>(Error::TooLong)
                && final(self)@ == old(self)@,
        decreases es,
    {
        let start = self.mark();
        self.serialize_size(es.len())?;
        let ghost base = self@;
        let mut i: usize = 0;
        assert(base + entries_wire(es@, 0) =~= base);
        while i < es.len()
            invariant
                i <= es@.len(),
                es@.len() < SIZE_LIMIT,
                start == old(self)@.len(),
                base == old(self)@ + size_bytes(es@.len()),
                self@ == base + entries_wire(es@, i as nat),
                entries_ok(es@),
                forall|j: int| 0 <= j < i ==> (#[trigger] es@[j]).1.fits(),
            decreases es@.len() - i,
        {
            self.write_num(es[i].0);
            match self.serialize_value(&es[i].1) {
                Ok(()) => {},
                Err(e) => {
                    self.rewind(start);
                    assert(self@ =~= old(self)@);
                    return Err(e);
                },
            }
            assert(self@ =~= base + entries_wire(es@, (i + 1) as nat));
            i = i + 1;
        }
        Ok(())
    }

    /// Writes the payload of an object with string keys: the number of
    /// entries, then each key as length and bytes and each value with its
    /// own header.
    fn write_str_entries(&mut self, es: &Vec<(Vec<u8>, Value)>) -> (r: Result<(), Error>)
        requires
            entries_ok(es@),
        ensures
            str_entries_fit(es@) ==> r == Ok::<(), Error>(()) && final(self)@ == old(self)@
                + size_bytes(es@.len()) + str_entries_wire(es@, es@.len()),
            !str_entries_fit(es@) ==> r == Err::<(), Error>(Error::TooLong) && final(self)@
                == old(self)@,
        decreases es,
    {
        let start = self.mark();
        self.serialize_size(es.len())?;
        let ghost base = self@;
        let mut i: usize = 0;
        assert(base + str_entries_wire(es@, 0) =~= base);
        while i < es.len()
            invariant
                i <= es@.len(),
                es@.len() < SIZE_LIMIT,
                start == old(self)@.len(),
                base == old(self)@ + size_bytes(es@.len()),
                self@ == base + str_entries_wire(es@, i as nat),
                entries_ok(es@),
                forall|j: int| 0 <= j < i ==> (#[trigger] es@[j]).1.fits(),
                forall|j: int| 0 <= j < i ==> (#[trigger] es@[j]).0@.len() < SIZE_LIMIT,
            decreases es@.len() - i,
        {
            match self.serialize_str_value(es[i].0.as_slice()) {
                Ok(()) => {},
                Err(e) => {
                    self.rewind(start);
                    assert(self@ =~= old(self)@);
                    return Err(e);
                },
            }
            match self.serialize_value(&es[i].1) {
                Ok(()) => {},
                Err(e) => {
                    self.rewind(start);
                    assert(self@ =~= old(self)@);
                    return Err(e);
                },
            }
            assert(self@ =~= base + str_entries_wire(es@, (i + 1) as nat));
            i = i + 1;
        }
        Ok(())
    }

    /// Writes a value: its header, then its payload. Lengths go out as
    /// compressed integers, numbers in little-endian bytes, and the
    /// elements of homogeneous arrays and the keys of objects without a
    /// header of their own.
    ///
    /// The call succeeds exactly when every length in the value is below
    /// 2^62. Otherwise it fails with `TooLong` and leaves the output as it
    /// was.
    pub fn serialize_value(&mut self, value: &Value) -> (r: Result<(), Error>)
        requires
            value.serializable(),
        ensures
            value.fits() ==> r == Ok::<(), Error>(()) && final(self)@ == old(self)@ + value.wire(),
            !value.fits() ==> r == Err::<(), Error>(Error::TooLong) && final(self)@ == old(self)@,
        decreases value,
    {
        let start = self.mark();
        self.write_byte(value.header());
        let ghost base = self@;
        let r = match value {
            Value::Null | Value::True | Value::False => Ok(()),
            Value::I8(v) => {
                self.write_num(*v);
                Ok(())
            },
            Value::I16(v) => {
                self.write_num(*v);
                Ok(())
            },
            Value::I32(v) => {
                self.write_num(*v);
                Ok(())
            },
            Value::I64(v) => {
                self.write_num(*v);
                Ok(())
            },
            Value::I128(v) => {
                self.write_num(*v);
                Ok(())
            },
            Value::U8(v) => {
                self.write_num(*v);
                Ok(())
            },
            Value::U16(v) => {
                self.write_num(*v);
                Ok(())
            },
            Value::U32(v) => {
                self.write_num(*v);
                Ok(())
            },
            Value::U64(v) => {
                self.write_num(*v);
                Ok(())
            },
            Value::U128(v) => {
                self.write_num(*v);
                Ok(())
            },
            Value::F32(v) => {
                self.write_num(*v);
                Ok(())
            },
            Value::F64(v) => {
                self.write_num(*v);
                Ok(())
            },
            Value::String(v) => self.serialize_str_value(v.as_slice()),
            Value::StringObject(v) => self.write_str_entries(v),
            Value::I8Object(v) => self.write_entries(v),
            Value::I16Object(v) => self.write_entries(v),
            Value::I32Object(v) => self.write_entries(v),
            Value::I64Object(v) => self.write_entries(v),
            Value::I128Object(v) => self.write_entries(v),
            Value::U8Object(v) => self.write_entries(v),
            Value::U16Object(v) => self.write_entries(v),
            Value::U32Object(v) => self.write_entries(v),
            Value::U64Object(v) => self.write_entries(v),
            Value::U128Object(v) => self.write_entries(v),
            Value::F32Array(v) => self.serialize_num_array(v.as_slice()),
            Value::F64Array(v) => self.serialize_num_array(v.as_slice()),
            Value::I8Array(v) => self.serialize_num_array(v.as_slice()),
            Value::I16Array(v) => self.serialize_num_array(v.as_slice()),
            Value::I32Array(v) => self.serialize_num_array(v.as_slice()),
            Value::I64Array(v) => self.serialize_num_array(v.as_slice()),
            Value::I128Array(v) => self.serialize_num_array(v.as_slice()),
            Value::U8Array(v) => self.serialize_num_array(v.as_slice()),
            Value::U16Array(v) => self.serialize_num_array(v.as_slice()),
            Value::U32Array(v) => self.serialize_num_array(v.as_slice()),
            Value::U64Array(v) => self.serialize_num_array(v.as_slice()),
            Value::U128Array(v) => self.serialize_num_array(v.as_slice()),
            Value::BoolArray(len, v) => {
                match self.serialize_size(*len) {
                    Ok(()) => {
                        self.write_all(v.as_slice());
                        Ok(())
                    },
                    Err(e) => Err(e),
                }
            },
            Value::StringArray(v) => self.write_chunks(v),
            Value::GenericArray(v) => self.write_list(v),
            Value::Tag(tag, v) => {
                match self.serialize_size(*tag) {
                    Ok(()) => self.serialize_value(&**v),
                    Err(e) => Err(e),
                }
            },
            // Never written: `serializable` leaves these out.
            _ => Ok(()),
        };
        match r {
            Ok(()) => {
                assert(self@ =~= old(self)@ + value.wire());
                Ok(())
            },
            Err(e) => {
                self.rewind(start);
                assert(self@ =~= old(self)@);
                Err(e)
            },
        }
    }

    /// Writes a boolean: the header for true or the header for false.
    pub fn serialize_bool(&mut self, v: bool) -> (r: Result<Value, Error>)
        ensures
            r == Ok::<Value, Error>(if v { Value::True } else { Value::False }),
            final(self)@ == old(self)@ + (if v { Value::True } else { Value::False }).wire(),
    {
        let out = if v {
            Value::True
        } else {
            Value::False
        };
        self.serialize_value(&out)?;
        Ok(out)
    }

    /// Writes an integer: its header, then its little-endian bytes.
    pub fn serialize_i8(&mut self, v: i8) -> (r: Result<Value, Error>)
        ensures
            r == Ok::<Value, Error>(Value::I8(v)),
            final(self)@ == old(self)@ + Value::I8(v).wire(),
    {
        let out = Value::I8(v);
        self.serialize_value(&out)?;
        Ok(out)
    }

    /// Writes an integer: its header, then its little-endian bytes.
    pub fn serialize_i16(&mut self, v: i16) -> (r: Result<Value, Error>)
        ensures
            r == Ok::<Value, Error>(Value::I16(v)),
            final(self)@ == old(self)@ + Value::I16(v).wire(),
    {
        let out = Value::I16(v);
        self.serialize_value(&out)?;
        Ok(out)
    }

    /// Writes an integer: its header, then its little-endian bytes.
    pub fn serialize_i32(&mut self, v: i32) -> (r: Result<Value, Error>)
        ensures
            r == Ok::<Value, Error>(Value::I32(v)),
            final(self)@ == old(self)@ + Value::I32(v).wire(),
    {
        let out = Value::I32(v);
        self.serialize_value(&out)?;
        Ok(out)
    }

    /// Writes an integer: its header, then its little-endian bytes.
    pub fn serialize_i64(&mut self, v: i64) -> (r: Result<Value, Error>)
        ensures
            r == Ok::<Value, Error>(Value::I64(v)),
            final(self)@ == old(self)@ + Value::I64(v).wire(),
    {
        let out = Value::I64(v);
        self.serialize_value(&out)?;
        Ok(out)
    }

    /// Writes an integer: its header, then its little-endian bytes.
    pub fn serialize_i128(&mut self, v: i128) -> (r: Result<Value, Error>)
        ensures
            r == Ok::<Value, Error>(Value::I128(v)),
            final(self)@ == old(self)@ + Value::I128(v).wire(),
    {
        let out = Value::I128(v);
        self.serialize_value(&out)?;
        Ok(out)
    }

    /// Writes an integer: its header, then its little-endian bytes.
    pub fn serialize_u8(&mut self, v: u8) -> (r: Result<Value, Error>)
        ensures
            r == Ok::<Value, Error>(Value::U8(v)),
            final(self)@ == old(self)@ + Value::U8(v).wire(),
    {
        let out = Value::U8(v);
        self.serialize_value(&out)?;
        Ok(out)
    }

    /// Writes an integer: its header, then its little-endian bytes.
    pub fn serialize_u16(&mut self, v: u16) -> (r: Result<Value, Error>)
        ensures
            r == Ok::<Value, Error>(Value::U16(v)),
            final(self)@ == old(self)@ + Value::U16(v).wire(),
    {
        let out = Value::U16(v);
        self.serialize_value(&out)?;
        Ok(out)
    }

    /// Writes an integer: its header, then its little-endian bytes.
    pub fn serialize_u32(&mut self, v: u32) -> (r: Result<Value, Error>)
        ensures
            r == Ok::<Value, Error>(Value::U32(v)),
            final(self)@ == old(self)@ + Value::U32(v).wire(),
    {
        let out = Value::U32(v);
        self.serialize_value(&out)?;
        Ok(out)
    }

    /// Writes an integer: its header, then its little-endian bytes.
    pub fn serialize_u64(&mut self, v: u64) -> (r: Result<Value, Error>)
        ensures
            r == Ok::<Value, Error>(Value::U64(v)),
            final(self)@ == old(self)@ + Value::U64(v).wire(),
    {
        let out = Value::U64(v);
        self.serialize_value(&out)?;
        Ok(out)
    }

    /// Writes an integer: its header, then its little-endian bytes.
    pub fn serialize_u128(&mut self, v: u128) -> (r: Result<Value, Error>)
        ensures
            r == Ok::<Value, Error>(Value::U128(v)),
            final(self)@ == old(self)@ + Value::U128(v).wire(),
    {
        let out = Value::U128(v);
        self.serialize_value(&out)?;
        Ok(out)
    }

    /// Writes the bit pattern of a float: its header, then its little-endian bytes.
    pub fn serialize_f32(&mut self, v: u32) -> (r: Result<Value, Error>)
        ensures
            r == Ok::<Value, Error>(Value::F32(v)),
            final(self)@ == old(self)@ + Value::F32(v).wire(),
    {
        let out = Value::F32(v);
        self.serialize_value(&out)?;
        Ok(out)
    }

    /// Writes the bit pattern of a float: its header, then its little-endian bytes.
    pub fn serialize_f64(&mut self, v: u64) -> (r: Result<Value, Error>)
        ensures
            r == Ok::<Value, Error>(Value::F64(v)),
            final(self)@ == old(self)@ + Value::F64(v).wire(),
    {
        let out = Value::F64(v);
        self.serialize_value(&out)?;
        Ok(out)
    }

    /// Writes a character as the string of that one character.
    pub fn serialize_char(&mut self, v: char) -> (r: Result<Value, Error>)
        ensures
            r matches Ok(Value::String(bytes)) && bytes@ == encode_utf8(seq![v]) && final(self)@
                == old(self)@ + Value::String(bytes).wire(),
    {
        let s = char_to_string(v);
        proof {
            lemma_short_text(seq![v]);
        }
        self.serialize_str(s.as_str())
    }

    /// Writes a string: its header, its length in bytes and its UTF-8
    /// bytes. A string of 2^62 bytes or more is `TooLong`, and nothing is
    /// written.
    pub fn serialize_str(&mut self, v: &str) -> (r: Result<Value, Error>)
        ensures
            v.spec_bytes().len() < SIZE_LIMIT ==> (r matches Ok(Value::String(bytes)) && bytes@
                == v.spec_bytes() && final(self)@ == old(self)@ + Value::String(bytes).wire()),
            v.spec_bytes().len() >= SIZE_LIMIT ==> r == Err::<Value, Error>(Error::TooLong)
                && final(self)@ == old(self)@,
    {
        let out = Value::String(slice_to_vec(v.as_bytes()));
        self.serialize_value(&out)?;
        Ok(out)
    }

    /// Writes bytes as an array of 8-bit unsigned integers.
    pub fn serialize_bytes(&mut self, v: &[u8]) -> (r: Result<Value, Error>)
        ensures
            v@.len() < SIZE_LIMIT ==> (r matches Ok(Value::U8Array(bytes)) && bytes@ == v@
                && final(self)@ == old(self)@ + Value::U8Array(bytes).wire()),
            v@.len() >= SIZE_LIMIT ==> r == Err::<Value, Error>(Error::TooLong) && final(self)@
                == old(self)@,
    {
        let out = Value::U8Array(slice_to_vec(v));
        self.serialize_value(&out)?;
        Ok(out)
    }

    /// Writes an absent value: the null header.
    pub fn serialize_none(&mut self) -> (r: Result<Value, Error>)
        ensures
            r == Ok::<Value, Error>(Value::Null),
            final(self)@ == old(self)@ + Value::Null.wire(),
    {
        self.serialize_unit()
    }

    /// Writes the unit value: the null header.
    pub fn serialize_unit(&mut self) -> (r: Result<Value, Error>)
        ensures
            r == Ok::<Value, Error>(Value::Null),
            final(self)@ == old(self)@ + Value::Null.wire(),
    {
        self.serialize_value(&Value::Null)?;
        Ok(Value::Null)
    }

    /// Writes the start of a variant: the tag header, then the index of
    /// the variant as a compressed integer. The payload of the variant
    /// follows through the other operations.
    pub fn serialize_variant(&mut self, variant_index: u32) -> (r: Result<(), Error>)
        ensures
            r == Ok::<(), Error>(()),
            final(self)@ == old(self)@ + seq![TAG] + size_bytes(variant_index as nat),
    {
        self.write_byte(TAG);
        self.serialize_size(variant_index as usize)?;
        Ok(())
    }

    /// Writes a variant without a payload: the tag header, the index, and
    /// a null.
    pub fn serialize_unit_variant(&mut self, variant_index: u32) -> (r: Result<Value, Error>)
        ensures
            r matches Ok(Value::Tag(index, inner)) && index == variant_index && *inner
                == Value::Null && final(self)@ == old(self)@ + Value::Tag(index, inner).wire(),
    {
        let out = Value::Tag(variant_index as usize, Box::new(Value::Null));
        proof {
            reveal_with_fuel(Value::serializable, 2);
            reveal_with_fuel(Value::fits, 2);
        }
        self.serialize_value(&out)?;
        Ok(out)
    }

    /// Writes a variant with one value: the tag header, the index, and
    /// the value. It fails with `TooLong`, and writes nothing, exactly when
    /// a length in the value is 2^62 or more.
    pub fn serialize_newtype_variant(&mut self, variant_index: u32, value: Value) -> (r: Result<
        Value,
        Error,
    >)
        requires
            value.serializable(),
        ensures
            value.fits() ==> (r matches Ok(Value::Tag(index, inner)) && index == variant_index
                && *inner == value && final(self)@ == old(self)@ + Value::Tag(index, inner).wire()),
            !value.fits() ==> r == Err::<Value, Error>(Error::TooLong)
                && final(self)@ == old(self)@,
    {
        let out = Value::Tag(variant_index as usize, Box::new(value));
        self.serialize_value(&out)?;
        Ok(out)
    }

    /// Begins a sequence: a handle that buffers the elements and writes the
    /// array when it ends.
    pub fn serialize_seq(&mut self, _len: Option<usize>) -> (r: Result<SeqSerializer<'_>, Error>)
        ensures
            r matches Ok(seq) && seq.fresh(None, true, None) && *seq.serializer == *old(self)
                && *final(seq.serializer)
                == *final(self),
    {
        Ok(SeqSerializer::new(self))
    }

    /// Begins a tuple: a handle that buffers the elements and writes them
    /// as a generic array when it ends, whatever their kinds.
    pub fn serialize_tuple(&mut self, _len: usize) -> (r: Result<SeqSerializer<'_>, Error>)
        ensures
            r matches Ok(seq) && seq.fresh(Some(ArrayKind::Generic), true, None)
                && *seq.serializer == *old(self) && *final(seq.serializer) == *final(self),
    {
        let mut seq = SeqSerializer::new(self);
        seq.ensure_generic();
        Ok(seq)
    }

    /// Begins a tuple struct: a handle that buffers the elements and writes them
    /// as a generic array when it ends, whatever their kinds.
    pub fn serialize_tuple_struct(&mut self, _len: usize) -> (r: Result<SeqSerializer<'_>, Error>)
        ensures
            r matches Ok(seq) && seq.fresh(Some(ArrayKind::Generic), true, None)
                && *seq.serializer == *old(self) && *final(seq.serializer) == *final(self),
    {
        let mut seq = SeqSerializer::new(self);
        seq.ensure_generic();
        Ok(seq)
    }

    /// Begins a tuple variant: writes the tag header and the index, and
    /// gives a handle that buffers the elements and writes them as a
    /// generic array when it ends.
    pub fn serialize_tuple_variant(&mut self, variant_index: u32, _len: usize) -> (r: Result<
        SeqSerializer<'_>,
        Error,
    >)
        ensures
            r matches Ok(seq) && seq.fresh(Some(ArrayKind::Generic), true, None)
                && seq.serializer@ == old(self)@ + seq![TAG]
                + size_bytes(variant_index as nat) && *final(seq.serializer) == *final(self),
    {
        self.serialize_variant(variant_index)?;
        let mut seq = SeqSerializer::new(self);
        seq.ensure_generic();
        Ok(seq)
    }

    /// Begins a map: a handle that buffers the entries and writes the
    /// object when it ends. The first key fixes the kind of the keys.
    pub fn serialize_map(&mut self, _len: Option<usize>) -> (r: Result<MapSerializer<'_>, Error>)
        ensures
            r matches Ok(map) && map.fresh(None, true, None) && *map.serializer == *old(self)
                && *final(map.serializer) == *final(self),
    {
        Ok(MapSerializer::new(self, None))
    }

    /// Begins a struct: a map whose keys are strings from the start.
    pub fn serialize_struct(&mut self, _len: usize) -> (r: Result<MapSerializer<'_>, Error>)
        ensures
            r matches Ok(map) && map.fresh(Some(ObjectKind::String), true, None)
                && *map.serializer == *old(self) && *final(map.serializer) == *final(self),
    {
        Ok(MapSerializer::new(self, Some(ObjectKind::String)))
    }

    /// Begins a struct variant: writes the tag header and the index, and
    /// gives the handle of a struct.
    pub fn serialize_struct_variant(&mut self, variant_index: u32, _len: usize) -> (r: Result<
        MapSerializer<'_>,
        Error,
    >)
        ensures
            r matches Ok(map) && map.fresh(Some(ObjectKind::String), true, None)
                && map.serializer@ == old(self)@ + seq![TAG] + size_bytes(variant_index as nat)
                && *final(map.serializer) == *final(self),
    {
        self.serialize_variant(variant_index)?;
        Ok(MapSerializer::new(self, Some(ObjectKind::String)))
    }
}

/// The UTF-8 bytes of one character are few.
proof fn lemma_short_text(chars: Seq<char>)
    requires
        chars.len() == 1,
    ensures
        encode_utf8(chars).len() <= 4,
{
    reveal_with_fuel(encode_utf8, 3);
    assert(chars.drop_first().len() == 0);
}

/// The number of strings and the length of each fit the format.
pub open spec fn chunks_fit(a: Seq<Vec<u8>>) -> bool {
    &&& a.len() < SIZE_LIMIT
    &&& forall|i: int| 0 <= i < a.len() ==> (#[trigger] a[i])@.len() < SIZE_LIMIT
}

/// The number of values and each of them fit the format.
pub open spec fn list_fits(vs: Seq<Value>) -> bool {
    &&& vs.len() < SIZE_LIMIT
    &&& forall|i: int| 0 <= i < vs.len() ==> (#[trigger] vs[i]).fits()
}

/// The number of entries, the length of each key and each value fit the
/// format.
pub open spec fn str_entries_fit(es: Seq<(Vec<u8>, Value)>) -> bool {
    &&& entries_fit(es)
    &&& forall|i: int| 0 <= i < es.len() ==> (#[trigger] es[i]).0@.len() < SIZE_LIMIT
}

} // verus!
