//! The handle through which the elements of an array are decoded.
use vstd::prelude::*;
use crate::bits::{bit_of, test_bit};
use crate::de::{
    parse_any, parse_bool, parse_byte, parse_headed, parse_num, parse_number, parse_string,
    parse_text, number_shape, Deserializer, Item, Shape,
};
use crate::error::Error;
use crate::headers::{
    ArrayKind, F32, F64, I128, I16, I32, I64, I8, U128, U16, U32, U64, U8,
};
use crate::scalar::Scalar;

verus! {

/// Reads the elements of one array, one at a time. The elements of a
/// homogeneous array have no header: they are read as the kind of the
/// array, and asking for another kind is an error. The elements of a
/// generic array are read as values of their own.
pub struct SeqDeserializer<'a, 'de> {
    pub deserializer: &'a mut Deserializer<'de>,
    /// The declared number of elements.
    pub len: usize,
    /// The number of elements read so far.
    pub index: usize,
    pub kind: ArrayKind,
    /// The byte of packed booleans that is being handed out bit by bit.
    pub hold: u8,
}

/// What reading one element as a number of kind `want` gives in an array
/// of `kind`: the bare payload where the kinds agree, a value with its
/// header in a generic array, and a mismatch otherwise.
pub open spec fn element_num<T: Scalar>(kind: ArrayKind, want: ArrayKind, header: u8,
    s: Seq<u8>) -> (
    Result<T, Error>,
    nat,
) {
    if kind == want {
        parse_num::<T>(s)
    } else if kind == ArrayKind::Generic {
        parse_headed::<T>(s, header)
    } else {
        (Err(Error::MismatchedElementType { expected: want, found: kind }), 0)
    }
}

/// What reading one element as a boolean gives. In an array of booleans
/// element `index` is bit `index % 8` of a byte that is taken from the
/// stream when `index` is a multiple of eight and held for the seven
/// elements after it.
pub open spec fn element_bool(kind: ArrayKind, index: usize, hold: u8, s: Seq<u8>) -> (
    Result<bool, Error>,
    nat,
) {
    if kind == ArrayKind::Boolean {
        if index % 8 == 0 {
            match parse_byte(s) {
                (Ok(byte), used) => (Ok(bit_of(byte, 0)), used),
                (Err(e), used) => (Err(e), used),
            }
        } else {
            (Ok(bit_of(hold, (index % 8) as nat)), 0)
        }
    } else if kind == ArrayKind::Generic {
        parse_bool(s)
    } else {
        (Err(Error::MismatchedElementType { expected: ArrayKind::Boolean, found: kind }), 0)
    }
}

/// The byte held after an element was read as a boolean.
pub open spec fn element_hold(kind: ArrayKind, index: usize, hold: u8, s: Seq<u8>) -> u8 {
    if kind == ArrayKind::Boolean && index % 8 == 0 && s.len() > 0 {
        s[0]
    } else {
        hold
    }
}

/// What reading one element as a string gives.
pub open spec fn element_text(kind: ArrayKind, s: Seq<u8>) -> (Result<Seq<char>, Error>, nat) {
    if kind == ArrayKind::String {
        parse_text(s)
    } else if kind == ArrayKind::Generic {
        parse_string(s)
    } else {
        (Err(Error::MismatchedElementType { expected: ArrayKind::String, found: kind }), 0)
    }
}

/// What reading one element as whatever the array holds gives.
pub open spec fn element_any(kind: ArrayKind, index: usize, hold: u8, s: Seq<u8>) -> (
    Result<Shape, Error>,
    nat,
) {
    match kind {
        ArrayKind::Generic => parse_any(s),
        ArrayKind::String => match parse_text(s) {
            (Ok(chars), used) => (Ok(Shape::Text(chars)), used),
            (Err(e), used) => (Err(e), used),
        },
        ArrayKind::Boolean => match element_bool(kind, index, hold, s) {
            (Ok(v), used) => (Ok(Shape::Bool(v)), used),
            (Err(e), used) => (Err(e), used),
        },
        _ => match parse_number(s, kind) {
            (Ok(bits), used) => (Ok(number_shape(kind, bits)), used),
            (Err(e), used) => (Err(e), used),
        },
    }
}

impl<'a, 'de> SeqDeserializer<'a, 'de> {
    /// A handle for an array of `len` elements of `kind` that starts where
    /// `deserializer` stands.
    pub fn new(deserializer: &'a mut Deserializer<'de>, len: usize, kind: ArrayKind) -> (seq: Self)
        ensures
            seq.len == len,
            seq.kind == kind,
            seq.index == 0,
            seq.hold == 0,
            *seq.deserializer == *old(deserializer),
            *final(seq.deserializer) == *final(deserializer),
    {
        Self { deserializer, len, kind, index: 0, hold: 0 }
    }

    /// Whether every declared element was read.
    pub fn is_done(&self) -> (done: bool)
        ensures
            done == (self.index >= self.len),
    {
        self.index >= self.len
    }

    /// The number of declared elements that are still to be read.
    pub fn size_hint(&self) -> (hint: Option<usize>)
        ensures
            hint == Some(
                if self.index >= self.len {
                    0usize
                } else {
                    (self.len - self.index) as usize
                },
            ),
    {
        if self.index >= self.len {
            Some(0)
        } else {
            Some(self.len - self.index)
        }
    }

    /// `self` is `pre` after a read with the given outcome: at the end of
    /// the array nothing is read and the result is `None`; otherwise the
    /// bytes of the outcome are taken, and a read that succeeds counts one
    /// element.
    pub open spec fn stepped<T>(
        self,
        pre: Self,
        r: Result<Option<T>, Error>,
        outcome: (Result<T, Error>, nat),
    ) -> bool {
        &&& self.len == pre.len
        &&& self.kind == pre.kind
        &&& if pre.index >= pre.len {
            &&& r == Ok::<Option<T>, Error>(None)
            &&& self.index == pre.index
            &&& self.deserializer@ == pre.deserializer@
        } else {
            &&& match outcome.0 {
                Ok(v) => r == Ok::<Option<T>, Error>(Some(v)) && self.index == pre.index + 1,
                Err(e) => r == Err::<Option<T>, Error>(e) && self.index == pre.index,
            }
            &&& self.deserializer@.follows(pre.deserializer@, outcome.1)
        }
    }

    /// Reads the next element as a number of kind `want`, whose header as
    /// a value of its own is `header`.
    pub fn next_num<T: Scalar>(&mut self, want: ArrayKind, header: u8) -> (r: Result<
        Option<T>,
        Error,
    >)
        ensures
            final(self).stepped(
                *old(self),
                r,
                element_num::<T>(old(self).kind, want, header, old(self).deserializer@.rest()),
            ),
            final(self).hold == old(self).hold,
            *final(final(self).deserializer) == *final(old(self).deserializer),
    {
        if self.index >= self.len {
            return Ok(None);
        }
        let r = if self.kind == want {
            self.deserializer.get_value::<T>()
        } else if self.kind == ArrayKind::Generic {
            self.deserializer.deserialize_num::<T>(header)
        } else {
            self.deserializer.touch();
            Err(Error::MismatchedElementType { expected: want, found: self.kind })
        };
        match r {
            Ok(v) => {
                self.index = self.index + 1;
                Ok(Some(v))
            },
            Err(e) => Err(e),
        }
    }

    /// Reads the next element as a boolean.
    pub fn next_bool(&mut self) -> (r: Result<Option<bool>, Error>)
        ensures
            final(self).stepped(
                *old(self),
                r,
                element_bool(
                    old(self).kind,
                    old(self).index,
                    old(self).hold,
                    old(self).deserializer@.rest(),
                ),
            ),
            old(self).index < old(self).len ==> final(self).hold == element_hold(
                old(self).kind,
                old(self).index,
                old(self).hold,
                old(self).deserializer@.rest(),
            ),
            old(self).index >= old(self).len ==> final(self).hold == old(self).hold,
            *final(final(self).deserializer) == *final(old(self).deserializer),
    {
        if self.index >= self.len {
            return Ok(None);
        }
        let r = if self.kind == ArrayKind::Boolean {
            let sub: usize = self.index % 8;
            if sub == 0 {
                match self.deserializer.get_byte() {
                    Ok(byte) => {
                        self.hold = byte;
                        Ok(test_bit(byte, 0))
                    },
                    Err(e) => Err(e),
                }
            } else {
                self.deserializer.touch();
                Ok(test_bit(self.hold, sub))
            }
        } else if self.kind == ArrayKind::Generic {
            self.deserializer.deserialize_bool()
        } else {
            self.deserializer.touch();
            Err(Error::MismatchedElementType { expected: ArrayKind::Boolean, found: self.kind })
        };
        match r {
            Ok(v) => {
                self.index = self.index + 1;
                Ok(Some(v))
            },
            Err(e) => Err(e),
        }
    }

    /// Reads the next element as a string.
    pub fn next_string(&mut self) -> (r: Result<Option<String>, Error>)
        ensures
            final(self).len == old(self).len,
            final(self).kind == old(self).kind,
            final(self).hold == old(self).hold,
            old(self).index >= old(self).len ==> (r matches Ok(None))
                && final(self).index == old(self).index
                && final(self).deserializer@ == old(self).deserializer@,
            old(self).index < old(self).len ==> (match element_text(
                old(self).kind,
                old(self).deserializer@.rest(),
            ) {
                (Ok(chars), used) => (r matches Ok(Some(s)) && s@ == chars) && final(self).index
                    == old(self).index + 1 && final(self).deserializer@.follows(
                    old(self).deserializer@,
                    used,
                ),
                (Err(e), used) => (r matches Err(err) && err == e)
                    && final(self).index == old(self).index
                    && final(self).deserializer@.follows(old(self).deserializer@, used),
            }),
            *final(final(self).deserializer) == *final(old(self).deserializer),
    {
        if self.index >= self.len {
            return Ok(None);
        }
        let r = if self.kind == ArrayKind::String {
            self.deserializer.get_string_value()
        } else if self.kind == ArrayKind::Generic {
            self.deserializer.deserialize_string()
        } else {
            self.deserializer.touch();
            Err(Error::MismatchedElementType { expected: ArrayKind::String, found: self.kind })
        };
        match r {
            Ok(v) => {
                self.index = self.index + 1;
                Ok(Some(v))
            },
            Err(e) => Err(e),
        }
    }

    /// Reads the next element as whatever the array holds: a value of its
    /// own in a generic array, and an element of the kind of the array
    /// otherwise. A brain float comes as the 32-bit float it widens to.
    pub fn next_element(&mut self) -> (r: Result<Option<Item>, Error>)
        ensures
            final(self).len == old(self).len,
            final(self).kind == old(self).kind,
            old(self).index >= old(self).len ==> (r matches Ok(None))
                && final(self).index == old(self).index
                && final(self).deserializer@ == old(self).deserializer@ && final(self).hold
                == old(self).hold,
            old(self).index < old(self).len ==> (match element_any(
                old(self).kind,
                old(self).index,
                old(self).hold,
                old(self).deserializer@.rest(),
            ) {
                (Ok(shape), used) => (r matches Ok(Some(item)) && item.shape() == shape)
                    && final(self).index == old(self).index + 1
                    && final(self).deserializer@.rest()
                    == old(self).deserializer@.rest().skip(used as int),
                (Err(e), used) => (r matches Err(err) && err == e)
                    && final(self).index == old(self).index
                    && final(self).deserializer@.rest() == old(self).deserializer@.rest().skip(
                    used as int,
                ),
            }),
            old(self).index < old(self).len ==> final(self).deserializer@ == (if old(self).kind
                == ArrayKind::Generic {
                old(self).deserializer@.peeked()
            } else {
                old(self).deserializer@
            }).skip(
                element_any(
                    old(self).kind,
                    old(self).index,
                    old(self).hold,
                    old(self).deserializer@.rest(),
                ).1,
            ),
            old(self).index < old(self).len ==> final(self).hold == element_hold(
                old(self).kind,
                old(self).index,
                old(self).hold,
                old(self).deserializer@.rest(),
            ),
            *final(final(self).deserializer) == *final(old(self).deserializer),
    {
        if self.index >= self.len {
            return Ok(None);
        }
        let r = match self.kind {
            ArrayKind::Generic => self.deserializer.deserialize_any(),
            ArrayKind::String => match self.deserializer.get_string_value() {
                Ok(s) => Ok(Item::String(s)),
                Err(e) => Err(e),
            },
            ArrayKind::Boolean => {
                return match self.next_bool() {
                    Ok(Some(v)) => Ok(Some(Item::Bool(v))),
                    Ok(None) => Ok(None),
                    Err(e) => Err(e),
                };
            },
            kind => self.deserializer.get_number(kind),
        };
        match r {
            Ok(v) => {
                self.index = self.index + 1;
                Ok(Some(v))
            },
            Err(e) => Err(e),
        }
    }

    /// Reads the next element as an `i8`.
    pub fn next_i8(&mut self) -> (r: Result<Option<i8>, Error>)
        ensures
            final(self).stepped(
                *old(self),
                r,
                element_num::<i8>(
                    old(self).kind,
                    ArrayKind::I8,
                    I8,
                    old(self).deserializer@.rest(),
                ),
            ),
            final(self).hold == old(self).hold,
            *final(final(self).deserializer) == *final(old(self).deserializer),
    {
        self.next_num(ArrayKind::I8, I8)
    }

    /// Reads the next element as an `i16`.
    pub fn next_i16(&mut self) -> (r: Result<Option<i16>, Error>)
        ensures
            final(self).stepped(
                *old(self),
                r,
                element_num::<i16>(
                    old(self).kind,
                    ArrayKind::I16,
                    I16,
                    old(self).deserializer@.rest(),
                ),
            ),
            final(self).hold == old(self).hold,
            *final(final(self).deserializer) == *final(old(self).deserializer),
    {
        self.next_num(ArrayKind::I16, I16)
    }

    /// Reads the next element as an `i32`.
    pub fn next_i32(&mut self) -> (r: Result<Option<i32>, Error>)
        ensures
            final(self).stepped(
                *old(self),
                r,
                element_num::<i32>(
                    old(self).kind,
                    ArrayKind::I32,
                    I32,
                    old(self).deserializer@.rest(),
                ),
            ),
            final(self).hold == old(self).hold,
            *final(final(self).deserializer) == *final(old(self).deserializer),
    {
        self.next_num(ArrayKind::I32, I32)
    }

    /// Reads the next element as an `i64`.
    pub fn next_i64(&mut self) -> (r: Result<Option<i64>, Error>)
        ensures
            final(self).stepped(
                *old(self),
                r,
                element_num::<i64>(
                    old(self).kind,
                    ArrayKind::I64,
                    I64,
                    old(self).deserializer@.rest(),
                ),
            ),
            final(self).hold == old(self).hold,
            *final(final(self).deserializer) == *final(old(self).deserializer),
    {
        self.next_num(ArrayKind::I64, I64)
    }

    /// Reads the next element as an `i128`.
    pub fn next_i128(&mut self) -> (r: Result<Option<i128>, Error>)
        ensures
            final(self).stepped(
                *old(self),
                r,
                element_num::<i128>(
                    old(self).kind,
                    ArrayKind::I128,
                    I128,
                    old(self).deserializer@.rest(),
                ),
            ),
            final(self).hold == old(self).hold,
            *final(final(self).deserializer) == *final(old(self).deserializer),
    {
        self.next_num(ArrayKind::I128, I128)
    }

    /// Reads the next element as an `u8`.
    pub fn next_u8(&mut self) -> (r: Result<Option<u8>, Error>)
        ensures
            final(self).stepped(
                *old(self),
                r,
                element_num::<u8>(
                    old(self).kind,
                    ArrayKind::U8,
                    U8,
                    old(self).deserializer@.rest(),
                ),
            ),
            final(self).hold == old(self).hold,
            *final(final(self).deserializer) == *final(old(self).deserializer),
    {
        self.next_num(ArrayKind::U8, U8)
    }

    /// Reads the next element as an `u16`.
    pub fn next_u16(&mut self) -> (r: Result<Option<u16>, Error>)
        ensures
            final(self).stepped(
                *old(self),
                r,
                element_num::<u16>(
                    old(self).kind,
                    ArrayKind::U16,
                    U16,
                    old(self).deserializer@.rest(),
                ),
            ),
            final(self).hold == old(self).hold,
            *final(final(self).deserializer) == *final(old(self).deserializer),
    {
        self.next_num(ArrayKind::U16, U16)
    }

    /// Reads the next element as an `u32`.
    pub fn next_u32(&mut self) -> (r: Result<Option<u32>, Error>)
        ensures
            final(self).stepped(
                *old(self),
                r,
                element_num::<u32>(
                    old(self).kind,
                    ArrayKind::U32,
                    U32,
                    old(self).deserializer@.rest(),
                ),
            ),
            final(self).hold == old(self).hold,
            *final(final(self).deserializer) == *final(old(self).deserializer),
    {
        self.next_num(ArrayKind::U32, U32)
    }

    /// Reads the next element as an `u64`.
    pub fn next_u64(&mut self) -> (r: Result<Option<u64>, Error>)
        ensures
            final(self).stepped(
                *old(self),
                r,
                element_num::<u64>(
                    old(self).kind,
                    ArrayKind::U64,
                    U64,
                    old(self).deserializer@.rest(),
                ),
            ),
            final(self).hold == old(self).hold,
            *final(final(self).deserializer) == *final(old(self).deserializer),
    {
        self.next_num(ArrayKind::U64, U64)
    }

    /// Reads the next element as an `u128`.
    pub fn next_u128(&mut self) -> (r: Result<Option<u128>, Error>)
        ensures
            final(self).stepped(
                *old(self),
                r,
                element_num::<u128>(
                    old(self).kind,
                    ArrayKind::U128,
                    U128,
                    old(self).deserializer@.rest(),
                ),
            ),
            final(self).hold == old(self).hold,
            *final(final(self).deserializer) == *final(old(self).deserializer),
    {
        self.next_num(ArrayKind::U128, U128)
    }

    /// Reads the next element as the bits of a float.
    pub fn next_f32(&mut self) -> (r: Result<Option<u32>, Error>)
        ensures
            final(self).stepped(
                *old(self),
                r,
                element_num::<u32>(
                    old(self).kind,
                    ArrayKind::F32,
                    F32,
                    old(self).deserializer@.rest(),
                ),
            ),
            final(self).hold == old(self).hold,
            *final(final(self).deserializer) == *final(old(self).deserializer),
    {
        self.next_num(ArrayKind::F32, F32)
    }

    /// Reads the next element as the bits of a float.
    pub fn next_f64(&mut self) -> (r: Result<Option<u64>, Error>)
        ensures
            final(self).stepped(
                *old(self),
                r,
                element_num::<u64>(
                    old(self).kind,
                    ArrayKind::F64,
                    F64,
                    old(self).deserializer@.rest(),
                ),
            ),
            final(self).hold == old(self).hold,
            *final(final(self).deserializer) == *final(old(self).deserializer),
    {
        self.next_num(ArrayKind::F64, F64)
    }
}

} // verus!
