//! The handle through which the entries of an object are decoded.
use vstd::prelude::*;
use crate::de::{number_shape, parse_any, parse_number, parse_text, Deserializer, Item, Shape};
use crate::error::Error;
use crate::headers::{ObjectKind};

verus! {

/// Reads the entries of one object, key and value in turn. The keys have
/// no header: they are read as the kind of the object. The values are
/// values of their own.
pub struct MapDeserializer<'a, 'de> {
    pub deserializer: &'a mut Deserializer<'de>,
    /// The declared number of entries.
    pub len: usize,
    /// The number of keys read so far.
    pub index: usize,
    pub kind: ObjectKind,
}

/// What reading one key of an object of `kind` gives: a string as length
/// and bytes, an integer as its bare payload.
pub open spec fn key_any(kind: ObjectKind, s: Seq<u8>) -> (Result<Shape, Error>, nat) {
    if kind == ObjectKind::String {
        match parse_text(s) {
            (Ok(chars), used) => (Ok(Shape::Text(chars)), used),
            (Err(e), used) => (Err(e), used),
        }
    } else {
        match parse_number(s, kind.spec_layout()) {
            (Ok(bits), used) => (Ok(number_shape(kind.spec_layout(), bits)), used),
            (Err(e), used) => (Err(e), used),
        }
    }
}

/// What reading one key as a key of kind `requested` gives: the key
/// where the kinds agree, a string key whatever was asked for, and a
/// mismatch otherwise.
pub open spec fn key_as(kind: ObjectKind, requested: ObjectKind, s: Seq<u8>) -> (
    Result<Shape, Error>,
    nat,
) {
    if kind == requested || kind == ObjectKind::String {
        key_any(kind, s)
    } else {
        (Err(Error::MismatchedKeyType { expected: requested, found: kind }), 0)
    }
}

impl<'a, 'de> MapDeserializer<'a, 'de> {
    /// A handle for an object of `len` entries with keys of `kind` that
    /// starts where `deserializer` stands.
    pub fn new(deserializer: &'a mut Deserializer<'de>, len: usize, kind: ObjectKind) -> (map: Self)
        ensures
            map.len == len,
            map.kind == kind,
            map.index == 0,
            *map.deserializer == *old(deserializer),
            *final(map.deserializer) == *final(deserializer),
    {
        Self { deserializer, len, kind, index: 0 }
    }

    /// Whether the key of every declared entry was read.
    pub fn is_done(&self) -> (done: bool)
        ensures
            done == (self.index >= self.len),
    {
        self.index >= self.len
    }

    /// The number of declared entries whose key is still to be read.
    pub fn size_hint(&self) -> (hint: Option<usize>)
        ensures
            hint == Some(
                if self.index >= self.len {
                    0usize
                } else {
                    (self.len - self.index) as usize
                },
            ),
    {
        if self.index >= self.len {
            Some(0)
        } else {
            Some(self.len - self.index)
        }
    }

    /// `self` is `pre` after a key was read with the given outcome: at the
    /// end of the object nothing is read and the result is `None`;
    /// otherwise the bytes of the outcome are taken, and a read that
    /// succeeds counts one key.
    pub open spec fn stepped(
        self,
        pre: Self,
        r: Result<Option<Item>, Error>,
        outcome: (Result<Shape, Error>, nat),
    ) -> bool {
        &&& self.len == pre.len
        &&& self.kind == pre.kind
        &&& if pre.index >= pre.len {
            &&& r matches Ok(None)
            &&& self.index == pre.index
            &&& self.deserializer@ == pre.deserializer@
        } else {
            &&& match outcome.0 {
                Ok(shape) => (r matches Ok(Some(item)) && item.shape() == shape) && self.index
                    == pre.index + 1,
                Err(e) => (r matches Err(err) && err == e) && self.index == pre.index,
            }
            &&& self.deserializer@.follows(pre.deserializer@, outcome.1)
        }
    }

    /// Reads the next key as the kind of the object.
    pub fn next_key(&mut self) -> (r: Result<Option<Item>, Error>)
        ensures
            final(self).stepped(*old(self), r, key_any(old(self).kind,
                old(self).deserializer@.rest())),
            *final(final(self).deserializer) == *final(old(self).deserializer),
    {
        if self.index >= self.len {
            return Ok(None);
        }
        let r = match self.kind {
            ObjectKind::String => match self.deserializer.get_string_value() {
                Ok(s) => Ok(Item::String(s)),
                Err(e) => Err(e),
            },
            kind => self.deserializer.get_number(kind.layout()),
        };
        match r {
            Ok(item) => {
                self.index = self.index + 1;
                Ok(Some(item))
            },
            Err(e) => Err(e),
        }
    }

    /// Reads the next key as a key of kind `requested`. The kind must be
    /// that of the object; only a string key is read whatever was asked
    /// for, so that a caller who expects an integer still gets the key of
    /// a string-keyed object.
    pub fn next_key_as(&mut self, requested: ObjectKind) -> (r: Result<Option<Item>, Error>)
        ensures
            final(self).stepped(
                *old(self),
                r,
                key_as(old(self).kind, requested, old(self).deserializer@.rest()),
            ),
            *final(final(self).deserializer) == *final(old(self).deserializer),
    {
        if self.index >= self.len {
            return Ok(None);
        }
        if self.kind == requested || self.kind == ObjectKind::String {
            self.next_key()
        } else {
            self.deserializer.touch();
            Err(Error::MismatchedKeyType { expected: requested, found: self.kind })
        }
    }

    /// Reads the value of the entry whose key was read: a value of its
    /// own, whatever it is.
    pub fn next_value(&mut self) -> (r: Result<Item, Error>)
        ensures
            match parse_any(old(self).deserializer@.rest()) {
                (Ok(shape), _) => r matches Ok(item) && item.shape() == shape,
                (Err(e), _) => r matches Err(err) && err == e,
            },
            final(self).deserializer@ == old(self).deserializer@.peeked().skip(
                parse_any(old(self).deserializer@.rest()).1,
            ),
            final(self).deserializer@.rest() == old(self).deserializer@.rest().skip(
                parse_any(old(self).deserializer@.rest()).1 as int,
            ),
            final(self).len == old(self).len,
            final(self).index == old(self).index,
            final(self).kind == old(self).kind,
            *final(final(self).deserializer) == *final(old(self).deserializer),
    {
        self.deserializer.deserialize_any()
    }
}

} // verus!
