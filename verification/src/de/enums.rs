//! The handle through which a variant is decoded.
use vstd::prelude::*;
use crate::de::map::MapDeserializer;
use crate::de::seq::SeqDeserializer;
use crate::de::{after_header, parse_sized, Deserializer, Item};
use crate::error::Error;
use crate::headers::{ArrayKind, ObjectKind, GENERIC_ARRAY, NULL, STRING_OBJECT};
use crate::size::parse_size;

verus! {

/// Reads one variant: its index, then its payload.
pub struct EnumDeserializer<'a, 'de> {
    pub deserializer: &'a mut Deserializer<'de>,
}

/// What reading the index of a variant gives. Where the caller says how
/// many variants there are, an index that is not below that number is out
/// of range.
pub open spec fn parse_variant(s: Seq<u8>, variants: Option<usize>) -> (Result<u64, Error>, nat) {
    match parse_size(s) {
        (Ok(index), used) => match variants {
            Some(count) if index >= count => (
                Err(Error::VariantOutOfRange { index: index as u64, count: count as u64 }),
                used,
            ),
            _ => (Ok(index as u64), used),
        },
        (Err(e), used) => (Err(e), used),
    }
}

impl<'a, 'de> EnumDeserializer<'a, 'de> {
    /// A handle for a variant whose tag header was read.
    pub fn new(deserializer: &'a mut Deserializer<'de>) -> (variant: Self)
        ensures
            *variant.deserializer == *old(deserializer),
            *final(variant.deserializer) == *final(deserializer),
    {
        Self { deserializer }
    }

    /// Reads the index of the variant: a compressed integer. With
    /// `variants`, the number of variants that the destination has, an
    /// index that is not below it is `VariantOutOfRange`.
    pub fn deserialize_identifier(&mut self, variants: Option<usize>) -> (r: Result<u64, Error>)
        ensures
            r == parse_variant(old(self).deserializer@.rest(), variants).0,
            final(self).deserializer@.follows(
                old(self).deserializer@,
                parse_variant(old(self).deserializer@.rest(), variants).1,
            ),
            *final(final(self).deserializer) == *final(old(self).deserializer),
    {
        let index: usize = self.deserializer.get_size()?;
        match variants {
            Some(count) => {
                if index >= count {
                    return Err(
                        Error::VariantOutOfRange { index: index as u64, count: count as u64 },
                    );
                }
            },
            None => {},
        }
        Ok(index as u64)
    }

    /// The index of a variant can only be read as an identifier: asking
    /// for anything else is `InvalidTag`, and nothing is read.
    pub fn deserialize_any(&mut self) -> (r: Result<Item, Error>)
        ensures
            r matches Err(e) && e == Error::InvalidTag,
            *final(self).deserializer == *old(self).deserializer,
            *final(final(self).deserializer) == *final(old(self).deserializer),
    {
        Err(Error::InvalidTag)
    }

    /// Reads the payload of a variant without one: a null.
    pub fn unit_variant(self) -> (r: Result<(), Error>)
        ensures
            r == after_header(old(self.deserializer)@.rest(), NULL, (Ok::<(), Error>(()), 0)).0,
            final(self.deserializer)@.follows(
                old(self.deserializer)@,
                after_header(old(self.deserializer)@.rest(), NULL, (Ok::<(), Error>(()), 0)).1,
            ),
    {
        self.deserializer.expect_header(NULL)
    }

    /// Gives the decoder back for the one value of a newtype variant.
    pub fn newtype_variant(self) -> (deserializer: &'a mut Deserializer<'de>)
        ensures
            *deserializer == *old(self.deserializer),
            *final(deserializer) == *final(self.deserializer),
    {
        self.deserializer
    }

    /// Reads the start of the payload of a tuple variant: a generic
    /// array.
    pub fn tuple_variant(self, _len: usize) -> (r: Result<SeqDeserializer<'a, 'de>, Error>)
        ensures
            match parse_sized(old(self.deserializer)@.rest(), GENERIC_ARRAY) {
                (Ok(len), used) => r matches Ok(seq) && seq.len == len && seq.kind
                    == ArrayKind::Generic && seq.index == 0 && seq.deserializer@.follows(
                    old(self.deserializer)@,
                    used,
                ) && *final(self.deserializer) == *final(seq.deserializer),
                (Err(e), used) => (r matches Err(err) && err == e)
                    && final(self.deserializer)@.follows(old(self.deserializer)@, used),
            },
    {
        self.deserializer.deserialize_array(ArrayKind::Generic)
    }

    /// Reads the start of the payload of a struct variant: an object
    /// with string keys.
    pub fn struct_variant(self) -> (r: Result<MapDeserializer<'a, 'de>, Error>)
        ensures
            match parse_sized(old(self.deserializer)@.rest(), STRING_OBJECT) {
                (Ok(len), used) => r matches Ok(map) && map.len == len && map.kind
                    == ObjectKind::String && map.index == 0 && map.deserializer@.follows(
                    old(self.deserializer)@,
                    used,
                ) && *final(self.deserializer) == *final(map.deserializer),
                (Err(e), used) => (r matches Err(err) && err == e)
                    && final(self.deserializer)@.follows(old(self.deserializer)@, used),
            },
    {
        self.deserializer.deserialize_object(ObjectKind::String)
    }
}

} // verus!
