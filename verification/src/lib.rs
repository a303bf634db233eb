//! A codec for BEVE, a compact, self-describing binary format.
//!
//! Every value on the wire starts with a one-byte header. Strings, arrays
//! and objects carry their length as a compressed integer, and arrays of
//! numbers, booleans or strings as well as the keys of an object are stored
//! without a header of their own: the header of the collection fixes their
//! kind. Everything is little-endian.
//!
//! The [`Serializer`](ser::Serializer) appends encoded values to a byte
//! buffer; the [`Deserializer`](de::Deserializer) reads them back from a byte
//! slice with one byte of lookahead. Sequences, maps and variants go through
//! short-lived handles that borrow their parent for as long as they live.
//!
//! # Collections
//!
//! A sequence is buffered until it ends. If all its elements share one
//! scalar kind the array is written in the homogeneous layout of that kind,
//! otherwise it is promoted to a generic array in which every element keeps
//! its own header; a mixed sequence is therefore no error. A sequence needs
//! no length up front. Tuples are always generic arrays.
//!
//! The first key of a map fixes the kind of all its keys. A later key of
//! another kind is a `MismatchedKeyType` error, and a key that is neither a
//! string nor an integer is an `InvalidKey` error. The keys of a struct are
//! strings from the start.
//!
//! # Variants
//!
//! A variant is the tag header, the index of the variant as a compressed
//! integer, and the payload: a null for a unit variant, one value for a
//! newtype variant, a generic array for a tuple variant and a string-keyed
//! object for a struct variant.
//!
//! # Numbers
//!
//! Floating point numbers travel through the library as their bit patterns.
//! A brain float is decoded to the bits of the 32-bit float of the same
//! value; a 16-bit float is handed on as its 16 bits. Neither is ever
//! written, and 128-bit floats are not supported at all.
//!
//! # Errors
//!
//! Every error ends the call in which it arises. The encoder leaves its
//! output as it was when a call fails.

pub mod bits;
pub mod bytes;
pub mod de;
pub mod error;
pub mod headers;
pub mod laws;
pub mod narrow;
pub mod scalar;
pub mod ser;
pub mod size;
pub mod text;
pub mod value;

pub use error::{Error, IoError, SpecialType};
pub use headers::{ArrayKind, ObjectKind};
pub use value::Value;
