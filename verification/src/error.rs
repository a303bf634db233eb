//! The errors of encoding and decoding. Every error ends the call in
//! which it arises: nothing is skipped and nothing is retried.
use vstd::prelude::*;
use crate::headers::{ArrayKind, ObjectKind};

verus! {

/// Why the byte source could not deliver.
#[derive(Debug, Clone, Copy, PartialEq, Eq, Structural)]
pub enum IoError {
    /// The input ended before the bytes that the format announces.
    UnexpectedEof,
    /// Any other failure of the source or the sink.
    Other,
}

/// A number type that the wire format names but this library may not be
/// able to decode.
#[derive(Debug, Clone, Copy, PartialEq, Eq, Structural)]
pub enum SpecialType {
    /// A 16-bit float.
    HalfFloat,
    /// A brain float.
    BrainFloat,
    /// A 128-bit float.
    F128,
}

impl SpecialType {
    pub open spec fn spec_name(self) -> &'static str {
        match self {
            SpecialType::HalfFloat => "16-bit float",
            SpecialType::F128 => "128-bit float",
            SpecialType::BrainFloat => "brain float",
        }
    }

    /// The type as error messages print it.
    #[verifier::when_used_as_spec(spec_name)]
    pub fn name(self) -> (name: &'static str)
        ensures
            name == self.spec_name(),
    {
        match self {
            SpecialType::HalfFloat => "16-bit float",
            SpecialType::F128 => "128-bit float",
            SpecialType::BrainFloat => "brain float",
        }
    }
}

/// Errors that can occur during serialization or deserialization.
#[derive(Debug, PartialEq, Eq)]
#[non_exhaustive]
#[allow(inconsistent_fields)]
pub enum Error {
    /// A message of the driver's own. The library never makes one itself.
    Custom(String),
    /// The byte source or sink failed.
    Io(IoError),
    /// An object key that is neither a string nor an integer.
    InvalidKey,
    /// A header of a number type that cannot be decoded.
    UnsupportedDataType(SpecialType),
    /// The header found is not the one of the type asked for. Both are
    /// given by their names.
    WrongType { expected: &'static str, found: &'static str },
    /// A key of another kind than the kind of the object.
    MismatchedKeyType { expected: ObjectKind, found: ObjectKind },
    /// An element asked for as another kind than the kind of the array.
    MismatchedElementType { expected: ArrayKind, found: ArrayKind },
    /// A length of 2^62 or more on encoding, or a length on decoding that
    /// is written wider than this platform's `usize`.
    TooLong,
    /// A byte that is no header of the format.
    InvalidHeader(u8),
    /// A string slice that is not UTF-8.
    Utf8,
    /// A string payload that is not UTF-8.
    FromUtf8,
    /// The reserved header.
    Reserved,
    /// A variant tag asked for as anything but an identifier.
    InvalidTag,
    /// A variant index that is not below the number of variants.
    VariantOutOfRange { index: u64, count: u64 },
}

impl Error {
    /// Wraps a message of the driver.
    pub fn custom(msg: String) -> (e: Error)
        ensures
            e == Error::Custom(msg),
    {
        Error::Custom(msg)
    }
}

/// The error of a read that found the input at its end.
pub open spec fn eof() -> Error {
    Error::Io(IoError::UnexpectedEof)
}

/// The error of a typed read that found another header.
pub open spec fn wrong_type(expected: u8, found: u8) -> Error {
    Error::WrongType {
        expected: crate::headers::spec_header_name(expected),
        found: crate::headers::spec_header_name(found),
    }
}

} // verus!
