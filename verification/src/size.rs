//! The compressed integer that carries every length: the number is shifted
//! left by two bits, the two low bits select a width of 1, 2, 4 or 8 bytes,
//! and the result is written little-endian in that width.
use vstd::prelude::*;
use crate::bytes::{
    le_bytes, le_value, lemma_le_bytes_len, lemma_le_value_of_bytes, lemma_radix_values, radix,
};
use crate::error::{eof, Error};

verus! {

/// The first number that is too large for a length: 2^62.
pub const SIZE_LIMIT: u64 = 0x4000_0000_0000_0000;

/// The two low bits that announce the width in which `n` is written: the
/// smallest width that holds `n` shifted left by two bits.
pub open spec fn size_selector(n: nat) -> nat {
    if n < 0x40 {
        0
    } else if n < 0x4000 {
        1
    } else if n < 0x4000_0000 {
        2
    } else {
        3
    }
}

/// The number of bytes that a selector announces.
pub open spec fn selector_width(selector: nat) -> nat {
    if selector == 0 {
        1
    } else if selector == 1 {
        2
    } else if selector == 2 {
        4
    } else {
        8
    }
}

/// The number of bytes in which the length `n` is written.
pub open spec fn size_width(n: nat) -> nat {
    selector_width(size_selector(n))
}

/// The bytes of the length `n`, for `n` below 2^62.
pub open spec fn size_bytes(n: nat) -> Seq<u8> {
    le_bytes(4 * n + size_selector(n), size_width(n))
}

/// The number of bytes of the compressed integer that starts with `first`.
pub open spec fn announced_width(first: u8) -> nat {
    selector_width((first % 4) as nat)
}

/// What reading a length from the stream `s` gives, and how many bytes of
/// `s` the read takes.
///
/// An empty stream is an I/O error that takes nothing; a stream that ends
/// inside the integer is an I/O error that takes the first byte only. An
/// integer written wider than `usize` is `TooLong`, whatever its value.
pub open spec fn parse_size(s: Seq<u8>) -> (Result<usize, Error>, nat) {
    if s.len() == 0 {
        (Err(eof()), 0)
    } else {
        let width = announced_width(s[0]);
        if s.len() < width {
            (Err(eof()), 1)
        } else if 8 * width > usize::BITS {
            (Err(Error::TooLong), width)
        } else {
            (Ok((le_value(s.take(width as int)) / 4) as usize), width)
        }
    }
}

/// A length below 2^62, shifted and with its selector, fits the width
/// that is chosen for it.
pub proof fn lemma_size_width(n: nat)
    requires
        n < SIZE_LIMIT,
    ensures
        4 * n + size_selector(n) < radix(size_width(n)),
        size_bytes(n).len() == size_width(n),
        1 <= size_width(n) <= 8,
{
    lemma_radix_values();
    lemma_le_bytes_len(4 * n + size_selector(n), size_width(n));
}

/// A length that was written is read back: the value is the same and the
/// read takes exactly the bytes of the integer, whatever follows them. On
/// a platform whose `usize` is narrower than the written width the read
/// fails with `TooLong` instead.
pub proof fn lemma_size_round_trip(n: nat, rest: Seq<u8>)
    requires
        n < SIZE_LIMIT,
    ensures
        8 * size_width(n) <= usize::BITS ==> parse_size(size_bytes(n) + rest) == (
            Ok::<usize, Error>(n as usize),
            size_width(n),
        ),
        8 * size_width(n) <= usize::BITS ==> n <= usize::MAX,
        8 * size_width(n) > usize::BITS ==> parse_size(size_bytes(n) + rest) == (
            Err::<usize, Error>(Error::TooLong),
            size_width(n),
        ),
{
    let raw = 4 * n + size_selector(n);
    let width = size_width(n);
    let s = size_bytes(n) + rest;
    lemma_size_width(n);
    lemma_radix_values();
    assert(size_bytes(n) == seq![(raw % 256) as u8] + le_bytes(raw / 256, (width - 1) as nat));
    assert(s[0] == (raw % 256) as u8);
    assert((raw % 256) % 4 == size_selector(n));
    assert(announced_width(s[0]) == width);
    assert(s.take(width as int) =~= size_bytes(n));
    lemma_le_value_of_bytes(raw, width);
    assert(raw / 4 == n);
}

} // verus!
