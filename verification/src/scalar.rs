//! The integer types of the wire format, each with the number of bytes it
//! takes and the unsigned number that its payload spells.
use vstd::prelude::*;
use crate::bytes::{lemma_radix_values, radix, twos, untwos};

verus! {

/// A fixed-width integer that the format can carry. Floats travel as the
/// unsigned integer of their bit pattern.
pub trait Scalar: Copy + Sized {
    /// The number of bytes of the payload.
    spec fn width() -> nat;

    /// The unsigned number whose little-endian digits are the payload: the
    /// value itself, in two's complement where it is signed.
    spec fn bits(self) -> nat;

    /// The value whose payload spells `u`.
    spec fn of_bits(u: nat) -> Self;

    proof fn lemma_bits(self)
        ensures
            1 <= Self::width() <= 16,
            self.bits() < radix(Self::width()),
            Self::of_bits(self.bits()) == self,
    ;

    proof fn lemma_of_bits(u: nat)
        requires
            u < radix(Self::width()),
        ensures
            Self::of_bits(u).bits() == u,
    ;

    fn byte_width() -> (w: usize)
        ensures
            w == Self::width(),
            1 <= w <= 16,
    ;

    fn to_bits(self) -> (u: u128)
        ensures
            u == self.bits(),
            u < radix(Self::width()),
    ;

    fn from_bits(u: u128) -> (v: Self)
        requires
            u < radix(Self::width()),
        ensures
            v == Self::of_bits(u as nat),
            v.bits() == u,
    ;
}

impl Scalar for u8 {
    open spec fn width() -> nat {
        1
    }

    open spec fn bits(self) -> nat {
        self as nat
    }

    open spec fn of_bits(u: nat) -> Self {
        u as u8
    }

    proof fn lemma_bits(self) {
        lemma_radix_values();
    }

    proof fn lemma_of_bits(u: nat) {
        lemma_radix_values();
    }

    fn byte_width() -> (w: usize) {
        1
    }

    fn to_bits(self) -> (u: u128) {
        proof {
            lemma_radix_values();
        }
        self as u128
    }

    fn from_bits(u: u128) -> (v: Self) {
        proof {
            lemma_radix_values();
        }
        u as u8
    }
}

impl Scalar for u16 {
    open spec fn width() -> nat {
        2
    }

    open spec fn bits(self) -> nat {
        self as nat
    }

    open spec fn of_bits(u: nat) -> Self {
        u as u16
    }

    proof fn lemma_bits(self) {
        lemma_radix_values();
    }

    proof fn lemma_of_bits(u: nat) {
        lemma_radix_values();
    }

    fn byte_width() -> (w: usize) {
        2
    }

    fn to_bits(self) -> (u: u128) {
        proof {
            lemma_radix_values();
        }
        self as u128
    }

    fn from_bits(u: u128) -> (v: Self) {
        proof {
            lemma_radix_values();
        }
        u as u16
    }
}

impl Scalar for u32 {
    open spec fn width() -> nat {
        4
    }

    open spec fn bits(self) -> nat {
        self as nat
    }

    open spec fn of_bits(u: nat) -> Self {
        u as u32
    }

    proof fn lemma_bits(self) {
        lemma_radix_values();
    }

    proof fn lemma_of_bits(u: nat) {
        lemma_radix_values();
    }

    fn byte_width() -> (w: usize) {
        4
    }

    fn to_bits(self) -> (u: u128) {
        proof {
            lemma_radix_values();
        }
        self as u128
    }

    fn from_bits(u: u128) -> (v: Self) {
        proof {
            lemma_radix_values();
        }
        u as u32
    }
}

impl Scalar for u64 {
    open spec fn width() -> nat {
        8
    }

    open spec fn bits(self) -> nat {
        self as nat
    }

    open spec fn of_bits(u: nat) -> Self {
        u as u64
    }

    proof fn lemma_bits(self) {
        lemma_radix_values();
    }

    proof fn lemma_of_bits(u: nat) {
        lemma_radix_values();
    }

    fn byte_width() -> (w: usize) {
        8
    }

    fn to_bits(self) -> (u: u128) {
        proof {
            lemma_radix_values();
        }
        self as u128
    }

    fn from_bits(u: u128) -> (v: Self) {
        proof {
            lemma_radix_values();
        }
        u as u64
    }
}

impl Scalar for u128 {
    open spec fn width() -> nat {
        16
    }

    open spec fn bits(self) -> nat {
        self as nat
    }

    open spec fn of_bits(u: nat) -> Self {
        u as u128
    }

    proof fn lemma_bits(self) {
        lemma_radix_values();
    }

    proof fn lemma_of_bits(u: nat) {
        lemma_radix_values();
    }

    fn byte_width() -> (w: usize) {
        16
    }

    fn to_bits(self) -> (u: u128) {
        proof {
            lemma_radix_values();
        }
        self
    }

    fn from_bits(u: u128) -> (v: Self) {
        u
    }
}

impl Scalar for i8 {
    open spec fn width() -> nat {
        1
    }

    open spec fn bits(self) -> nat {
        twos(self as int, 1)
    }

    open spec fn of_bits(u: nat) -> Self {
        untwos(u, 1) as i8
    }

    proof fn lemma_bits(self) {
        lemma_radix_values();
    }

    proof fn lemma_of_bits(u: nat) {
        lemma_radix_values();
    }

    fn byte_width() -> (w: usize) {
        1
    }

    fn to_bits(self) -> (u: u128) {
        proof {
            lemma_radix_values();
        }
        if self >= 0 {
            self as u128
        } else {
            (self as i16 + 0x100) as u128
        }
    }

    fn from_bits(u: u128) -> (v: Self) {
        proof {
            lemma_radix_values();
        }
        if u < 0x80 {
            u as i8
        } else {
            (u as i16 - 0x100) as i8
        }
    }
}

impl Scalar for i16 {
    open spec fn width() -> nat {
        2
    }

    open spec fn bits(self) -> nat {
        twos(self as int, 2)
    }

    open spec fn of_bits(u: nat) -> Self {
        untwos(u, 2) as i16
    }

    proof fn lemma_bits(self) {
        lemma_radix_values();
    }

    proof fn lemma_of_bits(u: nat) {
        lemma_radix_values();
    }

    fn byte_width() -> (w: usize) {
        2
    }

    fn to_bits(self) -> (u: u128) {
        proof {
            lemma_radix_values();
        }
        if self >= 0 {
            self as u128
        } else {
            (self as i32 + 0x1_0000) as u128
        }
    }

    fn from_bits(u: u128) -> (v: Self) {
        proof {
            lemma_radix_values();
        }
        if u < 0x8000 {
            u as i16
        } else {
            (u as i32 - 0x1_0000) as i16
        }
    }
}

impl Scalar for i32 {
    open spec fn width() -> nat {
        4
    }

    open spec fn bits(self) -> nat {
        twos(self as int, 4)
    }

    open spec fn of_bits(u: nat) -> Self {
        untwos(u, 4) as i32
    }

    proof fn lemma_bits(self) {
        lemma_radix_values();
    }

    proof fn lemma_of_bits(u: nat) {
        lemma_radix_values();
    }

    fn byte_width() -> (w: usize) {
        4
    }

    fn to_bits(self) -> (u: u128) {
        proof {
            lemma_radix_values();
        }
        if self >= 0 {
            self as u128
        } else {
            (self as i64 + 0x1_0000_0000) as u128
        }
    }

    fn from_bits(u: u128) -> (v: Self) {
        proof {
            lemma_radix_values();
        }
        if u < 0x8000_0000 {
            u as i32
        } else {
            (u as i64 - 0x1_0000_0000) as i32
        }
    }
}

impl Scalar for i64 {
    open spec fn width() -> nat {
        8
    }

    open spec fn bits(self) -> nat {
        twos(self as int, 8)
    }

    open spec fn of_bits(u: nat) -> Self {
        untwos(u, 8) as i64
    }

    proof fn lemma_bits(self) {
        lemma_radix_values();
    }

    proof fn lemma_of_bits(u: nat) {
        lemma_radix_values();
    }

    fn byte_width() -> (w: usize) {
        8
    }

    fn to_bits(self) -> (u: u128) {
        proof {
            lemma_radix_values();
        }
        if self >= 0 {
            self as u128
        } else {
            (self as i128 + 0x1_0000_0000_0000_0000) as u128
        }
    }

    fn from_bits(u: u128) -> (v: Self) {
        proof {
            lemma_radix_values();
        }
        if u < 0x8000_0000_0000_0000 {
            u as i64
        } else {
            (u as i128 - 0x1_0000_0000_0000_0000) as i64
        }
    }
}

impl Scalar for i128 {
    open spec fn width() -> nat {
        16
    }

    open spec fn bits(self) -> nat {
        twos(self as int, 16)
    }

    open spec fn of_bits(u: nat) -> Self {
        untwos(u, 16) as i128
    }

    proof fn lemma_bits(self) {
        lemma_radix_values();
    }

    proof fn lemma_of_bits(u: nat) {
        lemma_radix_values();
    }

    fn byte_width() -> (w: usize) {
        16
    }

    fn to_bits(self) -> (u: u128) {
        proof {
            lemma_radix_values();
        }
        if self >= 0 {
            self as u128
        } else {
            u128::MAX - ((-(self + 1)) as u128)
        }
    }

    fn from_bits(u: u128) -> (v: Self) {
        proof {
            lemma_radix_values();
        }
        if u <= 0x7FFF_FFFF_FFFF_FFFF_FFFF_FFFF_FFFF_FFFF {
            u as i128
        } else {
            -((u128::MAX - u) as i128) - 1
        }
    }
}

} // verus!
