//! Booleans packed eight to a byte, lowest bit first. The last byte of an
//! array is padded with zero bits on its high side.
use vstd::prelude::*;

verus! {

/// The value of bit `k` of a byte, for `k` below 8.
pub open spec fn weight(k: nat) -> nat {
    if k == 0 {
        1
    } else if k == 1 {
        2
    } else if k == 2 {
        4
    } else if k == 3 {
        8
    } else if k == 4 {
        16
    } else if k == 5 {
        32
    } else if k == 6 {
        64
    } else {
        128
    }
}

/// Whether bit `k` of `byte` is set, counting from the lowest bit.
pub open spec fn bit_of(byte: u8, k: nat) -> bool {
    (byte as nat / weight(k)) % 2 == 1
}

/// The boolean at `i`, or false past the end.
pub open spec fn flag(bools: Seq<bool>, i: int) -> bool {
    0 <= i < bools.len() && bools[i]
}

/// The number that the first `k` booleans of the `j`-th group of eight
/// spell, the first of them in the lowest bit.
pub open spec fn group_value(bools: Seq<bool>, j: nat, k: nat) -> nat
    decreases k,
{
    if k == 0 {
        0
    } else {
        group_value(bools, j, (k - 1) as nat) + if flag(bools, 8 * j + k - 1) {
            weight((k - 1) as nat)
        } else {
            0
        }
    }
}

/// The number of bytes that `count` packed booleans take.
pub open spec fn packed_len(count: nat) -> nat {
    (count + 7) / 8
}

/// The packed bytes of `bools`.
pub open spec fn pack(bools: Seq<bool>) -> Seq<u8> {
    Seq::new(packed_len(bools.len()), |j: int| group_value(bools, j as nat, 8) as u8)
}

/// The first `k` bits of a group spell a number below the weight of bit
/// `k`, and a whole group spells a byte.
pub proof fn lemma_group_value_bound(bools: Seq<bool>, j: nat, k: nat)
    requires
        k <= 8,
    ensures
        group_value(bools, j, k) + weight(k) <= 256 || k == 8,
        group_value(bools, j, k) < 256,
{
    reveal_with_fuel(group_value, 9);
}

/// One for a set boolean, zero otherwise.
pub open spec fn digit(bools: Seq<bool>, i: int) -> nat {
    if flag(bools, i) {
        1
    } else {
        0
    }
}

/// A whole group spells the sum of the weights of its set booleans.
proof fn lemma_group_sum(bools: Seq<bool>, j: nat)
    ensures
        group_value(bools, j, 8) == digit(bools, 8 * (j as int)) + 2 * digit(bools, 8 * (j as int)
            + 1) + 4 * digit(
            bools,
            8 * (j as int) + 2,
        ) + 8 * digit(bools, 8 * (j as int) + 3) + 16 * digit(bools, 8 * (j as int) + 4)
            + 32 * digit(
            bools,
            8 * (j as int) + 5,
        ) + 64 * digit(bools, 8 * (j as int) + 6) + 128 * digit(bools, 8 * (j as int) + 7),
{
    reveal_with_fuel(group_value, 9);
}

/// Each of the eight binary digits of a byte is found again by dividing
/// by its weight.
proof fn lemma_byte_bit(
    n0: nat,
    n1: nat,
    n2: nat,
    n3: nat,
    n4: nat,
    n5: nat,
    n6: nat,
    n7: nat,
    k: nat,
)
    requires
        n0 < 2,
        n1 < 2,
        n2 < 2,
        n3 < 2,
        n4 < 2,
        n5 < 2,
        n6 < 2,
        n7 < 2,
        k < 8,
    ensures
        ({
            let v = n0 + 2 * n1 + 4 * n2 + 8 * n3 + 16 * n4 + 32 * n5 + 64 * n6 + 128 * n7;
            let n = if k == 0 {
                n0
            } else if k == 1 {
                n1
            } else if k == 2 {
                n2
            } else if k == 3 {
                n3
            } else if k == 4 {
                n4
            } else if k == 5 {
                n5
            } else if k == 6 {
                n6
            } else {
                n7
            };
            v < 256 && (v / weight(k)) % 2 == n
        }),
{
    let v = n0 + 2 * n1 + 4 * n2 + 8 * n3 + 16 * n4 + 32 * n5 + 64 * n6 + 128 * n7;
    if k == 0 {
        lemma_digit(v, 0, 1, n0, n1 + 2 * n2 + 4 * n3 + 8 * n4 + 16 * n5 + 32 * n6 + 64 * n7);
    } else if k == 1 {
        lemma_digit(v, n0, 2, n1, n2 + 2 * n3 + 4 * n4 + 8 * n5 + 16 * n6 + 32 * n7);
    } else if k == 2 {
        lemma_digit(v, n0 + 2 * n1, 4, n2, n3 + 2 * n4 + 4 * n5 + 8 * n6 + 16 * n7);
    } else if k == 3 {
        lemma_digit(v, n0 + 2 * n1 + 4 * n2, 8, n3, n4 + 2 * n5 + 4 * n6 + 8 * n7);
    } else if k == 4 {
        lemma_digit(v, n0 + 2 * n1 + 4 * n2 + 8 * n3, 16, n4, n5 + 2 * n6 + 4 * n7);
    } else if k == 5 {
        lemma_digit(v, n0 + 2 * n1 + 4 * n2 + 8 * n3 + 16 * n4, 32, n5, n6 + 2 * n7);
    } else if k == 6 {
        lemma_digit(v, n0 + 2 * n1 + 4 * n2 + 8 * n3 + 16 * n4 + 32 * n5, 64, n6, n7);
    } else {
        lemma_digit(v, n0 + 2 * n1 + 4 * n2 + 8 * n3 + 16 * n4 + 32 * n5 + 64 * n6, 128, n7, 0);
    }
}

/// Every boolean is found again in its bit: element `i` is bit `i % 8` of
/// byte `i / 8`. The bits past the last element are zero.
pub proof fn lemma_pack_bit(bools: Seq<bool>, i: nat)
    requires
        i < 8 * packed_len(bools.len()),
    ensures
        pack(bools).len() == packed_len(bools.len()),
        bit_of(pack(bools)[i as int / 8], i % 8) == flag(bools, i as int),
{
    let j = i / 8;
    let k = i % 8;
    lemma_group_sum(bools, j);
    lemma_byte_bit(
        digit(bools, 8 * (j as int)),
        digit(bools, 8 * (j as int) + 1),
        digit(bools, 8 * (j as int) + 2),
        digit(bools, 8 * (j as int) + 3),
        digit(bools, 8 * (j as int) + 4),
        digit(bools, 8 * (j as int) + 5),
        digit(bools, 8 * (j as int) + 6),
        digit(bools, 8 * (j as int) + 7),
        k,
    );
    assert(pack(bools)[j as int] == group_value(bools, j, 8) as u8);
    assert(i == 8 * (j as int) + k);
}

/// The binary digit of weight `w` in a number that is written as the
/// digits below it, the digit itself and the digits above it.
proof fn lemma_digit(v: nat, low: nat, w: nat, digit: nat, high: nat)
    requires
        w > 0,
        low < w,
        digit < 2,
        v == low + w * (digit + 2 * high),
    ensures
        (v / w) % 2 == digit,
{
    assert(v / w == digit + 2 * high) by (nonlinear_arith)
        requires
            w > 0,
            low < w,
            v == low + w * (digit + 2 * high),
    ;
}

/// Whether bit `k` of `byte` is set, counting from the lowest bit.
pub fn test_bit(byte: u8, k: usize) -> (set: bool)
    requires
        k < 8,
    ensures
        set == bit_of(byte, k as nat),
{
    let w: u8 = if k == 0 {
        1
    } else if k == 1 {
        2
    } else if k == 2 {
        4
    } else if k == 3 {
        8
    } else if k == 4 {
        16
    } else if k == 5 {
        32
    } else if k == 6 {
        64
    } else {
        128
    };
    (byte / w) % 2 == 1
}

/// Packs booleans eight to a byte, the first of each group in the lowest
/// bit, and pads the last byte with zero bits.
pub fn pack_bits(bools: &Vec<bool>) -> (bytes: Vec<u8>)
    ensures
        bytes@ == pack(bools@),
{
    let n: usize = bools.len();
    let mut bytes: Vec<u8> = Vec::new();
    let mut current: u8 = 0;
    let mut w: u8 = 1;
    let mut i: usize = 0;
    while i < n
        invariant
            i <= n,
            n == bools@.len(),
            bytes@.len() == i / 8,
            forall|j: int| 0 <= j < bytes@.len()
                ==> bytes@[j] == group_value(bools@, j as nat, 8) as u8,
            current == group_value(bools@, (i / 8) as nat, (i % 8) as nat),
            w == weight((i % 8) as nat),
        decreases n - i,
    {
        proof {
            reveal_with_fuel(group_value, 9);
            lemma_group_value_bound(bools@, (i / 8) as nat, (i % 8) as nat);
        }
        if bools[i] {
            current = current + w;
        }
        if i % 8 == 7 {
            bytes.push(current);
            current = 0;
            w = 1;
        } else {
            w = w * 2;
        }
        i = i + 1;
    }
    if n % 8 != 0 {
        proof {
            reveal_with_fuel(group_value, 9);
        }
        bytes.push(current);
    }
    assert(bytes@ =~= pack(bools@));
    bytes
}

} // verus!
