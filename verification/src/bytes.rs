//! Little-endian payloads. A number of `n` bytes stands on the wire as the
//! `n` base-256 digits of an unsigned number, lowest digit first; a signed
//! number is written in two's complement.
use vstd::prelude::*;

verus! {

/// 256 to the power `n`: the number of values that `n` bytes can hold.
pub open spec fn radix(n: nat) -> nat
    decreases n,
{
    if n == 0 {
        1
    } else {
        256 * radix((n - 1) as nat)
    }
}

/// The `n` lowest base-256 digits of `x`, lowest first.
pub open spec fn le_bytes(x: nat, n: nat) -> Seq<u8>
    decreases n,
{
    if n == 0 {
        Seq::empty()
    } else {
        seq![(x % 256) as u8] + le_bytes(x / 256, (n - 1) as nat)
    }
}

/// The number whose base-256 digits, lowest first, are `s`.
pub open spec fn le_value(s: Seq<u8>) -> nat
    decreases s.len(),
{
    if s.len() == 0 {
        0
    } else {
        s[0] as nat + 256 * le_value(s.skip(1))
    }
}

/// The unsigned number that stands for `v` in two's complement of `n`
/// bytes.
pub open spec fn twos(v: int, n: nat) -> nat {
    if v >= 0 {
        v as nat
    } else {
        (v + radix(n)) as nat
    }
}

/// The signed number that `u` stands for in two's complement of `n` bytes.
pub open spec fn untwos(u: nat, n: nat) -> int {
    if 2 * u < radix(n) {
        u as int
    } else {
        u - radix(n)
    }
}

/// The number of values of 1, 2, 3, 4, 8 and 16 bytes.
pub proof fn lemma_radix_values()
    ensures
        radix(0) == 1,
        radix(1) == 0x100,
        radix(2) == 0x1_0000,
        radix(3) == 0x100_0000,
        radix(4) == 0x1_0000_0000,
        radix(8) == 0x1_0000_0000_0000_0000,
        radix(16) == 0x1_0000_0000_0000_0000 * 0x1_0000_0000_0000_0000,
        radix(16) == u128::MAX + 1,
{
    reveal_with_fuel(radix, 17);
}

/// More bytes hold at least as many values, and never none.
pub proof fn lemma_radix_monotonic(a: nat, b: nat)
    requires
        a <= b,
    ensures
        0 < radix(a) <= radix(b),
    decreases b,
{
    if b == 0 {
    } else if a == b {
        lemma_radix_monotonic(0, (b - 1) as nat);
    } else {
        lemma_radix_monotonic(a, (b - 1) as nat);
    }
}

/// Writing `n` digits gives `n` bytes.
pub proof fn lemma_le_bytes_len(x: nat, n: nat)
    ensures
        le_bytes(x, n).len() == n,
    decreases n,
{
    if n > 0 {
        lemma_le_bytes_len(x / 256, (n - 1) as nat);
    }
}

/// The number that some bytes spell is below the number of values that
/// that many bytes hold.
pub proof fn lemma_le_value_bound(s: Seq<u8>)
    ensures
        le_value(s) < radix(s.len()),
    decreases s.len(),
{
    if s.len() > 0 {
        lemma_le_value_bound(s.skip(1));
        assert(radix(s.len()) == 256 * radix((s.len() - 1) as nat));
    }
}

/// Reading back what was written gives the number again, as far as it
/// fits in `n` bytes.
pub proof fn lemma_le_value_of_bytes(x: nat, n: nat)
    requires
        x < radix(n),
    ensures
        le_value(le_bytes(x, n)) == x,
    decreases n,
{
    if n > 0 {
        let rest = le_bytes(x / 256, (n - 1) as nat);
        let s = le_bytes(x, n);
        assert(s.skip(1) =~= rest);
        assert(x / 256 < radix((n - 1) as nat));
        lemma_le_value_of_bytes(x / 256, (n - 1) as nat);
        lemma_le_bytes_len(x, n);
    }
}

/// Appends the `n` lowest base-256 digits of `x` to `out`, lowest first.
pub fn push_le(out: &mut Vec<u8>, x: u128, n: usize)
    ensures
        final(out)@ == old(out)@ + le_bytes(x as nat, n as nat),
{
    let mut rest: u128 = x;
    let mut i: usize = 0;
    while i < n
        invariant
            i <= n,
            old(out)@ + le_bytes(x as nat, n as nat) == out@ + le_bytes(rest as nat,
                (n - i) as nat),
        decreases n - i,
    {
        let ghost before = out@;
        out.push((rest % 256) as u8);
        proof {
            let k = (n - i) as nat;
            assert(le_bytes(rest as nat, k) == seq![(rest as nat % 256) as u8] + le_bytes(
                rest as nat / 256,
                (k - 1) as nat,
            ));
            assert(before + le_bytes(rest as nat, k) =~= out@ + le_bytes(
                rest as nat / 256,
                (k - 1) as nat,
            ));
        }
        rest = rest / 256;
        i = i + 1;
    }
    assert(out@ + le_bytes(rest as nat, 0) =~= out@);
}

/// The number whose base-256 digits, lowest first, are `bytes`.
pub fn read_le(bytes: &[u8]) -> (x: u128)
    requires
        bytes@.len() <= 16,
    ensures
        x == le_value(bytes@),
        x < radix(bytes@.len()),
{
    let n: usize = bytes.len();
    let mut acc: u128 = 0;
    let mut i: usize = n;
    proof {
        assert(bytes@.skip(n as int) =~= Seq::<u8>::empty());
    }
    while i > 0
        invariant
            i <= n,
            n == bytes@.len(),
            n <= 16,
            acc == le_value(bytes@.skip(i as int)),
        decreases i,
    {
        proof {
            let tail = bytes@.skip(i as int);
            let next = bytes@.skip(i - 1);
            assert(next.skip(1) =~= tail);
            assert(next[0] == bytes@[i - 1]);
            lemma_le_value_bound(tail);
            lemma_le_value_bound(next);
            lemma_radix_monotonic(next.len(), 16);
            lemma_radix_values();
        }
        acc = acc * 256 + bytes[i - 1] as u128;
        i = i - 1;
    }
    proof {
        assert(bytes@.skip(0) =~= bytes@);
        lemma_le_value_bound(bytes@);
    }
    acc
}

} // verus!
