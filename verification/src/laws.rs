//! What holds between the encoder and the decoder: what the one writes,
//! the other reads back.
use vstd::prelude::*;
use vstd::utf8::{decode_utf8, valid_utf8};
use crate::bits::{lemma_pack_bit, pack, packed_len};
use crate::bytes::{le_bytes, le_value, lemma_le_bytes_len, lemma_le_value_of_bytes};
use crate::de::seq::{element_bool, element_hold};
use crate::de::{
    parse_any, parse_bool, parse_chunk, parse_headed, parse_num, parse_number,
    parse_string, parse_text, scalar_kind, after_header, Cursor, Shape,
};
use crate::error::Error;
use crate::headers::{
    ArrayKind, ObjectKind, DELIMITER, F128, F128_ARRAY, F32, F64, FALSE, I128, I16, I32, I64, I8,
    NULL, RESERVED, STRING, TAG, TRUE, U128, U16, U32, U64, U8,
};
use crate::scalar::Scalar;
use crate::size::{lemma_size_round_trip, lemma_size_width, size_bytes, size_width, SIZE_LIMIT};
use crate::value::{chunk_wire, kind_width, num_wire, nums_wire, Value};

verus! {

/// A number that was written as a bare payload is read back as itself,
/// whatever follows it.
pub proof fn lemma_num_round_trip<T: Scalar>(v: T, rest: Seq<u8>)
    ensures
        num_wire(v).len() == T::width(),
        parse_num::<T>(num_wire(v) + rest) == (Ok::<T, Error>(v), T::width()),
{
    v.lemma_bits();
    lemma_le_bytes_len(v.bits(), T::width());
    lemma_le_value_of_bytes(v.bits(), T::width());
    assert((num_wire(v) + rest).take(T::width() as int) =~= num_wire(v));
}

/// A payload is canonical: the bytes that were read are the only bytes
/// that spell their number in that width, so writing what was read gives
/// the same bytes again.
pub proof fn lemma_le_bytes_of_value(s: Seq<u8>)
    ensures
        le_bytes(le_value(s), s.len()) == s,
    decreases s.len(),
{
    if s.len() > 0 {
        let x = le_value(s);
        let r = le_value(s.skip(1));
        assert(x == s[0] as nat + 256 * r);
        assert(x % 256 == s[0] as nat && x / 256 == r);
        lemma_le_bytes_of_value(s.skip(1));
        assert(le_bytes(x, s.len()) =~= s);
    } else {
        assert(le_bytes(le_value(s), s.len()) =~= s);
    }
}

/// A number that was written behind a header is read back as itself by
/// the read that expects that header.
pub proof fn lemma_headed_round_trip<T: Scalar>(v: T, header: u8, rest: Seq<u8>)
    ensures
        parse_headed::<T>(seq![header] + num_wire(v) + rest, header) == (
            Ok::<T, Error>(v),
            1 + T::width(),
        ),
{
    let s = seq![header] + num_wire(v) + rest;
    assert(s.skip(1) =~= num_wire(v) + rest);
    lemma_num_round_trip(v, rest);
}

/// Every integer and every float, boundary values included, is read back
/// as itself: the typed read of the encoding of a number gives that
/// number and takes exactly its bytes.
pub proof fn lemma_scalars_round_trip(
    a: i8,
    b: i16,
    c: i32,
    d: i64,
    e: i128,
    f: u8,
    g: u16,
    h: u32,
    i: u64,
    j: u128,
    x: u32,
    y: u64,
    rest: Seq<u8>,
)
    ensures
        parse_headed::<i8>(Value::I8(a).wire() + rest, I8) == (Ok::<i8, Error>(a), 2nat),
        parse_headed::<i16>(Value::I16(b).wire() + rest, I16) == (Ok::<i16, Error>(b), 3nat),
        parse_headed::<i32>(Value::I32(c).wire() + rest, I32) == (Ok::<i32, Error>(c), 5nat),
        parse_headed::<i64>(Value::I64(d).wire() + rest, I64) == (Ok::<i64, Error>(d), 9nat),
        parse_headed::<i128>(Value::I128(e).wire() + rest, I128) == (Ok::<i128, Error>(e), 17nat),
        parse_headed::<u8>(Value::U8(f).wire() + rest, U8) == (Ok::<u8, Error>(f), 2nat),
        parse_headed::<u16>(Value::U16(g).wire() + rest, U16) == (Ok::<u16, Error>(g), 3nat),
        parse_headed::<u32>(Value::U32(h).wire() + rest, U32) == (Ok::<u32, Error>(h), 5nat),
        parse_headed::<u64>(Value::U64(i).wire() + rest, U64) == (Ok::<u64, Error>(i), 9nat),
        parse_headed::<u128>(Value::U128(j).wire() + rest, U128) == (Ok::<u128, Error>(j), 17nat),
        parse_headed::<u32>(Value::F32(x).wire() + rest, F32) == (Ok::<u32, Error>(x), 5nat),
        parse_headed::<u64>(Value::F64(y).wire() + rest, F64) == (Ok::<u64, Error>(y), 9nat),
{
    lemma_headed_round_trip(a, I8, rest);
    lemma_headed_round_trip(b, I16, rest);
    lemma_headed_round_trip(c, I32, rest);
    lemma_headed_round_trip(d, I64, rest);
    lemma_headed_round_trip(e, I128, rest);
    lemma_headed_round_trip(f, U8, rest);
    lemma_headed_round_trip(g, U16, rest);
    lemma_headed_round_trip(h, U32, rest);
    lemma_headed_round_trip(i, U64, rest);
    lemma_headed_round_trip(j, U128, rest);
    lemma_headed_round_trip(x, F32, rest);
    lemma_headed_round_trip(y, F64, rest);
}

/// A boolean and the unit value are read back as themselves.
pub proof fn lemma_plain_round_trip(v: bool, rest: Seq<u8>)
    ensures
        parse_bool((if v { Value::True } else { Value::False }).wire() + rest) == (
            Ok::<bool, Error>(v),
            1nat,
        ),
        after_header(Value::Null.wire() + rest, NULL, (Ok::<(), Error>(()), 0)) == (
            Ok::<(), Error>(()),
            1nat,
        ),
{
}

/// Bytes that were written with their length are read back as
/// themselves. The length must be one that this platform can read: written
/// no wider than `usize`.
pub proof fn lemma_chunk_round_trip(bytes: Seq<u8>, rest: Seq<u8>)
    requires
        bytes.len() < SIZE_LIMIT,
        8 * size_width(bytes.len()) <= usize::BITS,
    ensures
        chunk_wire(bytes).len() == size_width(bytes.len()) + bytes.len(),
        parse_chunk(chunk_wire(bytes) + rest) == (
            Ok::<Seq<u8>, Error>(bytes),
            size_width(bytes.len()) + bytes.len(),
        ),
{
    let s = chunk_wire(bytes) + rest;
    let w = size_width(bytes.len());
    lemma_size_width(bytes.len());
    lemma_size_round_trip(bytes.len(), bytes + rest);
    assert(s =~= size_bytes(bytes.len()) + (bytes + rest));
    assert(s.skip(w as int) =~= bytes + rest);
    assert((bytes + rest).take(bytes.len() as int) =~= bytes);
}

/// A string is read back as itself, the empty string and strings of
/// characters of several bytes included: the read of the encoding of the
/// UTF-8 bytes of `chars` gives `chars`.
pub proof fn lemma_string_round_trip(v: Vec<u8>, chars: Seq<char>, rest: Seq<u8>)
    requires
        v@ == vstd::utf8::encode_utf8(chars),
        v@.len() < SIZE_LIMIT,
        8 * size_width(v@.len()) <= usize::BITS,
    ensures
        parse_string(Value::String(v).wire() + rest) == (
            Ok::<Seq<char>, Error>(chars),
            1 + size_width(v@.len()) + v@.len(),
        ),
{
    let s = Value::String(v).wire() + rest;
    vstd::utf8::encode_utf8_valid_utf8(chars);
    vstd::utf8::encode_utf8_decode_utf8(chars);
    lemma_chunk_round_trip(v@, rest);
    assert(s.skip(1) =~= chunk_wire(v@) + rest);
}

/// A string payload that is not UTF-8 fails with the error for malformed
/// UTF-8, not with an I/O or a type error.
pub proof fn lemma_malformed_utf8(bytes: Seq<u8>, rest: Seq<u8>)
    requires
        bytes.len() < SIZE_LIMIT,
        8 * size_width(bytes.len()) <= usize::BITS,
        !valid_utf8(bytes),
    ensures
        parse_text(chunk_wire(bytes) + rest).0 == Err::<Seq<char>, Error>(Error::FromUtf8),
        parse_string(seq![STRING] + chunk_wire(bytes) + rest).0 == Err::<Seq<char>, Error>(
            Error::FromUtf8,
        ),
        parse_any(seq![STRING] + chunk_wire(bytes) + rest).0 == Err::<Shape, Error>(
            Error::FromUtf8,
        ),
{
    let s = seq![STRING] + chunk_wire(bytes) + rest;
    lemma_chunk_round_trip(bytes, rest);
    assert(s.skip(1) =~= chunk_wire(bytes) + rest);
}

/// The bytes that start something the decoder knows: a value, an array,
/// an object, a variant, or one of the headers that it refuses by name.
pub open spec fn is_header(header: u8) -> bool {
    ||| header == NULL
    ||| header == DELIMITER
    ||| header == TRUE
    ||| header == FALSE
    ||| header == STRING
    ||| header == TAG
    ||| header == RESERVED
    ||| header == F128
    ||| header == F128_ARRAY
    ||| scalar_kind(header) is Some
    ||| ObjectKind::spec_from_header(header) is Some
    ||| ArrayKind::spec_from_header(header) is Some
}

/// A stream whose first byte is no header fails with `InvalidHeader` of
/// that byte, and the read takes nothing more than the look at that byte:
/// if no byte was held before, the source has lost exactly one byte, which
/// is now held, and what remains to be read is unchanged.
pub proof fn lemma_unknown_header(c: Cursor)
    requires
        c.wf(),
        c.rest().len() > 0,
        !is_header(c.rest()[0]),
    ensures
        parse_any(c.rest()) == (Err::<Shape, Error>(Error::InvalidHeader(c.rest()[0])), 0nat),
        c.peeked().skip(0).rest() == c.rest(),
        c.peek is None ==> c.peeked().skip(0).pos == c.pos + 1 && c.peeked().skip(0).peek == Some(
            c.rest()[0],
        ),
        c.peek is Some ==> c.peeked().skip(0) == c,
{
    assert(c.peeked().rest() =~= c.rest());
}

/// What reading whatever comes next gives for a scalar value.
pub open spec fn scalar_shape(value: Value) -> Option<Shape> {
    match value {
        Value::Null => Some(Shape::Unit),
        Value::True => Some(Shape::Bool(true)),
        Value::False => Some(Shape::Bool(false)),
        Value::String(bytes) => if valid_utf8(bytes@) {
            Some(Shape::Text(decode_utf8(bytes@)))
        } else {
            None
        },
        _ => match value.spec_scalar_bits() {
            Some((kind, bits)) => Some(Shape::Number(kind, bits)),
            None => None,
        },
    }
}

/// Decoding the encoding of a scalar gives the scalar: the read of
/// whatever comes next, on the bytes of a null, a boolean, a number or a
/// string, gives that value and takes exactly its bytes. A string must be
/// one whose length this platform can read.
pub proof fn lemma_decode_encode(value: Value, shape: Shape, rest: Seq<u8>)
    requires
        scalar_shape(value) == Some(shape),
        value.fits(),
        value matches Value::String(bytes) ==> 8 * size_width(bytes@.len()) <= usize::BITS,
    ensures
        parse_any(value.wire() + rest) == (Ok::<Shape, Error>(shape), value.wire().len()),
{
    let s = value.wire() + rest;
    assert(s.skip(1) =~= value.payload() + rest);
    assert(s[0] == value.spec_header());
    match value {
        Value::String(bytes) => {
            lemma_chunk_round_trip(bytes@, rest);
        },
        Value::I8(x) => lemma_number(x, ArrayKind::I8, rest),
        Value::I16(x) => lemma_number(x, ArrayKind::I16, rest),
        Value::I32(x) => lemma_number(x, ArrayKind::I32, rest),
        Value::I64(x) => lemma_number(x, ArrayKind::I64, rest),
        Value::I128(x) => lemma_number(x, ArrayKind::I128, rest),
        Value::U8(x) => lemma_number(x, ArrayKind::U8, rest),
        Value::U16(x) => lemma_number(x, ArrayKind::U16, rest),
        Value::U32(x) => lemma_number(x, ArrayKind::U32, rest),
        Value::U64(x) => lemma_number(x, ArrayKind::U64, rest),
        Value::U128(x) => lemma_number(x, ArrayKind::U128, rest),
        Value::F32(x) => lemma_number(x, ArrayKind::F32, rest),
        Value::F64(x) => lemma_number(x, ArrayKind::F64, rest),
        _ => {},
    }
}

/// The bare payload of a number is read back as the number that it
/// spells.
proof fn lemma_number<T: Scalar>(v: T, kind: ArrayKind, rest: Seq<u8>)
    requires
        T::width() == kind_width(kind),
    ensures
        num_wire(v).len() == T::width(),
        parse_number(num_wire(v) + rest, kind) == (Ok::<nat, Error>(v.bits()), T::width()),
{
    v.lemma_bits();
    lemma_le_bytes_len(v.bits(), T::width());
    lemma_le_value_of_bytes(v.bits(), T::width());
    assert((num_wire(v) + rest).take(T::width() as int) =~= num_wire(v));
}

/// The payloads of the numbers of an array take the width of the kind
/// each.
pub proof fn lemma_nums_len<T: Scalar>(a: Seq<T>)
    ensures
        nums_wire(a).len() == a.len() * T::width(),
    decreases a.len(),
{
    if a.len() > 0 {
        lemma_nums_len(a.drop_last());
        lemma_num_round_trip(a.last(), Seq::<u8>::empty());
        assert(a.len() * T::width() == (a.len() - 1) * T::width() + T::width())
            by (nonlinear_arith);
    }
}

/// Every element of a homogeneous array of numbers is read back as itself:
/// behind the payloads of the `i` elements before it, the bare read of the
/// array's kind gives element `i`.
pub proof fn lemma_array_element<T: Scalar>(a: Seq<T>, i: int, rest: Seq<u8>)
    requires
        0 <= i < a.len(),
    ensures
        i * T::width() <= nums_wire(a).len(),
        parse_num::<T>((nums_wire(a) + rest).skip(i * T::width())) == (
            Ok::<T, Error>(a[i]),
            T::width(),
        ),
    decreases a.len(),
{
    let w = T::width() as int;
    lemma_nums_len(a);
    lemma_nums_len(a.drop_last());
    assert(i * w <= (a.len() - 1) * w) by (nonlinear_arith)
        requires
            0 <= i <= a.len() - 1,
            w >= 0,
    ;
    assert(a.len() * w == (a.len() - 1) * w + w) by (nonlinear_arith);
    let front = nums_wire(a.drop_last());
    let last = num_wire(a.last());
    assert(nums_wire(a) + rest =~= front + (last + rest));
    if i == a.len() - 1 {
        assert((front + (last + rest)).skip(i * w) =~= last + rest);
        lemma_num_round_trip(a.last(), rest);
    } else {
        lemma_array_element(a.drop_last(), i, last + rest);
    }
}

/// What reading `n` elements in a row as booleans gives, from element
/// `index` of an array of booleans on, with `hold` as the byte held.
pub open spec fn read_bools(s: Seq<u8>, index: nat, hold: u8, n: nat) -> Seq<bool>
    decreases n,
{
    if n == 0 {
        Seq::empty()
    } else {
        let step = element_bool(ArrayKind::Boolean, index as usize, hold, s);
        let held = element_hold(ArrayKind::Boolean, index as usize, hold, s);
        match step.0 {
            Ok(v) => seq![v] + read_bools(s.skip(step.1 as int), index + 1, held, (n - 1) as nat),
            Err(_) => Seq::empty(),
        }
    }
}

/// Booleans that were packed are read back one by one as themselves:
/// element `i` is bit `i % 8` of byte `i / 8` of the payload, and the reads
/// take exactly the packed bytes.
pub proof fn lemma_bools_round_trip(bools: Seq<bool>, hold: u8, rest: Seq<u8>)
    requires
        bools.len() <= usize::MAX,
    ensures
        read_bools(pack(bools) + rest, 0, hold, bools.len()) == bools,
{
    lemma_bools_from(bools, 0, hold, rest);
    assert((pack(bools) + rest).skip(0) =~= pack(bools) + rest);
    assert(bools.skip(0) =~= bools);
}

proof fn lemma_bools_from(bools: Seq<bool>, i: nat, hold: u8, rest: Seq<u8>)
    requires
        bools.len() <= usize::MAX,
        i <= bools.len(),
        i % 8 != 0 ==> hold == pack(bools)[i as int / 8],
    ensures
        read_bools(
            (pack(bools) + rest).skip((i as int + 7) / 8),
            i,
            hold,
            (bools.len() - i) as nat,
        ) == bools.skip(i as int),
    decreases bools.len() - i,
{
    let all = pack(bools) + rest;
    let s = all.skip((i as int + 7) / 8);
    if i < bools.len() {
        lemma_pack_bit(bools, i);
        let step = element_bool(ArrayKind::Boolean, i as usize, hold, s);
        let held = element_hold(ArrayKind::Boolean, i as usize, hold, s);
        assert(i as int / 8 < packed_len(bools.len()));
        if i % 8 == 0 {
            assert(s[0] == pack(bools)[i as int / 8]);
            assert(s.skip(1) =~= all.skip((i as int + 1 + 7) / 8));
        } else {
            assert(s.skip(0) =~= s);
        }
        assert(step.0 == Ok::<bool, Error>(bools[i as int]));
        assert(s.skip(step.1 as int) =~= all.skip((i as int + 1 + 7) / 8));
        lemma_bools_from(bools, i + 1, held, rest);
        assert(bools.skip(i as int) =~= seq![bools[i as int]] + bools.skip(i as int + 1));
    } else {
        assert(bools.skip(i as int) =~= Seq::<bool>::empty());
    }
}

} // verus!
