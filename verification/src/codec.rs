//! The primitive encodings of the SCALE wire format that relay calls are made of.

use vstd::prelude::*;

verus! {

/// The `count` low-order bytes of `value`, least significant first.
pub open spec fn le_bytes(value: nat, count: nat) -> Seq<u8>
    decreases count,
{
    if count == 0 {
        Seq::empty()
    } else {
        seq![(value % 256) as u8] + le_bytes(value / 256, (count - 1) as nat)
    }
}

/// How many bytes `value` takes once its leading zero bytes are dropped.
pub open spec fn significant_bytes(value: nat) -> nat
    decreases value,
{
    if value == 0 {
        0
    } else {
        1 + significant_bytes(value / 256)
    }
}

/// The compact encoding of an unsigned integer: the two low bits of the first
/// byte select the mode. Values below 2^6, 2^14 and 2^30 are shifted left by
/// two bits and stored in one, two and four bytes; a larger value is stored
/// as its significant bytes behind a byte that holds their count less four.
pub open spec fn compact(value: nat) -> Seq<u8> {
    if value < 0x40 {
        le_bytes(4 * value, 1)
    } else if value < 0x4000 {
        le_bytes(4 * value + 1, 2)
    } else if value < 0x4000_0000 {
        le_bytes(4 * value + 2, 4)
    } else {
        seq![(4 * (significant_bytes(value) - 4) + 3) as u8] + le_bytes(
            value,
            significant_bytes(value),
        )
    }
}

/// Calls `parity_scale_codec::Encode::encode` on a `Compact<u128>`. The
/// contract claims that the bytes are the compact encoding of the value, as
/// `compact` spells it out; Verus takes this on trust.
#[verifier::external_body]
pub(crate) fn compact_u128(value: u128) -> (bytes: Vec<u8>)
    ensures
        bytes@ == compact(value as nat),
{
    parity_scale_codec::Encode::encode(&parity_scale_codec::Compact(value))
}

/// Calls `parity_scale_codec::Encode::encode` on a `Compact<u32>`. The
/// contract claims that the bytes are the compact encoding of the value, as
/// `compact` spells it out; Verus takes this on trust.
#[verifier::external_body]
pub(crate) fn compact_u32(value: u32) -> (bytes: Vec<u8>)
    ensures
        bytes@ == compact(value as nat),
{
    parity_scale_codec::Encode::encode(&parity_scale_codec::Compact(value))
}

/// Appends every byte of `tail` to `out`.
pub fn extend(out: &mut Vec<u8>, tail: &Vec<u8>)
    ensures
        final(out)@ == old(out)@ + tail@,
{
    let mut i: usize = 0;
    while i < tail.len()
        invariant
            i <= tail.len(),
            out@ == old(out)@ + tail@.subrange(0, i as int),
        decreases tail.len() - i,
    {
        out.push(tail[i]);
        i += 1;
    }
    assert(tail@.subrange(0, tail.len() as int) == tail@);
}

/// Appends the two bytes of `value`, least significant first.
pub fn put_u16(out: &mut Vec<u8>, value: u16)
    ensures
        final(out)@ == old(out)@ + le_bytes(value as nat, 2),
{
    let b0: u8 = (value & 0xff) as u8;
    let b1: u8 = (value >> 8) as u8;
    assert(b0 == value % 256 && b1 == (value / 256) % 256) by (bit_vector)
        requires
            b0 == (value & 0xff) as u8,
            b1 == (value >> 8) as u8,
    ;
    out.push(b0);
    out.push(b1);
    assert(le_bytes(value as nat, 2) == seq![b0, b1]) by {
        reveal_with_fuel(le_bytes, 3);
    }
}

/// Appends the four bytes of `value`, least significant first.
pub fn put_u32(out: &mut Vec<u8>, value: u32)
    ensures
        final(out)@ == old(out)@ + le_bytes(value as nat, 4),
{
    let b0: u8 = (value & 0xff) as u8;
    let b1: u8 = ((value >> 8) & 0xff) as u8;
    let b2: u8 = ((value >> 16) & 0xff) as u8;
    let b3: u8 = (value >> 24) as u8;
    assert(b0 == value % 256 && b1 == (value / 256) % 256 && b2 == (value / 65536) % 256 && b3
        == (value / 16777216) % 256) by (bit_vector)
        requires
            b0 == (value & 0xff) as u8,
            b1 == ((value >> 8) & 0xff) as u8,
            b2 == ((value >> 16) & 0xff) as u8,
            b3 == (value >> 24) as u8,
    ;
    out.push(b0);
    out.push(b1);
    out.push(b2);
    out.push(b3);
    assert(le_bytes(value as nat, 4) == seq![b0, b1, b2, b3]) by {
        reveal_with_fuel(le_bytes, 5);
        let v = value as nat;
        assert(v / 256 / 256 == v / 65536) by (nonlinear_arith);
        assert(v / 256 / 256 / 256 == v / 16777216) by (nonlinear_arith);
    }
}

/// Appends the compact encoding of `value`.
pub fn put_compact(out: &mut Vec<u8>, value: u128)
    ensures
        final(out)@ == old(out)@ + compact(value as nat),
{
    let bytes = compact_u128(value);
    extend(out, &bytes);
}

/// Appends the compact encoding of a collection's length.
pub fn put_length(out: &mut Vec<u8>, length: u32)
    ensures
        final(out)@ == old(out)@ + compact(length as nat),
{
    let bytes = compact_u32(length);
    extend(out, &bytes);
}

} // verus!
