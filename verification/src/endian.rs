//! Big-endian integers: the mathematical model and the executable codec.

use byteorder::{BigEndian, ByteOrder};
use vstd::prelude::*;

verus! {

/// The number that `bytes` spells in base 256, most significant byte first.
pub open spec fn be_value(bytes: Seq<u8>) -> nat
    decreases bytes.len(),
{
    if bytes.len() == 0 {
        0
    } else {
        be_value(bytes.drop_last()) * 256 + bytes.last() as nat
    }
}

/// The `width` least significant base-256 digits of `value`, most significant
/// first.
pub open spec fn be_bytes(value: nat, width: nat) -> Seq<u8>
    decreases width,
{
    if width == 0 {
        Seq::empty()
    } else {
        be_bytes(value / 256, (width - 1) as nat).push((value % 256) as u8)
    }
}

/// 256 to the power `width`: the number of values that `width` bytes spell.
pub open spec fn radix_pow(width: nat) -> nat
    decreases width,
{
    if width == 0 {
        1
    } else {
        256 * radix_pow((width - 1) as nat)
    }
}

/// `be_bytes` yields exactly `width` bytes.
pub proof fn lemma_be_bytes_len(value: nat, width: nat)
    ensures
        be_bytes(value, width).len() == width,
    decreases width,
{
    if width > 0 {
        lemma_be_bytes_len(value / 256, (width - 1) as nat);
    }
}

/// A byte string spells a number below 256 to the power of its length.
pub proof fn lemma_be_value_bound(bytes: Seq<u8>)
    ensures
        be_value(bytes) < radix_pow(bytes.len()),
    decreases bytes.len(),
{
    if bytes.len() > 0 {
        lemma_be_value_bound(bytes.drop_last());
    }
}

/// Encoding the number that a byte string spells, at the string's own width,
/// gives the string back.
pub proof fn lemma_bytes_of_value(bytes: Seq<u8>)
    ensures
        be_bytes(be_value(bytes), bytes.len()) == bytes,
    decreases bytes.len(),
{
    if bytes.len() > 0 {
        let front = bytes.drop_last();
        lemma_bytes_of_value(front);
        let v = be_value(bytes);
        assert(v / 256 == be_value(front));
        assert(v % 256 == bytes.last() as nat);
        assert(be_bytes(v, bytes.len()) =~= bytes);
    } else {
        assert(be_bytes(be_value(bytes), 0) =~= bytes);
    }
}

/// Decoding the `width`-byte encoding of a number that fits gives the number
/// back.
pub proof fn lemma_value_of_bytes(value: nat, width: nat)
    requires
        value < radix_pow(width),
    ensures
        be_value(be_bytes(value, width)) == value,
    decreases width,
{
    if width > 0 {
        let rest = (width - 1) as nat;
        lemma_value_of_bytes(value / 256, rest);
        let digits = be_bytes(value, width);
        assert(digits.drop_last() =~= be_bytes(value / 256, rest));
        assert(digits.last() == (value % 256) as u8);
    }
}

/// Four bytes spell 2^32 values, eight bytes 2^64.
pub proof fn lemma_radix_pow_words()
    ensures
        radix_pow(4) == 0x1_0000_0000,
        radix_pow(8) == 0x1_0000_0000_0000_0000,
{
    reveal_with_fuel(radix_pow, 10);
}

/// `byteorder::BigEndian::read_u32` on a four-byte slice: the result is the
/// number that the four bytes spell, most significant first.
#[verifier::external_body]
pub(crate) fn read_be_u32(buf: &[u8]) -> (value: u32)
    requires
        buf@.len() == 4,
    ensures
        value as nat == be_value(buf@),
{
    BigEndian::read_u32(buf)
}

/// `byteorder::BigEndian::read_u64` on an eight-byte slice: the result is the
/// number that the eight bytes spell, most significant first.
#[verifier::external_body]
pub(crate) fn read_be_u64(buf: &[u8]) -> (value: u64)
    requires
        buf@.len() == 8,
    ensures
        value as nat == be_value(buf@),
{
    BigEndian::read_u64(buf)
}

/// `byteorder::BigEndian::write_u32` on a four-byte slice: afterwards the
/// slice holds the four base-256 digits of `value`, most significant first.
#[verifier::external_body]
pub(crate) fn write_be_u32(buf: &mut [u8], value: u32)
    requires
        old(buf)@.len() == 4,
    ensures
        final(buf)@ == be_bytes(value as nat, 4),
{
    BigEndian::write_u32(buf, value)
}

/// `byteorder::BigEndian::write_u64` on an eight-byte slice: afterwards the
/// slice holds the eight base-256 digits of `value`, most significant first.
#[verifier::external_body]
pub(crate) fn write_be_u64(buf: &mut [u8], value: u64)
    requires
        old(buf)@.len() == 8,
    ensures
        final(buf)@ == be_bytes(value as nat, 8),
{
    BigEndian::write_u64(buf, value)
}

} // verus!
