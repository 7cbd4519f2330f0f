//! Unsigned integers as little-endian byte strings.
use vstd::prelude::*;

verus! {

/// The value of the first four bytes of `b`, least significant byte first.
pub open spec fn u32_from_le(b: Seq<u8>) -> u32
    recommends
        b.len() >= 4,
{
    (b[0] as int + b[1] as int * 0x100 + b[2] as int * 0x1_0000 + b[3] as int * 0x100_0000) as u32
}

/// The value of the first eight bytes of `b`, least significant byte first.
pub open spec fn u64_from_le(b: Seq<u8>) -> u64
    recommends
        b.len() >= 8,
{
    (b[0] as int + b[1] as int * 0x100 + b[2] as int * 0x1_0000 + b[3] as int * 0x100_0000
        + b[4] as int * 0x1_0000_0000 + b[5] as int * 0x100_0000_0000 + b[6] as int
        * 0x1_0000_0000_0000 + b[7] as int * 0x100_0000_0000_0000) as u64
}

/// The four bytes that stand for `v`, least significant byte first.
pub open spec fn u32_to_le(v: u32) -> Seq<u8> {
    seq![
        (v % 0x100) as u8,
        (v / 0x100 % 0x100) as u8,
        (v / 0x1_0000 % 0x100) as u8,
        (v / 0x100_0000) as u8,
    ]
}

/// The eight bytes that stand for `v`, least significant byte first.
pub open spec fn u64_to_le(v: u64) -> Seq<u8> {
    seq![
        (v % 0x100) as u8,
        (v / 0x100 % 0x100) as u8,
        (v / 0x1_0000 % 0x100) as u8,
        (v / 0x100_0000 % 0x100) as u8,
        (v / 0x1_0000_0000 % 0x100) as u8,
        (v / 0x100_0000_0000 % 0x100) as u8,
        (v / 0x1_0000_0000_0000 % 0x100) as u8,
        (v / 0x100_0000_0000_0000) as u8,
    ]
}

/// A 32-bit value is the sum of its bytes, each at its weight.
proof fn lemma_u32_digits(v: u32)
    by (bit_vector)
    ensures
        v == v % 0x100 + (v / 0x100 % 0x100) * 0x100 + (v / 0x1_0000 % 0x100) * 0x1_0000 + (v
            / 0x100_0000) * 0x100_0000,
        v / 0x100_0000 < 0x100,
{
}

/// Reading back the bytes of a 32-bit value gives the value, whatever follows
/// them.
pub proof fn lemma_u32_le_round_trip(v: u32, tail: Seq<u8>)
    ensures
        u32_to_le(v).len() == 4,
        u32_from_le(u32_to_le(v) + tail) == v,
{
    lemma_u32_digits(v);
}

/// A 64-bit value is the sum of its bytes, each at its weight.
proof fn lemma_u64_digits(v: u64)
    by (bit_vector)
    ensures
        v == v % 0x100 + (v / 0x100 % 0x100) * 0x100 + (v / 0x1_0000 % 0x100) * 0x1_0000 + (v
            / 0x100_0000 % 0x100) * 0x100_0000 + (v / 0x1_0000_0000 % 0x100) * 0x1_0000_0000 + (v
            / 0x100_0000_0000 % 0x100) * 0x100_0000_0000 + (v / 0x1_0000_0000_0000 % 0x100)
            * 0x1_0000_0000_0000 + (v / 0x100_0000_0000_0000) * 0x100_0000_0000_0000,
        v / 0x100_0000_0000_0000 < 0x100,
{
}

/// Reading back the bytes of a 64-bit value gives the value, whatever follows
/// them.
pub proof fn lemma_u64_le_round_trip(v: u64, tail: Seq<u8>)
    ensures
        u64_to_le(v).len() == 8,
        u64_from_le(u64_to_le(v) + tail) == v,
{
    lemma_u64_digits(v);
}

/// The bytes of a sum of four bytes, each at its weight, are those bytes.
proof fn lemma_u32_of_digits(b0: u8, b1: u8, b2: u8, b3: u8)
    by (bit_vector)
    ensures
        ({
            let v: u32 = (b0 as u32 + b1 as u32 * 0x100 + b2 as u32 * 0x1_0000 + b3 as u32
                * 0x100_0000) as u32;
            &&& v % 0x100 == b0
            &&& v / 0x100 % 0x100 == b1
            &&& v / 0x1_0000 % 0x100 == b2
            &&& v / 0x100_0000 == b3
        }),
{
}

/// Four bytes are the bytes of the value they stand for.
pub proof fn lemma_u32_le_bytes(b: Seq<u8>)
    requires
        b.len() >= 4,
    ensures
        u32_to_le(u32_from_le(b)) == b.take(4),
{
    lemma_u32_of_digits(b[0], b[1], b[2], b[3]);
    assert(u32_to_le(u32_from_le(b)) =~= b.take(4));
}

/// The bytes of a sum of eight bytes, each at its weight, are those bytes.
proof fn lemma_u64_of_digits(b0: u8, b1: u8, b2: u8, b3: u8, b4: u8, b5: u8, b6: u8, b7: u8)
    by (bit_vector)
    ensures
        ({
            let v: u64 = (b0 as u64 + b1 as u64 * 0x100 + b2 as u64 * 0x1_0000 + b3 as u64 * 0x100_0000
                + b4 as u64 * 0x1_0000_0000 + b5 as u64 * 0x100_0000_0000 + b6 as u64
                * 0x1_0000_0000_0000 + b7 as u64 * 0x100_0000_0000_0000) as u64;
            &&& v % 0x100 == b0
            &&& v / 0x100 % 0x100 == b1
            &&& v / 0x1_0000 % 0x100 == b2
            &&& v / 0x100_0000 % 0x100 == b3
            &&& v / 0x1_0000_0000 % 0x100 == b4
            &&& v / 0x100_0000_0000 % 0x100 == b5
            &&& v / 0x1_0000_0000_0000 % 0x100 == b6
            &&& v / 0x100_0000_0000_0000 == b7
        }),
{
}

/// Eight bytes are the bytes of the value they stand for.
pub proof fn lemma_u64_le_bytes(b: Seq<u8>)
    requires
        b.len() >= 8,
    ensures
        u64_to_le(u64_from_le(b)) == b.take(8),
{
    lemma_u64_of_digits(b[0], b[1], b[2], b[3], b[4], b[5], b[6], b[7]);
    assert(u64_to_le(u64_from_le(b)) =~= b.take(8));
}

/// Reads a 32-bit value from the first four bytes of `b`.
pub(crate) fn read_u32_le(b: &[u8]) -> (v: u32)
    requires
        b@.len() >= 4,
    ensures
        v == u32_from_le(b@),
{
    b[0] as u32 + b[1] as u32 * 0x100 + b[2] as u32 * 0x1_0000 + b[3] as u32 * 0x100_0000
}

/// Reads a 64-bit value from the first eight bytes of `b`.
pub(crate) fn read_u64_le(b: &[u8]) -> (v: u64)
    requires
        b@.len() >= 8,
    ensures
        v == u64_from_le(b@),
{
    b[0] as u64 + b[1] as u64 * 0x100 + b[2] as u64 * 0x1_0000 + b[3] as u64 * 0x100_0000 + b[4] as u64
        * 0x1_0000_0000 + b[5] as u64 * 0x100_0000_0000 + b[6] as u64 * 0x1_0000_0000_0000 + b[7] as u64
        * 0x100_0000_0000_0000
}

} // verus!
