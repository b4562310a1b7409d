//! Big-endian integers as they lie in a sequence of bytes.

use vstd::prelude::*;
use byteorder::{BigEndian, ByteOrder};

verus! {

/// The 16-bit value whose big-endian encoding is the first two bytes of `b`.
pub open spec fn be_u16(b: Seq<u8>) -> u16
    recommends
        b.len() >= 2,
{
    (b[0] * 0x100 + b[1]) as u16
}

/// The 32-bit value whose big-endian encoding is the first four bytes of `b`.
pub open spec fn be_u32(b: Seq<u8>) -> u32
    recommends
        b.len() >= 4,
{
    (b[0] * 0x100_0000 + b[1] * 0x1_0000 + b[2] * 0x100 + b[3]) as u32
}

/// The four bytes that encode `x` in big-endian order.
pub open spec fn u32_be_bytes(x: u32) -> Seq<u8> {
    seq![
        (x / 0x100_0000) as u8,
        (x / 0x1_0000 % 0x100) as u8,
        (x / 0x100 % 0x100) as u8,
        (x % 0x100) as u8,
    ]
}

/// Decoding four bytes and encoding the value again gives the same four
/// bytes.
pub proof fn lemma_be_u32_round_trip(b: Seq<u8>)
    requires
        b.len() == 4,
    ensures
        u32_be_bytes(be_u32(b)) == b,
{
    let x = be_u32(b);
    assert(x == b[0] * 0x100_0000 + b[1] * 0x1_0000 + b[2] * 0x100 + b[3]);
    assert(x / 0x100_0000 == b[0]);
    assert(x / 0x1_0000 % 0x100 == b[1]);
    assert(x / 0x100 % 0x100 == b[2]);
    assert(x % 0x100 == b[3]);
    assert(u32_be_bytes(x) =~= b);
}

/// Two runs of four bytes that decode to the same 32-bit value are the same
/// bytes.
pub proof fn lemma_be_u32_injective(a: Seq<u8>, b: Seq<u8>)
    requires
        a.len() == 4,
        b.len() == 4,
        be_u32(a) == be_u32(b),
    ensures
        a == b,
{
    lemma_be_u32_round_trip(a);
    lemma_be_u32_round_trip(b);
}

/// Two pairs of bytes that decode to the same 16-bit value are the same
/// bytes.
pub proof fn lemma_be_u16_injective(a: Seq<u8>, b: Seq<u8>)
    requires
        a.len() == 2,
        b.len() == 2,
        be_u16(a) == be_u16(b),
    ensures
        a == b,
{
    let x = be_u16(a);
    assert(x / 0x100 == a[0] && x / 0x100 == b[0]);
    assert(x % 0x100 == a[1] && x % 0x100 == b[1]);
    assert(a =~= b);
}

/// `byteorder::BigEndian::read_u32`, which decodes the first four bytes of
/// `buf` as a big-endian unsigned integer and panics on a shorter buffer.
/// Believed, not proved: the result is the big-endian value of those bytes.
#[verifier::external_body]
pub(crate) fn read_u32_be(buf: &[u8]) -> (r: u32)
    requires
        buf@.len() >= 4,
    ensures
        r == be_u32(buf@),
{
    BigEndian::read_u32(buf)
}

} // verus!
