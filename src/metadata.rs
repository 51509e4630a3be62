//! Source symbol identifiers and their eight-byte big-endian wire form.

use byteorder::{BigEndian, ByteOrder};
use vstd::prelude::*;

verus! {

/// The wire form of a source symbol identifier.
pub type SourceSymbolMetadata = [u8; 8];

/// The eight bytes of `n`, most significant first.
pub open spec fn be_bytes_u64(n: u64) -> Seq<u8> {
    seq![
        (n >> 56u64) as u8,
        (n >> 48u64) as u8,
        (n >> 40u64) as u8,
        (n >> 32u64) as u8,
        (n >> 24u64) as u8,
        (n >> 16u64) as u8,
        (n >> 8u64) as u8,
        n as u8,
    ]
}

/// The number whose big-endian form is the first eight bytes of `b`.
pub open spec fn be_value_u64(b: Seq<u8>) -> u64
    recommends
        b.len() >= 8,
{
    (b[0] as u64) << 56u64 | (b[1] as u64) << 48u64 | (b[2] as u64) << 40u64 | (b[3] as u64)
        << 32u64 | (b[4] as u64) << 24u64 | (b[5] as u64) << 16u64 | (b[6] as u64) << 8u64 | (
    b[7] as u64)
}

/// The four bytes of `n`, most significant first.
pub open spec fn be_bytes_u32(n: u32) -> Seq<u8> {
    seq![(n >> 24u32) as u8, (n >> 16u32) as u8, (n >> 8u32) as u8, n as u8]
}

/// The number whose big-endian form is the first four bytes of `b`.
pub open spec fn be_value_u32(b: Seq<u8>) -> u32
    recommends
        b.len() >= 4,
{
    (b[0] as u32) << 24u32 | (b[1] as u32) << 16u32 | (b[2] as u32) << 8u32 | (b[3] as u32)
}

/// Reading back the big-endian form of a 64-bit number gives the number.
pub proof fn lemma_be_u64_round_trip(n: u64)
    ensures
        be_value_u64(be_bytes_u64(n)) == n,
{
    assert(((((n >> 56u64) as u8) as u64) << 56u64 | (((n >> 48u64) as u8) as u64) << 48u64 | (((n
        >> 40u64) as u8) as u64) << 40u64 | (((n >> 32u64) as u8) as u64) << 32u64 | (((n
        >> 24u64) as u8) as u64) << 24u64 | (((n >> 16u64) as u8) as u64) << 16u64 | (((n
        >> 8u64) as u8) as u64) << 8u64 | ((n as u8) as u64)) == n) by (bit_vector);
}

/// Reading back the big-endian form of a 32-bit number gives the number.
pub proof fn lemma_be_u32_round_trip(n: u32)
    ensures
        be_value_u32(be_bytes_u32(n)) == n,
{
    assert(((((n >> 24u32) as u8) as u32) << 24u32 | (((n >> 16u32) as u8) as u32) << 16u32 | (((n
        >> 8u32) as u8) as u32) << 8u32 | ((n as u8) as u32)) == n) by (bit_vector);
}

/// Writing the number that eight bytes encode gives those bytes back.
pub proof fn lemma_be_u64_bytes_of_value(b: Seq<u8>)
    requires
        b.len() == 8,
    ensures
        be_bytes_u64(be_value_u64(b)) == b,
{
    let (b0, b1, b2, b3, b4, b5, b6, b7) = (b[0], b[1], b[2], b[3], b[4], b[5], b[6], b[7]);
    let v = be_value_u64(b);
    assert(v == (b0 as u64) << 56u64 | (b1 as u64) << 48u64 | (b2 as u64) << 40u64 | (b3 as u64)
        << 32u64 | (b4 as u64) << 24u64 | (b5 as u64) << 16u64 | (b6 as u64) << 8u64 | (b7 as u64));
    assert((v >> 56u64) as u8 == b0 && (v >> 48u64) as u8 == b1 && (v >> 40u64) as u8 == b2 && (v
        >> 32u64) as u8 == b3 && (v >> 24u64) as u8 == b4 && (v >> 16u64) as u8 == b5 && (v
        >> 8u64) as u8 == b6 && v as u8 == b7) by (bit_vector)
        requires
            v == (b0 as u64) << 56u64 | (b1 as u64) << 48u64 | (b2 as u64) << 40u64 | (b3 as u64)
                << 32u64 | (b4 as u64) << 24u64 | (b5 as u64) << 16u64 | (b6 as u64) << 8u64 | (
            b7 as u64),
    ;
    assert(be_bytes_u64(v) =~= b);
}

/// Relies on byteorder's `BigEndian::read_u64`: the number whose big-endian
/// form is the eight bytes at `offset`.
#[verifier::external_body]
pub(crate) fn read_u64_at(buf: &[u8], offset: usize) -> (r: u64)
    requires
        offset + 8 <= buf@.len(),
    ensures
        r == be_value_u64(buf@.subrange(offset as int, offset + 8)),
{
    BigEndian::read_u64(&buf[offset..])
}

/// Relies on byteorder's `BigEndian::read_u32`: the number whose big-endian
/// form is the four bytes at `offset`.
#[verifier::external_body]
pub(crate) fn read_u32_at(buf: &[u8], offset: usize) -> (r: u32)
    requires
        offset + 4 <= buf@.len(),
    ensures
        r == be_value_u32(buf@.subrange(offset as int, offset + 4)),
{
    BigEndian::read_u32(&buf[offset..])
}

/// Relies on byteorder's `BigEndian::write_u64`: puts the big-endian form of
/// `n` at `offset` and leaves every other byte as it was.
#[verifier::external_body]
pub(crate) fn write_u64_at(buf: &mut [u8], offset: usize, n: u64)
    requires
        offset + 8 <= old(buf)@.len(),
    ensures
        final(buf)@ == old(buf)@.subrange(0, offset as int) + be_bytes_u64(n) + old(
            buf,
        )@.subrange(offset + 8, old(buf)@.len() as int),
{
    BigEndian::write_u64(&mut buf[offset..], n)
}

/// Relies on byteorder's `BigEndian::write_u32`: puts the big-endian form of
/// `n` at `offset` and leaves every other byte as it was.
#[verifier::external_body]
pub(crate) fn write_u32_at(buf: &mut [u8], offset: usize, n: u32)
    requires
        offset + 4 <= old(buf)@.len(),
    ensures
        final(buf)@ == old(buf)@.subrange(0, offset as int) + be_bytes_u32(n) + old(
            buf,
        )@.subrange(offset + 4, old(buf)@.len() as int),
{
    BigEndian::write_u32(&mut buf[offset..], n)
}

/// The wire form of the identifier `n`.
pub fn source_symbol_metadata_from_u64(n: u64) -> (md: SourceSymbolMetadata)
    ensures
        md@ == be_bytes_u64(n),
{
    let mut ret: [u8; 8] = [0u8; 8];
    write_u64_at(&mut ret, 0, n);
    assert(ret@ =~= be_bytes_u64(n));
    ret
}

/// The identifier whose wire form is `md`.
pub fn source_symbol_metadata_to_u64(md: SourceSymbolMetadata) -> (n: u64)
    ensures
        n == be_value_u64(md@),
        md@ == be_bytes_u64(n),
{
    let n = read_u64_at(&md, 0);
    proof {
        assert(md@.subrange(0, 8) =~= md@);
        lemma_be_u64_bytes_of_value(md@);
    }
    n
}

} // verus!
