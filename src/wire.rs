//! The fixed binary layouts of repair symbols. Neither layout says which
//! scheme wrote it: a decoder reads bytes as its own scheme lays them out.
//!
//! RLC: `pivot: u64 | count: u64 | seed: u32 | payload`.
//! VLC: `pivot: u64 | count: u32 | sequence_number: u64 | payload`.

use crate::error::DecoderError;
use crate::metadata::{
    be_bytes_u32, be_bytes_u64, be_value_u32, be_value_u64, lemma_be_u32_round_trip,
    lemma_be_u64_bytes_of_value, lemma_be_u64_round_trip, read_u32_at, read_u64_at,
    source_symbol_metadata_from_u64, write_u32_at, write_u64_at, SourceSymbolMetadata,
};
use crate::symbol::RepairSymbol;
use vstd::prelude::*;
use vstd::slice::{slice_subrange, slice_to_vec};

verus! {

/// Bytes of a repair symbol before its payload, in either layout.
pub const REPAIR_HEADER_SIZE: usize = 20;

/// Bytes of the wire form of a source symbol identifier.
pub const METADATA_SIZE: usize = 8;

/// The RLC wire form of an equation over `[pivot, pivot + count)`.
pub open spec fn rlc_wire(pivot: u64, count: u64, seed: u32, payload: Seq<u8>) -> Seq<u8> {
    be_bytes_u64(pivot) + be_bytes_u64(count) + be_bytes_u32(seed) + payload
}

/// The VLC wire form of an equation over `[pivot, pivot + count)`.
pub open spec fn vlc_wire(pivot: u64, count: u32, sequence_number: u64, payload: Seq<u8>) -> Seq<
    u8,
> {
    be_bytes_u64(pivot) + be_bytes_u32(count) + be_bytes_u64(sequence_number) + payload
}

/// The fields of an RLC repair symbol.
pub struct RlcRepairFields {
    pub first_id: u64,
    pub n_protected_symbols: u64,
    pub seed: u32,
    pub payload: Vec<u8>,
}

/// The fields of a VLC repair symbol.
pub struct VlcRepairFields {
    pub first_id: u64,
    pub n_protected_symbols: u32,
    pub sequence_number: u64,
    pub payload: Vec<u8>,
}

/// Puts `src` at `offset` of `output` and leaves every other byte as it was.
pub(crate) fn copy_into(output: &mut [u8], offset: usize, src: &[u8])
    requires
        offset + src@.len() <= old(output)@.len(),
    ensures
        final(output)@ == old(output)@.subrange(0, offset as int) + src@ + old(
            output,
        )@.subrange(offset + src@.len(), old(output)@.len() as int),
{
    let n = src.len();
    let total = output.len();
    let ghost before = output@;
    let mut i: usize = 0;
    while i < n
        invariant
            i <= n,
            n == src@.len(),
            total == before.len(),
            offset + n <= before.len(),
            output@.len() == before.len(),
            output@ == before.subrange(0, offset as int) + src@.subrange(0, i as int)
                + before.subrange(offset + i, before.len() as int),
        decreases n - i,
    {
        output[offset + i] = src[i];
        i = i + 1;
        assert(output@ =~= before.subrange(0, offset as int) + src@.subrange(0, i as int)
            + before.subrange(offset + i, before.len() as int));
    }
    assert(src@.subrange(0, n as int) =~= src@);
}

/// Writes the RLC wire form of an equation at the start of `output` and
/// returns its length; the bytes after it are left as they were.
pub fn write_rlc_repair_symbol(
    output: &mut [u8],
    pivot: u64,
    count: u64,
    seed: u32,
    payload: &[u8],
) -> (written: usize)
    requires
        REPAIR_HEADER_SIZE + payload@.len() <= old(output)@.len(),
    ensures
        written == REPAIR_HEADER_SIZE + payload@.len(),
        final(output)@ == rlc_wire(pivot, count, seed, payload@) + old(output)@.subrange(
            written as int,
            old(output)@.len() as int,
        ),
{
    let ghost before = output@;
    let total = output.len();
    write_u64_at(output, 0, pivot);
    write_u64_at(output, 8, count);
    write_u32_at(output, 16, seed);
    copy_into(output, REPAIR_HEADER_SIZE, payload);
    let written = REPAIR_HEADER_SIZE + payload.len();
    assert(output@ =~= rlc_wire(pivot, count, seed, payload@) + before.subrange(
        written as int,
        before.len() as int,
    ));
    written
}

/// Writes the VLC wire form of an equation at the start of `output` and
/// returns its length; the bytes after it are left as they were.
pub fn write_vlc_repair_symbol(
    output: &mut [u8],
    pivot: u64,
    count: u32,
    sequence_number: u64,
    payload: &[u8],
) -> (written: usize)
    requires
        REPAIR_HEADER_SIZE + payload@.len() <= old(output)@.len(),
    ensures
        written == REPAIR_HEADER_SIZE + payload@.len(),
        final(output)@ == vlc_wire(pivot, count, sequence_number, payload@) + old(
            output,
        )@.subrange(written as int, old(output)@.len() as int),
{
    let ghost before = output@;
    let total = output.len();
    write_u64_at(output, 0, pivot);
    write_u32_at(output, 8, count);
    write_u64_at(output, 12, sequence_number);
    copy_into(output, REPAIR_HEADER_SIZE, payload);
    let written = REPAIR_HEADER_SIZE + payload.len();
    assert(output@ =~= vlc_wire(pivot, count, sequence_number, payload@) + before.subrange(
        written as int,
        before.len() as int,
    ));
    written
}

/// Reads the fields of an RLC repair symbol whose payload has `symbol_size`
/// bytes; `None` where `data` is shorter than that symbol.
pub fn parse_rlc_repair_symbol(data: &[u8], symbol_size: usize) -> (r: Option<RlcRepairFields>)
    requires
        REPAIR_HEADER_SIZE + symbol_size <= usize::MAX,
    ensures
        r is None <==> data@.len() < REPAIR_HEADER_SIZE + symbol_size,
        r matches Some(f) ==> {
            &&& f.first_id == be_value_u64(data@.subrange(0, 8))
            &&& f.n_protected_symbols == be_value_u64(data@.subrange(8, 16))
            &&& f.seed == be_value_u32(data@.subrange(16, 20))
            &&& f.payload@ == data@.subrange(20, 20 + symbol_size)
        },
{
    if data.len() < REPAIR_HEADER_SIZE + symbol_size {
        return None;
    }
    let first_id = read_u64_at(data, 0);
    let n_protected_symbols = read_u64_at(data, 8);
    let seed = read_u32_at(data, 16);
    let payload = slice_to_vec(slice_subrange(data, REPAIR_HEADER_SIZE, REPAIR_HEADER_SIZE + symbol_size));
    Some(RlcRepairFields { first_id, n_protected_symbols, seed, payload })
}

/// Reads the fields of a VLC repair symbol whose payload has `symbol_size`
/// bytes; `None` where `data` is shorter than that symbol.
pub fn parse_vlc_repair_symbol(data: &[u8], symbol_size: usize) -> (r: Option<VlcRepairFields>)
    requires
        REPAIR_HEADER_SIZE + symbol_size <= usize::MAX,
    ensures
        r is None <==> data@.len() < REPAIR_HEADER_SIZE + symbol_size,
        r matches Some(f) ==> {
            &&& f.first_id == be_value_u64(data@.subrange(0, 8))
            &&& f.n_protected_symbols == be_value_u32(data@.subrange(8, 12))
            &&& f.sequence_number == be_value_u64(data@.subrange(12, 20))
            &&& f.payload@ == data@.subrange(20, 20 + symbol_size)
        },
{
    if data.len() < REPAIR_HEADER_SIZE + symbol_size {
        return None;
    }
    let first_id = read_u64_at(data, 0);
    let n_protected_symbols = read_u32_at(data, 8);
    let sequence_number = read_u64_at(data, 12);
    let payload = slice_to_vec(slice_subrange(data, REPAIR_HEADER_SIZE, REPAIR_HEADER_SIZE + symbol_size));
    Some(VlcRepairFields { first_id, n_protected_symbols, sequence_number, payload })
}

/// Takes the repair symbol at the start of `data`, whose payload has
/// `symbol_size` bytes, without reading its fields; returns how many bytes it
/// spans.
pub fn read_repair_symbol_bytes(data: &[u8], symbol_size: usize) -> (r: Result<
    (usize, RepairSymbol),
    DecoderError,
>)
    requires
        REPAIR_HEADER_SIZE + symbol_size <= usize::MAX,
    ensures
        data@.len() < REPAIR_HEADER_SIZE + symbol_size ==> r matches Err(DecoderError::BufferTooSmall),
        data@.len() >= REPAIR_HEADER_SIZE + symbol_size ==> (r matches Ok((n, rs)) && n
            == REPAIR_HEADER_SIZE + symbol_size && rs.bytes() == data@.subrange(0, n as int)),
{
    let length = REPAIR_HEADER_SIZE + symbol_size;
    if data.len() < length {
        return Err(DecoderError::BufferTooSmall);
    }
    let bytes = slice_to_vec(slice_subrange(data, 0, length));
    Ok((length, RepairSymbol::new(bytes)))
}

/// Reads the identifier at the start of `data`; returns how many bytes it
/// spans and its wire form.
pub fn read_metadata(data: &[u8]) -> (r: Result<(usize, SourceSymbolMetadata), DecoderError>)
    ensures
        data@.len() < METADATA_SIZE ==> r matches Err(DecoderError::BufferTooSmall),
        data@.len() >= METADATA_SIZE ==> (r matches Ok((n, md)) && n == METADATA_SIZE && md@
            == data@.subrange(0, 8)),
{
    if data.len() < METADATA_SIZE {
        return Err(DecoderError::BufferTooSmall);
    }
    let id = read_u64_at(data, 0);
    proof {
        lemma_be_u64_bytes_of_value(data@.subrange(0, 8));
    }
    Ok((METADATA_SIZE, source_symbol_metadata_from_u64(id)))
}

/// Reading an RLC repair symbol gives back the fields it was written from.
pub proof fn lemma_rlc_wire_round_trip(pivot: u64, count: u64, seed: u32, payload: Seq<u8>)
    ensures
        ({
            let w = rlc_wire(pivot, count, seed, payload);
            &&& w.len() == REPAIR_HEADER_SIZE + payload.len()
            &&& be_value_u64(w.subrange(0, 8)) == pivot
            &&& be_value_u64(w.subrange(8, 16)) == count
            &&& be_value_u32(w.subrange(16, 20)) == seed
            &&& w.subrange(20, 20 + payload.len() as int) == payload
        }),
{
    let w = rlc_wire(pivot, count, seed, payload);
    lemma_be_u64_round_trip(pivot);
    lemma_be_u64_round_trip(count);
    lemma_be_u32_round_trip(seed);
    assert(w.subrange(0, 8) =~= be_bytes_u64(pivot));
    assert(w.subrange(8, 16) =~= be_bytes_u64(count));
    assert(w.subrange(16, 20) =~= be_bytes_u32(seed));
    assert(w.subrange(20, 20 + payload.len() as int) =~= payload);
}

/// Reading a VLC repair symbol gives back the fields it was written from.
pub proof fn lemma_vlc_wire_round_trip(pivot: u64, count: u32, sequence_number: u64, payload: Seq<u8>)
    ensures
        ({
            let w = vlc_wire(pivot, count, sequence_number, payload);
            &&& w.len() == REPAIR_HEADER_SIZE + payload.len()
            &&& be_value_u64(w.subrange(0, 8)) == pivot
            &&& be_value_u32(w.subrange(8, 12)) == count
            &&& be_value_u64(w.subrange(12, 20)) == sequence_number
            &&& w.subrange(20, 20 + payload.len() as int) == payload
        }),
{
    let w = vlc_wire(pivot, count, sequence_number, payload);
    let a = be_bytes_u64(pivot);
    let b = be_bytes_u32(count);
    let c = be_bytes_u64(sequence_number);
    assert(w == a + b + c + payload);
    assert(w.subrange(0, 8) =~= a);
    assert(w.subrange(8, 12) =~= b);
    assert(w.subrange(12, 20) =~= c);
    assert(w.subrange(20, 20 + payload.len() as int) =~= payload);
    lemma_be_u64_round_trip(pivot);
    lemma_be_u32_round_trip(count);
    lemma_be_u64_round_trip(sequence_number);
}

} // verus!
