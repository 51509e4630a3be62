//! One encoder and one decoder over the two schemes, chosen at
//! construction: every operation dispatches on the scheme.

use crate::decoder_window::{
    contiguous_through, distinct_ids, learned, range_malformed, removal, source_symbol_fresh,
    source_symbol_unused, WindowModel,
};
use crate::encoder_window::{
    encoder_removal, equation_fits, generation_error_of, EncoderModel, RepairEquation,
};
use crate::error::{decoder_error_of, DecoderError, EncoderError, GenerationError, SolverError};
use crate::metadata::{be_bytes_u64, be_value_u32, be_value_u64, SourceSymbolMetadata};
use crate::rlc::decoder::RLCDecoder;
use crate::rlc::encoder::{rlc_equation_wire, RLCEncoder};
use crate::symbol::{RepairSymbol, SourceSymbol};
use crate::vandermonde_lc::decoder::VLCDecoder;
use crate::vandermonde_lc::encoder::{vlc_equation_fits, vlc_equation_wire, VLCEncoder};
use crate::wire::{METADATA_SIZE, REPAIR_HEADER_SIZE};
use vstd::prelude::*;

verus! {

/// An encoder of either scheme.
pub enum Encoder {
    RLC(RLCEncoder),
    VLC(VLCEncoder),
}

/// A decoder of either scheme.
pub enum Decoder {
    RLC(RLCDecoder),
    VLC(VLCDecoder),
}

impl Encoder {
    pub open spec fn wf(&self) -> bool {
        match self {
            Encoder::RLC(e) => e.wf(),
            Encoder::VLC(e) => e.wf(),
        }
    }

    /// The retained range and the next identifier.
    pub open spec fn window(&self) -> EncoderModel {
        match self {
            Encoder::RLC(e) => e.window(),
            Encoder::VLC(e) => e.window(),
        }
    }

    pub open spec fn spec_symbol_size(&self) -> usize {
        match self {
            Encoder::RLC(e) => e.spec_symbol_size(),
            Encoder::VLC(e) => e.spec_symbol_size(),
        }
    }

    /// Whether the scheme's layout can carry `eq`, built up to `up_to`.
    pub open spec fn equation_accepted(&self, up_to: u64, eq: RepairEquation) -> bool {
        match self {
            Encoder::RLC(e) => equation_fits(e.window(), up_to, e.spec_symbol_size(), eq),
            Encoder::VLC(e) => vlc_equation_fits(e.window(), up_to, e.spec_symbol_size(), eq),
        }
    }

    /// The scheme's wire form of `eq`; the RLC form carries `seed`.
    pub open spec fn equation_wire(&self, eq: RepairEquation, seed: u32) -> Seq<u8> {
        match self {
            Encoder::RLC(_) => rlc_equation_wire(eq, seed),
            Encoder::VLC(_) => vlc_equation_wire(eq),
        }
    }

    /// Takes the identifier that the solver assigned to newly protected data
    /// and writes its wire form into `output`.
    pub fn protect_data(&mut self, assigned: Result<u64, String>, output: &mut SourceSymbolMetadata) -> (r: Result<usize, EncoderError>)
        requires
            old(self).wf(),
        ensures
            final(self).wf(),
            final(self).spec_symbol_size() == old(self).spec_symbol_size(),
            match assigned {
                Err(s) => r == Err::<usize, EncoderError>(EncoderError::InternalError(s)),
                Ok(id) => if id == old(self).window().next && id < u64::MAX {
                    r == Ok::<usize, EncoderError>(METADATA_SIZE)
                } else {
                    r matches Err(EncoderError::InternalError(_))
                },
            },
            r is Ok ==> final(output)@ == be_bytes_u64(old(self).window().next) && final(self).window()
                == (EncoderModel { first: old(self).window().first, next: (old(self).window().next + 1) as u64 }),
            r is Err ==> final(output)@ == old(output)@ && final(self).window() == old(self).window(),
    {
        match self {
            Encoder::RLC(enc) => enc.protect_data(assigned, output),
            Encoder::VLC(enc) => enc.protect_data(assigned, output),
        }
    }

    /// Decides whether a repair symbol up to `up_to` can be asked of the
    /// solver; returns the identifier to hand to it and, for RLC, a freshly
    /// drawn seed (zero for VLC, which needs none).
    pub fn repair_request_up_to(&mut self, output_len: usize, up_to: SourceSymbolMetadata) -> (r: Result<(u64, u32), EncoderError>)
        requires
            old(self).wf(),
        ensures
            final(self).wf(),
            final(self).window() == old(self).window(),
            final(self).spec_symbol_size() == old(self).spec_symbol_size(),
            output_len < REPAIR_HEADER_SIZE + old(self).spec_symbol_size() ==> r matches Err(EncoderError::BufferTooSmall),
            output_len >= REPAIR_HEADER_SIZE + old(self).spec_symbol_size() && old(self).window().first == old(self).window().next
                ==> r matches Err(EncoderError::NoSymbolToGenerate),
            output_len >= REPAIR_HEADER_SIZE + old(self).spec_symbol_size() && old(self).window().first != old(self).window().next
                ==> (r matches Ok((id, _)) && id == be_value_u64(up_to@)),
    {
        match self {
            Encoder::RLC(enc) => enc.repair_request_up_to(output_len, up_to),
            Encoder::VLC(enc) => match enc.repair_request_up_to(output_len, up_to) {
                Err(e) => Err(e),
                Ok(id) => Ok((id, 0)),
            },
        }
    }

    /// Decides whether a repair symbol over the whole window can be asked of
    /// the solver; returns the last retained identifier and, for RLC, a
    /// freshly drawn seed (zero for VLC).
    pub fn repair_request(&mut self, output_len: usize) -> (r: Result<(u64, u32), EncoderError>)
        requires
            old(self).wf(),
        ensures
            final(self).wf(),
            final(self).window() == old(self).window(),
            final(self).spec_symbol_size() == old(self).spec_symbol_size(),
            output_len < REPAIR_HEADER_SIZE + old(self).spec_symbol_size() ==> r matches Err(EncoderError::BufferTooSmall),
            output_len >= REPAIR_HEADER_SIZE + old(self).spec_symbol_size() && old(self).window().first == old(self).window().next
                ==> r matches Err(EncoderError::NoSymbolToGenerate),
            output_len >= REPAIR_HEADER_SIZE + old(self).spec_symbol_size() && old(self).window().first != old(self).window().next
                ==> (r matches Ok((id, _)) && id == (old(self).window().next - 1) as u64),
    {
        match self {
            Encoder::RLC(enc) => enc.repair_request(output_len),
            Encoder::VLC(enc) => match enc.repair_request(output_len) {
                Err(e) => Err(e),
                Ok(id) => Ok((id, 0)),
            },
        }
    }

    /// Takes the solver's answer to a request up to `up_to` and writes the
    /// repair symbol at the start of `to`; returns its length. `seed` is the
    /// one that the request drew.
    pub fn generate_and_serialize_repair_symbol_in_place_up_to(
        &self,
        to: &mut [u8],
        up_to: SourceSymbolMetadata,
        seed: u32,
        generated: Result<RepairEquation, GenerationError>,
    ) -> (r: Result<usize, EncoderError>)
        requires
            self.wf(),
        ensures
            old(to)@.len() < REPAIR_HEADER_SIZE + self.spec_symbol_size() ==> r matches Err(EncoderError::BufferTooSmall),
            old(to)@.len() >= REPAIR_HEADER_SIZE + self.spec_symbol_size() ==> match generated {
                Err(e) => r == Err::<usize, EncoderError>(generation_error_of(e)),
                Ok(eq) => if self.equation_accepted(be_value_u64(up_to@), eq) {
                    r == Ok::<usize, EncoderError>((REPAIR_HEADER_SIZE + self.spec_symbol_size()) as usize)
                        && final(to)@ == self.equation_wire(eq, seed) + old(to)@.subrange(
                        REPAIR_HEADER_SIZE + self.spec_symbol_size(),
                        old(to)@.len() as int,
                    )
                } else {
                    r matches Err(EncoderError::InternalError(_))
                },
            },
            r is Err ==> final(to)@ == old(to)@,
    {
        match self {
            Encoder::RLC(enc) => enc.generate_and_serialize_repair_symbol_in_place_up_to(to, up_to, seed, generated),
            Encoder::VLC(enc) => enc.generate_and_serialize_repair_symbol_in_place_up_to(to, up_to, generated),
        }
    }

    /// As `generate_and_serialize_repair_symbol_in_place_up_to`, up to the
    /// last retained identifier.
    pub fn generate_and_serialize_repair_symbol_in_place(
        &self,
        to: &mut [u8],
        seed: u32,
        generated: Result<RepairEquation, GenerationError>,
    ) -> (r: Result<usize, EncoderError>)
        requires
            self.wf(),
        ensures
            self.window().first == self.window().next ==> r matches Err(EncoderError::NoSymbolToGenerate),
            self.window().first != self.window().next ==> {
                let up_to = (self.window().next - 1) as u64;
                &&& (old(to)@.len() < REPAIR_HEADER_SIZE + self.spec_symbol_size() ==> r matches Err(EncoderError::BufferTooSmall))
                &&& (old(to)@.len() >= REPAIR_HEADER_SIZE + self.spec_symbol_size() ==> match generated {
                    Err(e) => r == Err::<usize, EncoderError>(generation_error_of(e)),
                    Ok(eq) => if self.equation_accepted(up_to, eq) {
                        r == Ok::<usize, EncoderError>((REPAIR_HEADER_SIZE + self.spec_symbol_size()) as usize)
                            && final(to)@ == self.equation_wire(eq, seed) + old(to)@.subrange(
                            REPAIR_HEADER_SIZE + self.spec_symbol_size(),
                            old(to)@.len() as int,
                        )
                    } else {
                        r matches Err(EncoderError::InternalError(_))
                    },
                })
            },
            r is Err ==> final(to)@ == old(to)@,
    {
        match self {
            Encoder::RLC(enc) => enc.generate_and_serialize_repair_symbol_in_place(to, seed, generated),
            Encoder::VLC(enc) => enc.generate_and_serialize_repair_symbol_in_place(to, generated),
        }
    }

    /// Takes the solver's answer to a request up to `up_to` and returns the
    /// repair symbol.
    pub fn generate_and_serialize_repair_symbol_up_to(
        &self,
        up_to: SourceSymbolMetadata,
        seed: u32,
        generated: Result<RepairEquation, GenerationError>,
    ) -> (r: Result<RepairSymbol, EncoderError>)
        requires
            self.wf(),
        ensures
            match generated {
                Err(e) => r == Err::<RepairSymbol, EncoderError>(generation_error_of(e)),
                Ok(eq) => if self.equation_accepted(be_value_u64(up_to@), eq) {
                    r matches Ok(rs) && rs.bytes() == self.equation_wire(eq, seed)
                } else {
                    r matches Err(EncoderError::InternalError(_))
                },
            },
    {
        let data = match self {
            Encoder::RLC(enc) => enc.generate_and_serialize_repair_symbol_up_to(up_to, seed, generated),
            Encoder::VLC(enc) => enc.generate_and_serialize_repair_symbol_up_to(up_to, generated),
        };
        match data {
            Err(e) => Err(e),
            Ok(data) => Ok(RepairSymbol::new(data)),
        }
    }

    /// As `generate_and_serialize_repair_symbol_up_to`, up to the last
    /// retained identifier.
    pub fn generate_and_serialize_repair_symbol(
        &self,
        seed: u32,
        generated: Result<RepairEquation, GenerationError>,
    ) -> (r: Result<RepairSymbol, EncoderError>)
        requires
            self.wf(),
        ensures
            self.window().first == self.window().next ==> r matches Err(EncoderError::NoSymbolToGenerate),
            self.window().first != self.window().next ==> match generated {
                Err(e) => r == Err::<RepairSymbol, EncoderError>(generation_error_of(e)),
                Ok(eq) => if self.equation_accepted((self.window().next - 1) as u64, eq) {
                    r matches Ok(rs) && rs.bytes() == self.equation_wire(eq, seed)
                } else {
                    r matches Err(EncoderError::InternalError(_))
                },
            },
    {
        let data = match self {
            Encoder::RLC(enc) => enc.generate_and_serialize_repair_symbol(seed, generated),
            Encoder::VLC(enc) => enc.generate_and_serialize_repair_symbol(generated),
        };
        match data {
            Err(e) => Err(e),
            Ok(data) => Ok(RepairSymbol::new(data)),
        }
    }

    /// Reads the identifier of a symbol that the peer acknowledged.
    pub fn received_symbol(&self, metadata: &[u8]) -> (r: Result<(usize, u64), EncoderError>)
        ensures
            metadata@.len() < METADATA_SIZE ==> r matches Err(EncoderError::BadMetadata),
            metadata@.len() >= METADATA_SIZE ==> r == Ok::<(usize, u64), EncoderError>(
                (METADATA_SIZE, be_value_u64(metadata@.subrange(0, 8))),
            ),
    {
        match self {
            Encoder::RLC(enc) => enc.received_symbol(metadata),
            Encoder::VLC(enc) => enc.received_symbol(metadata),
        }
    }

    pub fn symbol_size(&self) -> (r: usize)
        ensures
            r == self.spec_symbol_size(),
    {
        match self {
            Encoder::RLC(enc) => enc.symbol_size(),
            Encoder::VLC(enc) => enc.symbol_size(),
        }
    }

    /// Whether the window retains a symbol to protect.
    pub fn can_send_repair_symbols(&self) -> (r: bool)
        ensures
            r == (self.window().first != self.window().next),
    {
        match self {
            Encoder::RLC(enc) => enc.can_send_repair_symbols(),
            Encoder::VLC(enc) => enc.can_send_repair_symbols(),
        }
    }

    /// Stops retaining every symbol below `md`.
    pub fn remove_up_to(&mut self, md: SourceSymbolMetadata)
        requires
            old(self).wf(),
        ensures
            final(self).wf(),
            final(self).spec_symbol_size() == old(self).spec_symbol_size(),
            final(self).window() == encoder_removal(old(self).window(), be_value_u64(md@)),
    {
        match self {
            Encoder::RLC(enc) => enc.remove_up_to(md),
            Encoder::VLC(enc) => enc.remove_up_to(md),
        }
    }

    /// The wire form of the identifier to be assigned next; both schemes
    /// always know it.
    pub fn next_metadata(&mut self) -> (r: Result<SourceSymbolMetadata, EncoderError>)
        requires
            old(self).wf(),
        ensures
            *final(self) == *old(self),
            r matches Ok(md) && md@ == be_bytes_u64(old(self).window().next),
    {
        match self {
            Encoder::RLC(enc) => Ok(enc.next_metadata()),
            Encoder::VLC(enc) => Ok(enc.next_metadata()),
        }
    }

    /// The length of the next repair symbol's wire form.
    pub fn next_repair_symbol_size(&self, up_to: SourceSymbolMetadata) -> (r: Result<usize, EncoderError>)
        requires
            self.wf(),
        ensures
            r == Ok::<usize, EncoderError>((REPAIR_HEADER_SIZE + self.spec_symbol_size()) as usize),
    {
        match self {
            Encoder::RLC(enc) => Ok(enc.next_repair_symbol_size(up_to)),
            Encoder::VLC(enc) => Ok(enc.next_repair_symbol_size(up_to)),
        }
    }

    /// The wire form of the lowest retained identifier.
    pub fn first_metadata(&self) -> (r: Option<SourceSymbolMetadata>)
        ensures
            self.window().first == self.window().next ==> r is None,
            self.window().first != self.window().next ==> (r matches Some(md) && md@ == be_bytes_u64(
                self.window().first,
            )),
    {
        match self {
            Encoder::RLC(enc) => enc.first_metadata(),
            Encoder::VLC(enc) => enc.first_metadata(),
        }
    }

    /// How many symbols the window retains.
    pub fn n_protected_symbols(&self) -> (r: usize)
        requires
            self.wf(),
        ensures
            r == (self.window().next - self.window().first) as usize,
    {
        match self {
            Encoder::RLC(enc) => enc.current_window_size(),
            Encoder::VLC(enc) => enc.current_window_size(),
        }
    }
}

impl Decoder {
    pub open spec fn wf(&self) -> bool {
        match self {
            Decoder::RLC(d) => d.wf(),
            Decoder::VLC(d) => d.wf(),
        }
    }

    /// The lower bound and the known identifiers.
    pub open spec fn window(&self) -> WindowModel {
        match self {
            Decoder::RLC(d) => d.window(),
            Decoder::VLC(d) => d.window(),
        }
    }

    pub open spec fn spec_symbol_size(&self) -> usize {
        match self {
            Decoder::RLC(d) => d.spec_symbol_size(),
            Decoder::VLC(d) => d.spec_symbol_size(),
        }
    }

    /// The first identifier and the count of the range that the wire bytes
    /// `b` of a repair symbol declare, in the scheme's layout.
    pub open spec fn declared_range(&self, b: Seq<u8>) -> (u64, u64) {
        match self {
            Decoder::RLC(_) => (be_value_u64(b.subrange(0, 8)), be_value_u64(b.subrange(8, 16))),
            Decoder::VLC(_) => (be_value_u64(b.subrange(0, 8)), be_value_u32(b.subrange(8, 12)) as u64),
        }
    }

    /// Decides whether a source symbol goes to the solver; returns its
    /// identifier.
    pub fn check_source_symbol(&self, source_symbol: &SourceSymbol) -> (r: Result<u64, DecoderError>)
        ensures
            source_symbol.payload().len() != self.spec_symbol_size() ==> r matches Err(DecoderError::InternalError(_)),
            source_symbol.payload().len() == self.spec_symbol_size() && source_symbol_unused(
                self.window(),
                *source_symbol,
            ) ==> r matches Err(DecoderError::UnusedSourceSymbol),
            source_symbol_fresh(self.window(), self.spec_symbol_size(), *source_symbol) ==> r == Ok::<
                u64,
                DecoderError,
            >(source_symbol.id()),
    {
        match self {
            Decoder::RLC(dec) => dec.check_source_symbol(source_symbol),
            Decoder::VLC(dec) => dec.check_source_symbol(source_symbol),
        }
    }

    /// Takes a source symbol together with the solver's answer to it, and
    /// returns the symbols newly known: the received one first, then those
    /// the solver recovered.
    pub fn receive_source_symbol(
        &mut self,
        source_symbol: SourceSymbol,
        solved: Result<Vec<SourceSymbol>, SolverError>,
    ) -> (r: Result<Vec<SourceSymbol>, DecoderError>)
        requires
            old(self).wf(),
        ensures
            final(self).wf(),
            final(self).spec_symbol_size() == old(self).spec_symbol_size(),
            !source_symbol_fresh(old(self).window(), old(self).spec_symbol_size(), source_symbol)
                ==> final(self).window() == old(self).window(),
            source_symbol.payload().len() != old(self).spec_symbol_size() ==> r matches Err(
                DecoderError::InternalError(_),
            ),
            source_symbol.payload().len() == old(self).spec_symbol_size() && source_symbol_unused(
                old(self).window(),
                source_symbol,
            ) ==> r matches Err(DecoderError::UnusedSourceSymbol),
            source_symbol_fresh(old(self).window(), old(self).spec_symbol_size(), source_symbol)
                ==> match solved {
                Err(e) => r == Err::<Vec<SourceSymbol>, DecoderError>(decoder_error_of(e))
                    && final(self).window() == old(self).window(),
                Ok(list) => r matches Ok(out) && {
                    &&& out@.len() >= 1
                    &&& out@[0] == source_symbol
                    &&& final(self).window() == learned(old(self).window(), out@)
                    &&& distinct_ids(out@)
                    &&& forall|k: int|
                        1 <= k < out@.len() ==> list@.contains(#[trigger] out@[k])
                            && !old(self).window().known.contains(out@[k].id())
                    &&& forall|k: int|
                        0 <= k < list@.len() && #[trigger] list@[k].id() >= old(
                            self,
                        ).window().lower ==> final(self).window().known.contains(list@[k].id())
                },
            },
    {
        match self {
            Decoder::RLC(dec) => dec.receive_source_symbol(source_symbol, solved),
            Decoder::VLC(dec) => dec.receive_source_symbol(source_symbol, solved),
        }
    }

    /// Takes a repair symbol together with the solver's answer to its
    /// equation; returns how many bytes it spans and the symbols newly known.
    pub fn receive_and_deserialize_repair_symbol(
        &mut self,
        repair_symbol: RepairSymbol,
        solved: Result<Vec<SourceSymbol>, SolverError>,
    ) -> (r: Result<(usize, Vec<SourceSymbol>), DecoderError>)
        requires
            old(self).wf(),
        ensures
            final(self).wf(),
            final(self).spec_symbol_size() == old(self).spec_symbol_size(),
            ({
                let b = repair_symbol.bytes();
                let ss = old(self).spec_symbol_size();
                let (first, count) = old(self).declared_range(b);
                let taken = b.len() >= REPAIR_HEADER_SIZE + ss && !range_malformed(first, count) && first >= old(self).window().lower;
                &&& (b.len() < REPAIR_HEADER_SIZE + ss ==> r matches Err(DecoderError::BufferTooSmall))
                &&& (b.len() >= REPAIR_HEADER_SIZE + ss && range_malformed(first, count) ==> r matches Err(DecoderError::BadMetadata))
                &&& (b.len() >= REPAIR_HEADER_SIZE + ss && !range_malformed(first, count) && first < old(self).window().lower
                    ==> r matches Err(DecoderError::UnusedRepairSymbol))
                &&& !taken ==> final(self).window() == old(self).window()
                &&& (taken ==> match solved {
                    Err(e) => r == Err::<(usize, Vec<SourceSymbol>), DecoderError>(decoder_error_of(e))
                        && final(self).window() == old(self).window(),
                    Ok(list) => r matches Ok((n, out)) && {
                        &&& n == REPAIR_HEADER_SIZE + ss
                        &&& final(self).window() == learned(old(self).window(), out@)
                        &&& distinct_ids(out@)
                        &&& forall|k: int|
                            0 <= k < out@.len() ==> list@.contains(#[trigger] out@[k])
                                && !old(self).window().known.contains(out@[k].id())
                        &&& forall|k: int|
                            0 <= k < list@.len() && #[trigger] list@[k].id() >= old(
                                self,
                            ).window().lower ==> final(self).window().known.contains(list@[k].id())
                    },
                })
            }),
    {
        match self {
            Decoder::RLC(dec) => dec.receive_and_deserialize_repair_symbol(repair_symbol, solved),
            Decoder::VLC(dec) => dec.receive_and_deserialize_repair_symbol(repair_symbol, solved),
        }
    }

    /// Takes the repair symbol at the start of `data` without reading its
    /// fields; returns how many bytes it spans.
    pub fn read_repair_symbol(&self, data: &[u8]) -> (r: Result<(usize, RepairSymbol), DecoderError>)
        requires
            self.wf(),
        ensures
            data@.len() < REPAIR_HEADER_SIZE + self.spec_symbol_size() ==> r matches Err(DecoderError::BufferTooSmall),
            data@.len() >= REPAIR_HEADER_SIZE + self.spec_symbol_size() ==> (r matches Ok((n, rs)) && n
                == REPAIR_HEADER_SIZE + self.spec_symbol_size() && rs.bytes() == data@.subrange(0, n as int)),
    {
        match self {
            Decoder::RLC(dec) => dec.read_repair_symbol(data),
            Decoder::VLC(dec) => dec.read_repair_symbol(data),
        }
    }

    /// Reads the identifier at the start of `data`.
    pub fn read_source_symbol_metadata(&self, data: &[u8]) -> (r: Result<(usize, SourceSymbolMetadata), DecoderError>)
        ensures
            data@.len() < METADATA_SIZE ==> r matches Err(DecoderError::BufferTooSmall),
            data@.len() >= METADATA_SIZE ==> (r matches Ok((n, md)) && n == METADATA_SIZE && md@
                == data@.subrange(0, 8)),
    {
        match self {
            Decoder::RLC(dec) => dec.read_source_symbol_metadata(data),
            Decoder::VLC(dec) => dec.read_source_symbol_metadata(data),
        }
    }

    pub fn symbol_size(&self) -> (r: usize)
        ensures
            r == self.spec_symbol_size(),
    {
        match self {
            Decoder::RLC(dec) => dec.symbol_size(),
            Decoder::VLC(dec) => dec.symbol_size(),
        }
    }

    /// Evicts every identifier below `md`; a bound at or below the current
    /// one changes nothing.
    pub fn remove_up_to(&mut self, md: SourceSymbolMetadata)
        requires
            old(self).wf(),
        ensures
            final(self).wf(),
            final(self).spec_symbol_size() == old(self).spec_symbol_size(),
            final(self).window() == removal(old(self).window(), be_value_u64(md@)),
    {
        match self {
            Decoder::RLC(dec) => dec.remove_up_to(md),
            Decoder::VLC(dec) => {
                dec.remove_up_to(md);
            },
        }
    }

    /// The wire forms of the lowest and highest known identifiers.
    pub fn bounds(&self) -> (r: Option<(SourceSymbolMetadata, SourceSymbolMetadata)>)
        requires
            self.wf(),
        ensures
            r is None <==> self.window().known == Set::<u64>::empty(),
            r matches Some((lo, hi)) ==> {
                &&& self.window().known.contains(be_value_u64(lo@))
                &&& self.window().known.contains(be_value_u64(hi@))
                &&& forall|x: u64| #[trigger] self.window().known.contains(x) ==> be_value_u64(lo@) <= x <= be_value_u64(hi@)
            },
    {
        match self {
            Decoder::RLC(dec) => dec.bounds(),
            Decoder::VLC(dec) => dec.bounds(),
        }
    }

    /// The wire form of the contiguity watermark.
    pub fn largest_contiguously_received(&self) -> (r: Option<SourceSymbolMetadata>)
        requires
            self.wf(),
        ensures
            r is None <==> !self.window().known.contains(self.window().lower),
            r matches Some(md) ==> {
                let h = be_value_u64(md@);
                &&& h >= self.window().lower
                &&& contiguous_through(self.window(), h)
                &&& (h == u64::MAX || !self.window().known.contains((h + 1) as u64))
            },
    {
        match self {
            Decoder::RLC(dec) => dec.largest_contiguously_received(),
            Decoder::VLC(dec) => dec.largest_contiguously_received(),
        }
    }
}

} // verus!
