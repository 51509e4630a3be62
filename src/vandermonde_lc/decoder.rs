//! The VLC decoder: its window, and the reading of VLC repair symbols.
//!
//! The solver (elimination over the received equations) is driven by the
//! caller: each operation that needs it is split into a check that comes
//! before the solver call and a step that takes the solver's answer.

use crate::decoder_window::{
    learned, distinct_ids, removal, range_malformed, source_symbol_fresh, source_symbol_unused,
    contiguous_through, DecoderWindow, WindowModel,
};
use crate::error::{decoder_error_of, DecoderError, SolverError};
use crate::metadata::{
    be_bytes_u64, be_value_u32, be_value_u64, source_symbol_metadata_from_u64,
    source_symbol_metadata_to_u64, SourceSymbolMetadata,
};
use crate::symbol::{RepairSymbol, SourceSymbol};
use crate::wire::{
    parse_vlc_repair_symbol, read_metadata, read_repair_symbol_bytes, VlcRepairFields,
    METADATA_SIZE, REPAIR_HEADER_SIZE,
};
use vstd::prelude::*;

verus! {

/// The decoder side of the VLC scheme.
pub struct VLCDecoder {
    window: DecoderWindow,
    symbol_size: usize,
    max_window_size: usize,
    started: bool,
}

impl VLCDecoder {
    /// The lower bound and the known identifiers.
    pub closed spec fn window(&self) -> WindowModel {
        self.window@
    }

    /// The size of every payload.
    pub closed spec fn spec_symbol_size(&self) -> usize {
        self.symbol_size
    }

    /// Whether a symbol has been taken or the window moved, after which the
    /// first identifier of the stream is settled.
    pub closed spec fn started(&self) -> bool {
        self.started
    }

    /// The representation invariant.
    pub closed spec fn wf(&self) -> bool {
        &&& self.window.wf()
        &&& REPAIR_HEADER_SIZE + self.symbol_size <= usize::MAX
        &&& !self.started ==> self.window@.known == Set::<u64>::empty()
    }

    /// A decoder for payloads of `symbol_size` bytes whose solver retains at
    /// most `max_window_size` symbols.
    pub fn new(symbol_size: usize, max_window_size: usize) -> (r: VLCDecoder)
        requires
            REPAIR_HEADER_SIZE + symbol_size <= usize::MAX,
        ensures
            r.wf(),
            r.window() == (WindowModel { lower: 0, known: Set::empty() }),
            r.spec_symbol_size() == symbol_size,
            !r.started(),
    {
        VLCDecoder {
            window: DecoderWindow::starting_at(0),
            symbol_size,
            max_window_size,
            started: false,
        }
    }

    /// The capacity handed to the solver.
    pub fn max_window_size(&self) -> usize {
        self.max_window_size
    }

    pub fn symbol_size(&self) -> (r: usize)
        ensures
            r == self.spec_symbol_size(),
    {
        self.symbol_size
    }

    /// Decides whether a source symbol goes to the solver; returns its
    /// identifier.
    pub fn check_source_symbol(&self, source_symbol: &SourceSymbol) -> (r: Result<u64, DecoderError>)
        ensures
            source_symbol.payload().len() != self.spec_symbol_size() ==> r matches Err(DecoderError::InternalError(_)),
            source_symbol.payload().len() == self.spec_symbol_size() && source_symbol_unused(
                self.window(),
                *source_symbol,
            ) ==> r matches Err(DecoderError::UnusedSourceSymbol),
            source_symbol_fresh(self.window(), self.spec_symbol_size(), *source_symbol) ==> r == Ok::<
                u64,
                DecoderError,
            >(source_symbol.id()),
    {
        self.window.check_source_symbol(self.symbol_size, source_symbol)
    }

    /// Takes a source symbol together with the solver's answer to it, and
    /// returns the symbols newly known: the received one first, then those
    /// the solver recovered.
    pub fn receive_source_symbol(
        &mut self,
        source_symbol: SourceSymbol,
        solved: Result<Vec<SourceSymbol>, SolverError>,
    ) -> (r: Result<Vec<SourceSymbol>, DecoderError>)
        requires
            old(self).wf(),
        ensures
            final(self).wf(),
            final(self).spec_symbol_size() == old(self).spec_symbol_size(),
            !source_symbol_fresh(old(self).window(), old(self).spec_symbol_size(), source_symbol)
                ==> final(self).window() == old(self).window(),
            source_symbol.payload().len() != old(self).spec_symbol_size() ==> r matches Err(
                DecoderError::InternalError(_),
            ),
            source_symbol.payload().len() == old(self).spec_symbol_size() && source_symbol_unused(
                old(self).window(),
                source_symbol,
            ) ==> r matches Err(DecoderError::UnusedSourceSymbol),
            source_symbol_fresh(old(self).window(), old(self).spec_symbol_size(), source_symbol)
                ==> match solved {
                Err(e) => r == Err::<Vec<SourceSymbol>, DecoderError>(decoder_error_of(e))
                    && final(self).window() == old(self).window(),
                Ok(list) => r matches Ok(out) && {
                    &&& out@.len() >= 1
                    &&& out@[0] == source_symbol
                    &&& final(self).window() == learned(old(self).window(), out@)
                    &&& distinct_ids(out@)
                    &&& forall|k: int|
                        1 <= k < out@.len() ==> list@.contains(#[trigger] out@[k])
                            && !old(self).window().known.contains(out@[k].id())
                    &&& forall|k: int|
                        0 <= k < list@.len() && #[trigger] list@[k].id() >= old(
                            self,
                        ).window().lower ==> final(self).window().known.contains(list@[k].id())
                },
            },
    {
        let r = self.window.receive_source_symbol(self.symbol_size, source_symbol, solved);
        if r.is_ok() {
            self.started = true;
        }
        r
    }

    /// Takes the repair symbol at the start of `data` without reading its
    /// fields; returns how many bytes it spans.
    pub fn read_repair_symbol(&self, data: &[u8]) -> (r: Result<(usize, RepairSymbol), DecoderError>)
        requires
            self.wf(),
        ensures
            data@.len() < REPAIR_HEADER_SIZE + self.spec_symbol_size() ==> r matches Err(DecoderError::BufferTooSmall),
            data@.len() >= REPAIR_HEADER_SIZE + self.spec_symbol_size() ==> (r matches Ok((n, rs)) && n
                == REPAIR_HEADER_SIZE + self.spec_symbol_size() && rs.bytes() == data@.subrange(0, n as int)),
    {
        read_repair_symbol_bytes(data, self.symbol_size)
    }

    /// Reads the identifier at the start of `data`; returns how many bytes it
    /// spans and its wire form.
    pub fn read_source_symbol_metadata(&self, data: &[u8]) -> (r: Result<(usize, SourceSymbolMetadata), DecoderError>)
        ensures
            data@.len() < METADATA_SIZE ==> r matches Err(DecoderError::BufferTooSmall),
            data@.len() >= METADATA_SIZE ==> (r matches Ok((n, md)) && n == METADATA_SIZE && md@
                == data@.subrange(0, 8)),
    {
        read_metadata(data)
    }

    /// Reads a VLC repair symbol and decides whether its equation goes to the
    /// solver; returns how many bytes it spans and its fields.
    pub fn deserialize_repair_symbol(&self, repair_symbol: &RepairSymbol) -> (r: Result<(usize, VlcRepairFields), DecoderError>)
        requires
            self.wf(),
        ensures
            ({
                let b = repair_symbol.bytes();
                let ss = self.spec_symbol_size();
                let first = be_value_u64(b.subrange(0, 8));
                let count = be_value_u32(b.subrange(8, 12)) as u64;
                &&& (b.len() < REPAIR_HEADER_SIZE + ss ==> r matches Err(DecoderError::BufferTooSmall))
                &&& (b.len() >= REPAIR_HEADER_SIZE + ss && range_malformed(first, count) ==> r matches Err(DecoderError::BadMetadata))
                &&& (b.len() >= REPAIR_HEADER_SIZE + ss && !range_malformed(first, count) && first < self.window().lower
                    ==> r matches Err(DecoderError::UnusedRepairSymbol))
                &&& b.len() >= REPAIR_HEADER_SIZE + ss && !range_malformed(first, count) && first >= self.window().lower
                    ==> (r matches Ok((n, f)) && n == REPAIR_HEADER_SIZE + ss && f.first_id == first
                        && f.n_protected_symbols == count && f.sequence_number == be_value_u64(b.subrange(12, 20))
                        && f.payload@ == b.subrange(20, 20 + ss as int))
            }),
    {
        let fields = match parse_vlc_repair_symbol(repair_symbol.get().as_slice(), self.symbol_size) {
            None => return Err(DecoderError::BufferTooSmall),
            Some(f) => f,
        };
        match self.window.check_range(fields.first_id, fields.n_protected_symbols as u64) {
            Err(e) => Err(e),
            Ok(()) => Ok((REPAIR_HEADER_SIZE + self.symbol_size, fields)),
        }
    }

    /// Takes a VLC repair symbol together with the solver's answer to its
    /// equation; returns how many bytes it spans and the symbols newly known.
    pub fn receive_and_deserialize_repair_symbol(
        &mut self,
        repair_symbol: RepairSymbol,
        solved: Result<Vec<SourceSymbol>, SolverError>,
    ) -> (r: Result<(usize, Vec<SourceSymbol>), DecoderError>)
        requires
            old(self).wf(),
        ensures
            final(self).wf(),
            final(self).spec_symbol_size() == old(self).spec_symbol_size(),
            ({
                let b = repair_symbol.bytes();
                let ss = old(self).spec_symbol_size();
                let first = be_value_u64(b.subrange(0, 8));
                let count = be_value_u32(b.subrange(8, 12)) as u64;
                let taken = b.len() >= REPAIR_HEADER_SIZE + ss && !range_malformed(first, count) && first >= old(self).window().lower;
                &&& (b.len() < REPAIR_HEADER_SIZE + ss ==> r matches Err(DecoderError::BufferTooSmall))
                &&& (b.len() >= REPAIR_HEADER_SIZE + ss && range_malformed(first, count) ==> r matches Err(DecoderError::BadMetadata))
                &&& (b.len() >= REPAIR_HEADER_SIZE + ss && !range_malformed(first, count) && first < old(self).window().lower
                    ==> r matches Err(DecoderError::UnusedRepairSymbol))
                &&& !taken ==> final(self).window() == old(self).window()
                &&& (taken ==> match solved {
                    Err(e) => r == Err::<(usize, Vec<SourceSymbol>), DecoderError>(decoder_error_of(e))
                        && final(self).window() == old(self).window(),
                    Ok(list) => r matches Ok((n, out)) && {
                        &&& n == REPAIR_HEADER_SIZE + ss
                        &&& final(self).window() == learned(old(self).window(), out@)
                        &&& distinct_ids(out@)
                        &&& forall|k: int|
                            0 <= k < out@.len() ==> list@.contains(#[trigger] out@[k])
                                && !old(self).window().known.contains(out@[k].id())
                        &&& forall|k: int|
                            0 <= k < list@.len() && #[trigger] list@[k].id() >= old(
                                self,
                            ).window().lower ==> final(self).window().known.contains(list@[k].id())
                    },
                })
            }),
    {
        let consumed = match self.deserialize_repair_symbol(&repair_symbol) {
            Err(e) => return Err(e),
            Ok((n, _)) => n,
        };
        match self.window.absorb_solved(solved) {
            Err(e) => Err(e),
            Ok(out) => {
                self.started = true;
                Ok((consumed, out))
            },
        }
    }

    /// Evicts every identifier below `md`, and returns the wire form of the
    /// new lower bound: the higher of `md` and the current one.
    pub fn remove_up_to(&mut self, md: SourceSymbolMetadata) -> (r: SourceSymbolMetadata)
        requires
            old(self).wf(),
        ensures
            final(self).wf(),
            final(self).spec_symbol_size() == old(self).spec_symbol_size(),
            final(self).window() == removal(old(self).window(), be_value_u64(md@)),
            r@ == be_bytes_u64(final(self).window().lower),
    {
        let id = source_symbol_metadata_to_u64(md);
        let lower = self.window.remove_up_to(id);
        self.started = true;
        source_symbol_metadata_from_u64(lower)
    }

    /// The wire forms of the lowest and highest known identifiers; `None`
    /// when none is known.
    pub fn bounds(&self) -> (r: Option<(SourceSymbolMetadata, SourceSymbolMetadata)>)
        requires
            self.wf(),
        ensures
            r is None <==> self.window().known == Set::<u64>::empty(),
            r matches Some((lo, hi)) ==> {
                &&& self.window().known.contains(be_value_u64(lo@))
                &&& self.window().known.contains(be_value_u64(hi@))
                &&& forall|x: u64| #[trigger] self.window().known.contains(x) ==> be_value_u64(lo@) <= x <= be_value_u64(hi@)
            },
    {
        match self.window.bounds() {
            None => None,
            Some((lo, hi)) => {
                proof {
                    crate::metadata::lemma_be_u64_round_trip(lo);
                    crate::metadata::lemma_be_u64_round_trip(hi);
                }
                Some((source_symbol_metadata_from_u64(lo), source_symbol_metadata_from_u64(hi)))
            },
        }
    }

    /// The wire form of the highest `h` such that every identifier from the
    /// lower bound through `h` is known; `None` when the lower bound is not.
    pub fn largest_contiguously_received(&self) -> (r: Option<SourceSymbolMetadata>)
        requires
            self.wf(),
        ensures
            r is None <==> !self.window().known.contains(self.window().lower),
            r matches Some(md) ==> {
                let h = be_value_u64(md@);
                &&& h >= self.window().lower
                &&& contiguous_through(self.window(), h)
                &&& (h == u64::MAX || !self.window().known.contains((h + 1) as u64))
            },
    {
        match self.window.largest_contiguously_received() {
            None => None,
            Some(h) => {
                proof {
                    crate::metadata::lemma_be_u64_round_trip(h);
                }
                Some(source_symbol_metadata_from_u64(h))
            },
        }
    }

    /// Sets the identifier at which the stream starts, which VLC coefficients
    /// are relative to. It has effect only before any symbol is taken and
    /// before the window first moves.
    pub fn set_first_symbol_id(&mut self, md: SourceSymbolMetadata)
        requires
            old(self).wf(),
        ensures
            final(self).wf(),
            final(self).spec_symbol_size() == old(self).spec_symbol_size(),
            !old(self).started() ==> final(self).window() == (WindowModel {
                lower: be_value_u64(md@),
                known: Set::empty(),
            }),
            old(self).started() ==> final(self).window() == old(self).window(),
    {
        if !self.started {
            self.window = DecoderWindow::starting_at(source_symbol_metadata_to_u64(md));
        }
    }
}

} // verus!
