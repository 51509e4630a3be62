//! The RLC encoder: its window, the generator of the seeds from which
//! coefficients are drawn, and the wire form of the equations that its
//! solver builds.
//!
//! The solver itself (equation construction over the retained payloads) is
//! driven by the caller: each operation that needs it is split into a check
//! that comes before the solver call and a step that takes the solver's
//! answer.

use crate::encoder_window::{
    encoder_removal, equation_fits, generation_error_of, EncoderModel, EncoderWindow,
    RepairEquation,
};
use crate::error::{EncoderError, GenerationError};
use crate::metadata::{
    be_bytes_u64, be_value_u64, read_u64_at, source_symbol_metadata_from_u64,
    source_symbol_metadata_to_u64, SourceSymbolMetadata,
};
use crate::wire::{rlc_wire, write_rlc_repair_symbol, METADATA_SIZE, REPAIR_HEADER_SIZE};
use rand::Rng;
use tinymt::TinyMT32;
use vstd::prelude::*;

verus! {

/// tinymt's 32-bit generator, carried through as an opaque value.
#[verifier::external_type_specification]
#[verifier::external_body]
pub struct ExTinyMT32(TinyMT32);

/// Relies on tinymt's `TinyMT32::from_seed_u32`: a generator seeded with
/// `seed`.
#[verifier::external_body]
fn seeded_generator(seed: u32) -> TinyMT32 {
    TinyMT32::from_seed_u32(seed)
}

/// Relies on rand's `Rng::gen` over tinymt's `TinyMT32`: the generator's next
/// 32-bit draw. Nothing is known of its value.
#[verifier::external_body]
fn draw_seed(generator: &mut TinyMT32) -> u32 {
    generator.gen()
}

/// The RLC wire form of an equation drawn from `seed`.
pub open spec fn rlc_equation_wire(eq: RepairEquation, seed: u32) -> Seq<u8> {
    rlc_wire(eq.pivot, (eq.last_nonzero_id - eq.pivot + 1) as u64, seed, eq.constant_term@)
}

/// The encoder side of the RLC scheme.
pub struct RLCEncoder {
    window: EncoderWindow,
    symbol_size: usize,
    max_window_size: usize,
    generator: TinyMT32,
}

impl RLCEncoder {
    /// The retained range and the next identifier.
    pub closed spec fn window(&self) -> EncoderModel {
        self.window@
    }

    /// The size of every payload.
    pub closed spec fn spec_symbol_size(&self) -> usize {
        self.symbol_size
    }

    /// The representation invariant.
    pub closed spec fn wf(&self) -> bool {
        &&& self.window.wf()
        &&& REPAIR_HEADER_SIZE + self.symbol_size <= usize::MAX
    }

    /// An encoder for payloads of `symbol_size` bytes whose solver retains
    /// at most `max_window_size` symbols, drawing seeds from a generator
    /// seeded with `seed`.
    pub fn new(symbol_size: usize, max_window_size: usize, seed: u32) -> (r: RLCEncoder)
        requires
            REPAIR_HEADER_SIZE + symbol_size <= usize::MAX,
        ensures
            r.wf(),
            r.window() == (EncoderModel { first: 0, next: 0 }),
            r.spec_symbol_size() == symbol_size,
    {
        RLCEncoder {
            window: EncoderWindow::new(),
            symbol_size,
            max_window_size,
            generator: seeded_generator(seed),
        }
    }

    /// The capacity handed to the solver.
    pub fn max_window_size(&self) -> usize {
        self.max_window_size
    }

    pub fn symbol_size(&self) -> (r: usize)
        ensures
            r == self.spec_symbol_size(),
    {
        self.symbol_size
    }

    /// Takes the identifier that the solver assigned to newly protected data
    /// and writes its wire form into `output`. The identifier must be the
    /// next one; any other answer is an internal error and changes nothing.
    pub fn protect_data(&mut self, assigned: Result<u64, String>, output: &mut SourceSymbolMetadata) -> (r: Result<usize, EncoderError>)
        requires
            old(self).wf(),
        ensures
            final(self).wf(),
            final(self).spec_symbol_size() == old(self).spec_symbol_size(),
            match assigned {
                Err(s) => r == Err::<usize, EncoderError>(EncoderError::InternalError(s)),
                Ok(id) => if id == old(self).window().next && id < u64::MAX {
                    r == Ok::<usize, EncoderError>(METADATA_SIZE)
                } else {
                    r matches Err(EncoderError::InternalError(_))
                },
            },
            r is Ok ==> final(output)@ == be_bytes_u64(old(self).window().next) && final(self).window()
                == (EncoderModel { first: old(self).window().first, next: (old(self).window().next + 1) as u64 }),
            r is Err ==> final(output)@ == old(output)@ && final(self).window() == old(self).window(),
    {
        match assigned {
            Err(s) => Err(EncoderError::InternalError(s)),
            Ok(id) => {
                if id != self.window.next_id() || id == u64::MAX {
                    return Err(
                        EncoderError::InternalError(
                            "the solver assigned an unexpected identifier".to_string(),
                        ),
                    );
                }
                *output = source_symbol_metadata_from_u64(id);
                self.window.record_next();
                Ok(METADATA_SIZE)
            },
        }
    }

    /// Decides whether a repair symbol up to `up_to` can be asked of the
    /// solver, for an output buffer of `output_len` bytes; returns the
    /// identifier and a freshly drawn seed to hand to it.
    pub fn repair_request_up_to(&mut self, output_len: usize, up_to: SourceSymbolMetadata) -> (r: Result<(u64, u32), EncoderError>)
        requires
            old(self).wf(),
        ensures
            final(self).wf(),
            final(self).window() == old(self).window(),
            final(self).spec_symbol_size() == old(self).spec_symbol_size(),
            output_len < REPAIR_HEADER_SIZE + old(self).spec_symbol_size() ==> r matches Err(EncoderError::BufferTooSmall),
            output_len >= REPAIR_HEADER_SIZE + old(self).spec_symbol_size() && old(self).window().first == old(self).window().next
                ==> r matches Err(EncoderError::NoSymbolToGenerate),
            output_len >= REPAIR_HEADER_SIZE + old(self).spec_symbol_size() && old(self).window().first != old(self).window().next
                ==> (r matches Ok((id, _)) && id == be_value_u64(up_to@)),
    {
        if output_len < REPAIR_HEADER_SIZE + self.symbol_size {
            return Err(EncoderError::BufferTooSmall);
        }
        if self.window.is_empty() {
            return Err(EncoderError::NoSymbolToGenerate);
        }
        let seed = draw_seed(&mut self.generator);
        Ok((source_symbol_metadata_to_u64(up_to), seed))
    }

    /// Decides whether a repair symbol over the whole window can be asked of
    /// the solver; returns the identifier to hand to it, the last retained,
    /// and a freshly drawn seed.
    pub fn repair_request(&mut self, output_len: usize) -> (r: Result<(u64, u32), EncoderError>)
        requires
            old(self).wf(),
        ensures
            final(self).wf(),
            final(self).window() == old(self).window(),
            final(self).spec_symbol_size() == old(self).spec_symbol_size(),
            output_len < REPAIR_HEADER_SIZE + old(self).spec_symbol_size() ==> r matches Err(EncoderError::BufferTooSmall),
            output_len >= REPAIR_HEADER_SIZE + old(self).spec_symbol_size() && old(self).window().first == old(self).window().next
                ==> r matches Err(EncoderError::NoSymbolToGenerate),
            output_len >= REPAIR_HEADER_SIZE + old(self).spec_symbol_size() && old(self).window().first != old(self).window().next
                ==> (r matches Ok((id, _)) && id == (old(self).window().next - 1) as u64),
    {
        if output_len < REPAIR_HEADER_SIZE + self.symbol_size {
            return Err(EncoderError::BufferTooSmall);
        }
        match self.window.last_id() {
            None => Err(EncoderError::NoSymbolToGenerate),
            Some(last) => {
                let seed = draw_seed(&mut self.generator);
                Ok((last, seed))
            },
        }
    }

    /// Takes the solver's answer to a request up to `up_to` and writes the
    /// repair symbol at the start of `output`; returns its length. Nothing is
    /// written unless the answer is an equation that fits the window.
    pub fn generate_and_serialize_repair_symbol_in_place_up_to(
        &self,
        output: &mut [u8],
        up_to: SourceSymbolMetadata,
        seed: u32,
        generated: Result<RepairEquation, GenerationError>,
    ) -> (r: Result<usize, EncoderError>)
        requires
            self.wf(),
        ensures
            old(output)@.len() < REPAIR_HEADER_SIZE + self.spec_symbol_size() ==> r matches Err(EncoderError::BufferTooSmall),
            old(output)@.len() >= REPAIR_HEADER_SIZE + self.spec_symbol_size() ==> match generated {
                Err(e) => r == Err::<usize, EncoderError>(generation_error_of(e)),
                Ok(eq) => if equation_fits(self.window(), be_value_u64(up_to@), self.spec_symbol_size(), eq) {
                    r == Ok::<usize, EncoderError>((REPAIR_HEADER_SIZE + self.spec_symbol_size()) as usize)
                        && final(output)@ == rlc_equation_wire(eq, seed) + old(output)@.subrange(
                        REPAIR_HEADER_SIZE + self.spec_symbol_size(),
                        old(output)@.len() as int,
                    )
                } else {
                    r matches Err(EncoderError::InternalError(_))
                },
            },
            r is Err ==> final(output)@ == old(output)@,
    {
        if output.len() < REPAIR_HEADER_SIZE + self.symbol_size {
            return Err(EncoderError::BufferTooSmall);
        }
        let up_to = source_symbol_metadata_to_u64(up_to);
        let eq = match self.window.accept_equation(up_to, self.symbol_size, generated) {
            Err(e) => return Err(e),
            Ok(eq) => eq,
        };
        let count = eq.last_nonzero_id + 1 - eq.pivot;
        let written = write_rlc_repair_symbol(output, eq.pivot, count, seed, eq.constant_term.as_slice());
        Ok(written)
    }

    /// As `generate_and_serialize_repair_symbol_in_place_up_to`, up to the
    /// last retained identifier.
    pub fn generate_and_serialize_repair_symbol_in_place(
        &self,
        output: &mut [u8],
        seed: u32,
        generated: Result<RepairEquation, GenerationError>,
    ) -> (r: Result<usize, EncoderError>)
        requires
            self.wf(),
        ensures
            self.window().first == self.window().next ==> r matches Err(EncoderError::NoSymbolToGenerate),
            self.window().first != self.window().next ==> {
                let up_to = (self.window().next - 1) as u64;
                &&& (old(output)@.len() < REPAIR_HEADER_SIZE + self.spec_symbol_size() ==> r matches Err(EncoderError::BufferTooSmall))
                &&& (old(output)@.len() >= REPAIR_HEADER_SIZE + self.spec_symbol_size() ==> match generated {
                    Err(e) => r == Err::<usize, EncoderError>(generation_error_of(e)),
                    Ok(eq) => if equation_fits(self.window(), up_to, self.spec_symbol_size(), eq) {
                        r == Ok::<usize, EncoderError>((REPAIR_HEADER_SIZE + self.spec_symbol_size()) as usize)
                            && final(output)@ == rlc_equation_wire(eq, seed) + old(output)@.subrange(
                            REPAIR_HEADER_SIZE + self.spec_symbol_size(),
                            old(output)@.len() as int,
                        )
                    } else {
                        r matches Err(EncoderError::InternalError(_))
                    },
                })
            },
            r is Err ==> final(output)@ == old(output)@,
    {
        match self.window.last_id() {
            None => Err(EncoderError::NoSymbolToGenerate),
            Some(last) => {
                let md = source_symbol_metadata_from_u64(last);
                proof {
                    crate::metadata::lemma_be_u64_round_trip(last);
                }
                self.generate_and_serialize_repair_symbol_in_place_up_to(output, md, seed, generated)
            },
        }
    }

    /// Takes the solver's answer to a request up to `up_to` and returns the
    /// repair symbol's wire bytes.
    pub fn generate_and_serialize_repair_symbol_up_to(
        &self,
        up_to: SourceSymbolMetadata,
        seed: u32,
        generated: Result<RepairEquation, GenerationError>,
    ) -> (r: Result<Vec<u8>, EncoderError>)
        requires
            self.wf(),
        ensures
            match generated {
                Err(e) => r == Err::<Vec<u8>, EncoderError>(generation_error_of(e)),
                Ok(eq) => if equation_fits(self.window(), be_value_u64(up_to@), self.spec_symbol_size(), eq) {
                    r matches Ok(v) && v@ == rlc_equation_wire(eq, seed)
                } else {
                    r matches Err(EncoderError::InternalError(_))
                },
            },
    {
        let serialized_size = REPAIR_HEADER_SIZE + self.symbol_size;
        let mut out: Vec<u8> = vec![0u8; serialized_size];
        let ghost zeros = out@;
        let written = match self.generate_and_serialize_repair_symbol_in_place_up_to(
            out.as_mut_slice(),
            up_to,
            seed,
            generated,
        ) {
            Err(e) => return Err(e),
            Ok(w) => w,
        };
        assert(zeros.subrange(serialized_size as int, serialized_size as int) =~= Seq::<u8>::empty());
        assert(out@ =~= rlc_equation_wire(generated->Ok_0, seed));
        Ok(out)
    }

    /// As `generate_and_serialize_repair_symbol_up_to`, up to the last
    /// retained identifier.
    pub fn generate_and_serialize_repair_symbol(
        &self,
        seed: u32,
        generated: Result<RepairEquation, GenerationError>,
    ) -> (r: Result<Vec<u8>, EncoderError>)
        requires
            self.wf(),
        ensures
            self.window().first == self.window().next ==> r matches Err(EncoderError::NoSymbolToGenerate),
            self.window().first != self.window().next ==> match generated {
                Err(e) => r == Err::<Vec<u8>, EncoderError>(generation_error_of(e)),
                Ok(eq) => if equation_fits(self.window(), (self.window().next - 1) as u64, self.spec_symbol_size(), eq) {
                    r matches Ok(v) && v@ == rlc_equation_wire(eq, seed)
                } else {
                    r matches Err(EncoderError::InternalError(_))
                },
            },
    {
        match self.window.last_id() {
            None => Err(EncoderError::NoSymbolToGenerate),
            Some(last) => {
                let md = source_symbol_metadata_from_u64(last);
                proof {
                    crate::metadata::lemma_be_u64_round_trip(last);
                }
                self.generate_and_serialize_repair_symbol_up_to(md, seed, generated)
            },
        }
    }

    /// Reads the identifier of a symbol that the peer acknowledged; returns
    /// how many bytes it spans and the identifier, for the solver's
    /// bookkeeping.
    pub fn received_symbol(&self, metadata: &[u8]) -> (r: Result<(usize, u64), EncoderError>)
        ensures
            metadata@.len() < METADATA_SIZE ==> r matches Err(EncoderError::BadMetadata),
            metadata@.len() >= METADATA_SIZE ==> r == Ok::<(usize, u64), EncoderError>(
                (METADATA_SIZE, be_value_u64(metadata@.subrange(0, 8))),
            ),
    {
        if metadata.len() < METADATA_SIZE {
            return Err(EncoderError::BadMetadata);
        }
        Ok((METADATA_SIZE, read_u64_at(metadata, 0)))
    }

    /// Whether the window retains a symbol to protect.
    pub fn can_send_repair_symbols(&self) -> (r: bool)
        ensures
            r == (self.window().first != self.window().next),
    {
        !self.window.is_empty()
    }

    /// Stops retaining every symbol below `md`.
    pub fn remove_up_to(&mut self, md: SourceSymbolMetadata)
        requires
            old(self).wf(),
        ensures
            final(self).wf(),
            final(self).spec_symbol_size() == old(self).spec_symbol_size(),
            final(self).window() == encoder_removal(old(self).window(), be_value_u64(md@)),
    {
        let id = source_symbol_metadata_to_u64(md);
        self.window.remove_up_to(id);
    }

    /// The wire form of the identifier to be assigned next.
    pub fn next_metadata(&self) -> (r: SourceSymbolMetadata)
        ensures
            r@ == be_bytes_u64(self.window().next),
    {
        source_symbol_metadata_from_u64(self.window.next_id())
    }

    /// The length of the next repair symbol's wire form.
    pub fn next_repair_symbol_size(&self, _up_to: SourceSymbolMetadata) -> (r: usize)
        requires
            self.wf(),
        ensures
            r == REPAIR_HEADER_SIZE + self.spec_symbol_size(),
    {
        self.symbol_size + REPAIR_HEADER_SIZE
    }

    /// The wire form of the lowest retained identifier.
    pub fn first_metadata(&self) -> (r: Option<SourceSymbolMetadata>)
        ensures
            self.window().first == self.window().next ==> r is None,
            self.window().first != self.window().next ==> (r matches Some(md) && md@ == be_bytes_u64(
                self.window().first,
            )),
    {
        match self.window.first_id() {
            None => None,
            Some(first) => Some(source_symbol_metadata_from_u64(first)),
        }
    }

    /// The wire form of the highest retained identifier.
    pub fn last_metadata(&self) -> (r: Option<SourceSymbolMetadata>)
        requires
            self.wf(),
        ensures
            self.window().first == self.window().next ==> r is None,
            self.window().first != self.window().next ==> (r matches Some(md) && md@ == be_bytes_u64(
                (self.window().next - 1) as u64,
            )),
    {
        match self.window.last_id() {
            None => None,
            Some(last) => Some(source_symbol_metadata_from_u64(last)),
        }
    }

    /// How many symbols the window retains.
    pub fn current_window_size(&self) -> (r: usize)
        requires
            self.wf(),
        ensures
            r == (self.window().next - self.window().first) as usize,
    {
        self.window.size() as usize
    }
}

} // verus!
