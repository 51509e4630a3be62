//! The encoder's window: the identifiers it has assigned and still retains.

use crate::error::{EncoderError, GenerationError};
use vstd::prelude::*;

verus! {

/// What an encoder window stands for: it retains the identifiers of
/// `[first, next)`, and `next` is the identifier that it assigns next.
pub struct EncoderModel {
    pub first: u64,
    pub next: u64,
}

/// The first retained identifier after evicting everything below `id`.
pub open spec fn encoder_removal(m: EncoderModel, id: u64) -> EncoderModel {
    let capped = if id < m.next {
        id
    } else {
        m.next
    };
    EncoderModel {
        first: if capped > m.first {
            capped
        } else {
            m.first
        },
        next: m.next,
    }
}

/// An equation that the encoder's solver built over the window.
pub struct RepairEquation {
    /// The lowest identifier with a nonzero coefficient.
    pub pivot: u64,
    /// The highest identifier with a nonzero coefficient.
    pub last_nonzero_id: u64,
    /// The sequence number from which a VLC decoder derives the
    /// coefficients; the RLC layout carries the seed instead.
    pub sequence_number: u64,
    /// The constant term: the combination of the payloads.
    pub constant_term: Vec<u8>,
}

/// An equation that the window can vouch for: its range lies among the
/// retained identifiers up to `up_to`, and its constant term has
/// `symbol_size` bytes.
pub open spec fn equation_fits(m: EncoderModel, up_to: u64, symbol_size: usize, eq: RepairEquation) -> bool {
    &&& m.first <= eq.pivot
    &&& eq.pivot <= eq.last_nonzero_id
    &&& eq.last_nonzero_id < m.next
    &&& eq.last_nonzero_id <= up_to
    &&& eq.constant_term@.len() == symbol_size
}

/// The encoder error that an answer of the solver stands for, where it is
/// not an equation.
pub open spec fn generation_error_of(e: GenerationError) -> EncoderError {
    match e {
        GenerationError::WindowEmpty => EncoderError::NoSymbolToGenerate,
        GenerationError::EmptyBounds => EncoderError::NoSymbolToGenerate,
        GenerationError::Other(s) => EncoderError::InternalError(s),
    }
}

/// The retained range `[first, next)` of an encoder.
pub struct EncoderWindow {
    first: u64,
    next: u64,
}

impl View for EncoderWindow {
    type V = EncoderModel;

    closed spec fn view(&self) -> EncoderModel {
        EncoderModel { first: self.first, next: self.next }
    }
}

impl EncoderWindow {
    /// The representation invariant.
    pub open spec fn wf(&self) -> bool {
        self@.first <= self@.next
    }

    /// An empty window that assigns identifiers from zero.
    pub fn new() -> (w: EncoderWindow)
        ensures
            w.wf(),
            w@ == (EncoderModel { first: 0, next: 0 }),
    {
        EncoderWindow { first: 0, next: 0 }
    }

    /// The identifier to be assigned next.
    pub fn next_id(&self) -> (r: u64)
        ensures
            r == self@.next,
    {
        self.next
    }

    /// Whether the window retains no identifier.
    pub fn is_empty(&self) -> (r: bool)
        ensures
            r == (self@.first == self@.next),
    {
        self.first == self.next
    }

    /// How many identifiers the window retains.
    pub fn size(&self) -> (r: u64)
        requires
            self.wf(),
        ensures
            r == self@.next - self@.first,
    {
        self.next - self.first
    }

    /// The lowest retained identifier.
    pub fn first_id(&self) -> (r: Option<u64>)
        ensures
            r == if self@.first == self@.next {
                None
            } else {
                Some(self@.first)
            },
    {
        if self.first == self.next {
            None
        } else {
            Some(self.first)
        }
    }

    /// The highest retained identifier.
    pub fn last_id(&self) -> (r: Option<u64>)
        requires
            self.wf(),
        ensures
            r == if self@.first == self@.next {
                None
            } else {
                Some((self@.next - 1) as u64)
            },
    {
        if self.first == self.next {
            None
        } else {
            Some(self.next - 1)
        }
    }

    /// Retains the identifier that was assigned next.
    pub fn record_next(&mut self)
        requires
            old(self).wf(),
            old(self)@.next < u64::MAX,
        ensures
            final(self).wf(),
            final(self)@ == (EncoderModel { first: old(self)@.first, next: (old(self)@.next + 1) as u64 }),
    {
        self.next = self.next + 1;
    }

    /// Stops retaining every identifier below `id`.
    pub fn remove_up_to(&mut self, id: u64)
        requires
            old(self).wf(),
        ensures
            final(self).wf(),
            final(self)@ == encoder_removal(old(self)@, id),
    {
        let capped = if id < self.next {
            id
        } else {
            self.next
        };
        if capped > self.first {
            self.first = capped;
        }
    }

    /// Checks the solver's answer to a request for an equation up to `up_to`:
    /// an equation that fits the window comes back, any other answer becomes
    /// the matching error.
    pub fn accept_equation(
        &self,
        up_to: u64,
        symbol_size: usize,
        generated: Result<RepairEquation, GenerationError>,
    ) -> (r: Result<RepairEquation, EncoderError>)
        ensures
            match generated {
                Err(e) => r == Err::<RepairEquation, EncoderError>(generation_error_of(e)),
                Ok(eq) => if equation_fits(self@, up_to, symbol_size, eq) {
                    r == Ok::<RepairEquation, EncoderError>(eq)
                } else {
                    r matches Err(EncoderError::InternalError(_))
                },
            },
    {
        match generated {
            Err(GenerationError::WindowEmpty) => Err(EncoderError::NoSymbolToGenerate),
            Err(GenerationError::EmptyBounds) => Err(EncoderError::NoSymbolToGenerate),
            Err(GenerationError::Other(s)) => Err(EncoderError::InternalError(s)),
            Ok(eq) => {
                if self.first <= eq.pivot && eq.pivot <= eq.last_nonzero_id && eq.last_nonzero_id
                    < self.next && eq.last_nonzero_id <= up_to && eq.constant_term.len()
                    == symbol_size {
                    Ok(eq)
                } else {
                    Err(
                        EncoderError::InternalError(
                            "the repair equation does not fit the window".to_string(),
                        ),
                    )
                }
            },
        }
    }
}

/// Evicting below the same identifier twice is evicting once, evicting at
/// or below the first retained identifier changes nothing, and the first
/// retained identifier never falls.
pub proof fn lemma_encoder_removal_idempotent(m: EncoderModel, id: u64)
    requires
        m.first <= m.next,
    ensures
        encoder_removal(encoder_removal(m, id), id) == encoder_removal(m, id),
        id <= m.first ==> encoder_removal(m, id) == m,
        m.first <= encoder_removal(m, id).first <= encoder_removal(m, id).next,
        encoder_removal(m, id).next == m.next,
{
}

} // verus!
