//! The error taxonomy of encoders and decoders, and its numeric codes.

use vstd::prelude::*;

verus! {

/// Why an encoder operation did not complete.
#[derive(Debug)]
pub enum EncoderError {
    InternalError(String),
    BufferTooSmall,
    NoSymbolToGenerate,
    BadMetadata,
    UnImplementedEncoder,
    NoNextMetadata,
}

/// What the encoder's symbol solver answers when it cannot build a repair
/// symbol, as plain values.
#[derive(Debug)]
pub enum GenerationError {
    /// The solver's window holds no symbol to combine.
    WindowEmpty,
    /// The equation that the solver built has no nonzero coefficient.
    EmptyBounds,
    /// Any other failure, with the solver's description of it.
    Other(String),
}

/// Why a decoder operation did not complete.
#[derive(Debug)]
pub enum DecoderError {
    InternalError(String),
    BufferTooSmall,
    BadMetadata,
    UnImplementedDecoder,
    UnusedRepairSymbol,
    UnusedSourceSymbol,
}

/// What the decoder's symbol solver answers when it refuses a symbol, as
/// plain values: the solver's own error values are turned into these where
/// it is called.
#[derive(Debug)]
pub enum SolverError {
    /// The equation adds nothing to what the solver already knows.
    UnusedEquation,
    /// The source symbol is already known to the solver.
    UnusedSourceSymbol,
    /// Any other failure, with the solver's description of it.
    Other(String),
}

/// The numeric code of an encoder error (one code is shared, see
/// `EncoderError::to_u64`).
pub open spec fn encoder_error_code(e: EncoderError) -> u64 {
    match e {
        EncoderError::InternalError(_) => 0,
        EncoderError::BufferTooSmall => 1,
        EncoderError::NoSymbolToGenerate => 2,
        EncoderError::BadMetadata => 3,
        EncoderError::UnImplementedEncoder => 4,
        EncoderError::NoNextMetadata => 4,
    }
}

/// The numeric code of a decoder error.
pub open spec fn decoder_error_code(e: DecoderError) -> u64 {
    match e {
        DecoderError::InternalError(_) => 0,
        DecoderError::BufferTooSmall => 1,
        DecoderError::BadMetadata => 2,
        DecoderError::UnImplementedDecoder => 3,
        DecoderError::UnusedRepairSymbol => 4,
        DecoderError::UnusedSourceSymbol => 5,
    }
}

/// The negative status of an encoder error at a flat call boundary.
pub open spec fn encoder_error_status(e: EncoderError) -> int {
    match e {
        EncoderError::InternalError(_) => -1,
        EncoderError::BufferTooSmall => -2,
        EncoderError::NoSymbolToGenerate => -3,
        EncoderError::BadMetadata => -4,
        EncoderError::UnImplementedEncoder => -5,
        EncoderError::NoNextMetadata => -6,
    }
}

/// The negative status of a decoder error at a flat call boundary.
pub open spec fn decoder_error_status(e: DecoderError) -> int {
    match e {
        DecoderError::InternalError(_) => -1,
        DecoderError::BufferTooSmall => -2,
        DecoderError::BadMetadata => -3,
        DecoderError::UnImplementedDecoder => -4,
        DecoderError::UnusedRepairSymbol => -5,
        DecoderError::UnusedSourceSymbol => -6,
    }
}

/// The decoder error that a refusal of the solver stands for.
pub open spec fn decoder_error_of(e: SolverError) -> DecoderError {
    match e {
        SolverError::UnusedEquation => DecoderError::UnusedRepairSymbol,
        SolverError::UnusedSourceSymbol => DecoderError::UnusedSourceSymbol,
        SolverError::Other(s) => DecoderError::InternalError(s),
    }
}

impl EncoderError {
    /// The numeric code of this error. `UnImplementedEncoder` and
    /// `NoNextMetadata` share their code, as deployed consumers expect.
    pub fn to_u64(&self) -> (r: u64)
        ensures
            r == encoder_error_code(*self),
    {
        match self {
            EncoderError::InternalError(_) => 0,
            EncoderError::BufferTooSmall => 1,
            EncoderError::NoSymbolToGenerate => 2,
            EncoderError::BadMetadata => 3,
            EncoderError::UnImplementedEncoder => 4,
            EncoderError::NoNextMetadata => 4,
        }
    }

    /// The negative status that a flat call boundary returns for this error.
    pub fn to_c(self) -> (r: libc::ssize_t)
        ensures
            r as int == encoder_error_status(self),
            r < 0,
    {
        match self {
            EncoderError::InternalError(_) => -1,
            EncoderError::BufferTooSmall => -2,
            EncoderError::NoSymbolToGenerate => -3,
            EncoderError::BadMetadata => -4,
            EncoderError::UnImplementedEncoder => -5,
            EncoderError::NoNextMetadata => -6,
        }
    }
}

impl DecoderError {
    /// The numeric code of this error.
    pub fn to_u64(&self) -> (r: u64)
        ensures
            r == decoder_error_code(*self),
    {
        match self {
            DecoderError::InternalError(_) => 0,
            DecoderError::BufferTooSmall => 1,
            DecoderError::BadMetadata => 2,
            DecoderError::UnImplementedDecoder => 3,
            DecoderError::UnusedRepairSymbol => 4,
            DecoderError::UnusedSourceSymbol => 5,
        }
    }

    /// The negative status that a flat call boundary returns for this error.
    pub fn to_c(self) -> (r: libc::ssize_t)
        ensures
            r as int == decoder_error_status(self),
            r < 0,
    {
        match self {
            DecoderError::InternalError(_) => -1,
            DecoderError::BufferTooSmall => -2,
            DecoderError::BadMetadata => -3,
            DecoderError::UnImplementedDecoder => -4,
            DecoderError::UnusedRepairSymbol => -5,
            DecoderError::UnusedSourceSymbol => -6,
        }
    }
}

impl From<SolverError> for DecoderError {
    fn from(err: SolverError) -> (r: DecoderError) {
        match err {
            SolverError::UnusedEquation => DecoderError::UnusedRepairSymbol,
            SolverError::UnusedSourceSymbol => DecoderError::UnusedSourceSymbol,
            SolverError::Other(s) => DecoderError::InternalError(s),
        }
    }
}

impl vstd::std_specs::convert::FromSpecImpl<SolverError> for DecoderError {
    open spec fn obeys_from_spec() -> bool {
        true
    }

    open spec fn from_spec(v: SolverError) -> DecoderError {
        decoder_error_of(v)
    }
}

} // verus!
