//! Sliding-window forward-error-correction codec: source symbols are
//! protected by repair symbols, linear equations over a window of them.
//! This crate holds the wire layouts, the encoder and decoder windows and
//! the error taxonomy; the finite-field solver that builds and solves the
//! equations is driven by the caller, who hands its answers to the
//! operations that need them.

pub mod codec;
pub mod decoder_window;
pub mod encoder_window;
pub mod error;
pub mod metadata;
pub mod rlc;
pub mod symbol;
pub mod vandermonde_lc;
pub mod wire;

pub use codec::{Decoder, Encoder};
pub use encoder_window::RepairEquation;
pub use error::{DecoderError, EncoderError, GenerationError, SolverError};
pub use metadata::{source_symbol_metadata_from_u64, source_symbol_metadata_to_u64, SourceSymbolMetadata};
pub use symbol::{RepairSymbol, SourceSymbol};
