//! The Vandermonde-structured scheme (VLC): coefficients are a function of
//! the range and a sequence number, so repair symbols over one window are
//! independent by construction.

pub mod decoder;
pub mod encoder;
