//! The randomized scheme (RLC): coefficients are drawn from a generator
//! seeded per repair symbol, and the seed travels in the wire form.

pub mod decoder;
pub mod encoder;
