//! Randomized test-vector generation for transaction-template hashing:
//! a byte-budget allocator, a seeded transaction structure generator, a
//! round-trip self-check against the canonical wire encoding, and the
//! test-vector record model.

pub mod codec;
pub mod gen;
pub mod stream;
pub mod tx;
pub mod vectors;
