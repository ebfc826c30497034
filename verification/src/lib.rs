//! A zero-knowledge proof pipeline for batched element-wise multiplication.
//!
//! For a batch of `n` secret pairs `(a_i, b_i)` the library encodes the
//! relation `a_i * b_i = w_i` as a rank-one constraint system, so that a
//! Groth16-style backend can set up keys, produce proofs, and check them
//! against the public products `w_i` alone.

pub mod backend;
pub mod circuit;
pub mod field;
pub mod semantics;
pub mod verification;
pub mod witness;
