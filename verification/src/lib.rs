//! Boundary layer for a zero-knowledge proof generator.
//!
//! The heavy cryptographic work (witness generation, constraint solving,
//! proving-key arithmetic) is delegated to an external prover; this crate
//! owns the boundary around it: the immutable circuit artifact bundle, the
//! runtime bootstrap (diagnostic hook and worker pool), input validation,
//! and the single proof-generation entry point with a typed
//! success/failure result.

pub mod artifacts;
pub mod input;
pub mod prover;
pub mod runtime;
