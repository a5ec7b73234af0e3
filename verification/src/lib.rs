//! Trace generation, constraint evaluation and proving for small STARK
//! demonstrations: Fibonacci sequences over BabyBear and Goldilocks, and
//! traces whose first column counts up, over Goldilocks.
//!
//! The library builds traces, evaluates the constraints on them, chooses the
//! parts of a configuration, and hands satisfying traces to the Plonky3
//! prover and verifier.

pub mod air;
pub mod config;
pub mod convert;
pub mod fib;
pub mod field;
pub mod increment;
pub mod increment_prover;
pub mod loader;
pub mod matrix;
pub mod objective;
pub mod power;
pub mod prover;
pub mod trace;
pub mod validation;
