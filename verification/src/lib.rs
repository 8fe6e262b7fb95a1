//! Composition of a core WebAssembly module with a WASI preview 1
//! adapter into a validated WebAssembly component.
//!
//! The heavy lifting (decoding the module, splicing the adapter,
//! emitting and validating the component) is done by the
//! `wit_component` crate. This crate drives one encoding run from start
//! to finish and pins down exactly which inputs succeed, which error is
//! reported for which failing input, and that the produced bytes are a
//! deterministic function of the inputs.

pub mod encode;
pub mod encoder;
pub mod error;
