//! Host-side orchestration for a zero-knowledge virtual-machine prover.
//!
//! Given a recorded execution session, the library produces a cryptographic
//! receipt proving correct execution: one proof per segment, assembled into a
//! whole-session composite receipt, optionally compressed recursively into a
//! single fixed-size succinct receipt.

pub mod claim;
pub mod dev_mode;
pub mod digest;
pub mod error;
pub mod factory;
pub mod hal;
pub mod prover;
pub mod prover_impl;
pub mod receipt;
pub mod recursion;
pub mod session;
