//! Failure taxonomy of the prover: configuration errors, integrity
//! violations, malformed inputs, and collaborator failures. A proving call
//! either returns one fully verified receipt or one of these.

use vstd::prelude::*;
use vstd::string::StringExecFns;
use crate::digest::{Digest, hex_of};

verus! {

/// Why a proving call failed.
#[derive(Debug)]
pub enum ProverError {
    /// The requested hash-suite name is not one the factory knows.
    UnsupportedHashfn { requested: String },
    /// A session assumption has no receipt attached yet.
    UnresolvedAssumption,
    /// A segment declared more cycles than its power-of-two bound allows.
    TraceTooLarge { cycles: u32, limit: u32 },
    /// A freshly produced receipt failed its own integrity check.
    IntegrityViolation,
    /// A produced receipt's claim digest disagrees with the one the session
    /// expects; both digests are carried for diagnosis.
    ClaimMismatch { expected: Digest, actual: Digest },
    /// A composite receipt with no segment receipts cannot be compressed.
    MalformedComposite,
    /// Compression met a non-cryptographic placeholder assumption.
    UnsupportedFakeAssumption,
    /// Compression met a foreign-wrapped (Groth16) assumption.
    UnsupportedGroth16Assumption,
    /// The selected proving service has no recursion circuits.
    RecursionUnavailable,
    /// The development-mode service does not support this operation.
    DevModeUnsupported,
}

impl ProverError {
    /// A human-readable description of the failure: the unsupported
    /// suite name on a configuration error, both claim digests on a
    /// mismatch, a fixed sentence otherwise.
    pub fn message(&self) -> (r: String)
        ensures
            *self matches ProverError::UnsupportedHashfn { requested }
                ==> r@ == "unsupported hashfn: "@ + requested@,
            *self matches ProverError::ClaimMismatch { expected, actual }
                ==> r@ == "session and receipt claim do not match: session "@ + hex_of(expected@)
                    + ", receipt "@ + hex_of(actual@),
            self is UnresolvedAssumption
                ==> r@ == "session depends on an assumption with no receipt attached"@,
            self is TraceTooLarge ==> r@ == "segment trace exceeds the declared cycle bound"@,
            self is IntegrityViolation ==> r@ == "receipt failed its own integrity check"@,
            self is MalformedComposite
                ==> r@ == "malformed composite receipt has no continuation segment receipts"@,
            self is UnsupportedFakeAssumption
                ==> r@ == "compressing composite receipts with fake receipt assumptions is not supported"@,
            self is UnsupportedGroth16Assumption
                ==> r@ == "compressing composite receipts with Groth16 receipt assumptions is not supported"@,
            self is RecursionUnavailable
                ==> r@ == "the selected proving service has no recursion circuits"@,
            self is DevModeUnsupported ==> r@ == "this operation is not supported in dev mode"@,
    {
        match self {
            ProverError::UnsupportedHashfn { requested } => {
                "unsupported hashfn: ".to_owned().concat(requested.as_str())
            }
            ProverError::UnresolvedAssumption => {
                "session depends on an assumption with no receipt attached".to_owned()
            }
            ProverError::TraceTooLarge { cycles: _, limit: _ } => {
                "segment trace exceeds the declared cycle bound".to_owned()
            }
            ProverError::IntegrityViolation => {
                "receipt failed its own integrity check".to_owned()
            }
            ProverError::ClaimMismatch { expected, actual } => {
                "session and receipt claim do not match: session "
                    .to_owned()
                    .concat(expected.to_hex().as_str())
                    .concat(", receipt ")
                    .concat(actual.to_hex().as_str())
            }
            ProverError::MalformedComposite => {
                "malformed composite receipt has no continuation segment receipts".to_owned()
            }
            ProverError::UnsupportedFakeAssumption => {
                "compressing composite receipts with fake receipt assumptions is not supported"
                    .to_owned()
            }
            ProverError::UnsupportedGroth16Assumption => {
                "compressing composite receipts with Groth16 receipt assumptions is not supported"
                    .to_owned()
            }
            ProverError::RecursionUnavailable => {
                "the selected proving service has no recursion circuits".to_owned()
            }
            ProverError::DevModeUnsupported => {
                "this operation is not supported in dev mode".to_owned()
            }
        }
    }
}

} // verus!
