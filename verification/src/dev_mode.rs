//! The non-cryptographic development-mode service: returns structurally
//! valid placeholder receipts without proving anything, for fast
//! iteration. Its receipts carry no security guarantee.

use vstd::prelude::*;
use crate::digest::copy_bytes;
use crate::error::ProverError;
use crate::prover::{ProverServer, RecursionProver, compress_receipt};
use crate::receipt::{
    CompositeReceipt, FakeReceipt, InnerReceipt, Receipt, SegmentReceipt, SuccinctReceipt,
    VerifierContext,
};
use crate::session::{Segment, Session};

verus! {

/// The development-mode proving service.
pub struct DevModeProver {}

impl RecursionProver for DevModeProver {
    open spec fn is_dev(&self) -> bool {
        true
    }

    fn lift(&self, receipt: &SegmentReceipt) -> (r: Result<SuccinctReceipt, ProverError>) {
        Err(ProverError::DevModeUnsupported)
    }

    fn join(&self, a: &SuccinctReceipt, b: &SuccinctReceipt) -> (r: Result<
        SuccinctReceipt,
        ProverError,
    >) {
        Err(ProverError::DevModeUnsupported)
    }

    fn resolve(&self, conditional: &SuccinctReceipt, assumption: &SuccinctReceipt) -> (r: Result<
        SuccinctReceipt,
        ProverError,
    >) {
        Err(ProverError::DevModeUnsupported)
    }

    fn identity_p254(&self, a: &SuccinctReceipt) -> (r: Result<SuccinctReceipt, ProverError>) {
        Err(ProverError::DevModeUnsupported)
    }
}

impl ProverServer for DevModeProver {
    open spec fn suite(&self) -> Seq<char> {
        "fake"@
    }

    open spec fn session_ready(&self, ctx: VerifierContext, session: Session) -> bool {
        session.segments@.len() >= 1
    }

    fn prove_session(&self, ctx: &VerifierContext, session: &Session) -> (r: Result<
        Receipt,
        ProverError,
    >) {
        let claim = match session.get_claim() {
            Ok(c) => c,
            Err(e) => {
                return Err(e);
            }
        };
        let journal = match &session.journal {
            Some(j) => copy_bytes(j),
            None => Vec::new(),
        };
        Ok(Receipt::new(InnerReceipt::Fake(FakeReceipt { claim }), journal))
    }

    fn prove_segment(&self, ctx: &VerifierContext, segment: &Segment) -> (r: Result<
        SegmentReceipt,
        ProverError,
    >) {
        Err(ProverError::DevModeUnsupported)
    }

    open spec fn peak_memory(&self) -> usize {
        0
    }

    fn get_peak_memory_usage(&self) -> (r: usize) {
        0
    }

    fn compress(&self, receipt: &CompositeReceipt) -> (r: Result<SuccinctReceipt, ProverError>)
        decreases *receipt, 1nat,
    {
        compress_receipt(self, receipt)
    }
}

} // verus!
