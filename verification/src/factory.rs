//! Backend selection: choose the non-cryptographic development service
//! or the compiled-in hardware backend, and within it the commitment
//! scheme named by the requested hash suite.

use vstd::prelude::*;
use std::io::Write;
use crate::claim::claim_digest_of;
use crate::dev_mode::DevModeProver;
use crate::error::ProverError;
use crate::hal::{CpuCircuitHal, CpuHal, HalPair};
use crate::prover::{ProverServer, RecursionProver};
use crate::prover_impl::ProverImpl;
use crate::receipt::{
    CompositeReceipt, Receipt, SegmentReceipt, SuccinctReceipt, VerifierContext,
    inner_claim_view, poseidon_suite, receipt_ok, seal_for, sha256_suite,
};
use crate::recursion::recursion_input_ok;
use crate::session::{
    Segment, Session, SessionAssumption, segment_claim_view, session_claim_view,
};

verus! {

/// Options the factory selects a proving service by: the hash-suite name
/// and whether the non-cryptographic development mode is on. The mode is
/// threaded in explicitly rather than read from ambient state.
pub struct ProverOpts {
    /// The requested hash-suite name.
    pub hashfn: String,
    /// Whether to return the non-cryptographic development service.
    pub dev_mode: bool,
}

impl Default for ProverOpts {
    /// The default options: the Poseidon suite, real proving.
    fn default() -> (r: ProverOpts)
        ensures
            r.hashfn@ == poseidon_suite(),
            r.dev_mode == false,
    {
        ProverOpts { hashfn: "poseidon".to_owned(), dev_mode: false }
    }
}

/// The services the factory can hand out.
pub enum Prover {
    /// The non-cryptographic development service.
    Dev(DevModeProver),
    /// The local service over the CPU backend pair.
    Cpu(ProverImpl<CpuHal, CpuCircuitHal>),
}

impl RecursionProver for Prover {
    open spec fn is_dev(&self) -> bool {
        match self {
            Prover::Dev(_) => true,
            Prover::Cpu(p) => p.is_dev(),
        }
    }

    fn lift(&self, receipt: &SegmentReceipt) -> (r: Result<SuccinctReceipt, ProverError>) {
        match self {
            Prover::Dev(p) => p.lift(receipt),
            Prover::Cpu(p) => p.lift(receipt),
        }
    }

    fn join(&self, a: &SuccinctReceipt, b: &SuccinctReceipt) -> (r: Result<
        SuccinctReceipt,
        ProverError,
    >) {
        match self {
            Prover::Dev(p) => p.join(a, b),
            Prover::Cpu(p) => p.join(a, b),
        }
    }

    fn resolve(&self, conditional: &SuccinctReceipt, assumption: &SuccinctReceipt) -> (r: Result<
        SuccinctReceipt,
        ProverError,
    >) {
        match self {
            Prover::Dev(p) => p.resolve(conditional, assumption),
            Prover::Cpu(p) => p.resolve(conditional, assumption),
        }
    }

    fn identity_p254(&self, a: &SuccinctReceipt) -> (r: Result<SuccinctReceipt, ProverError>) {
        match self {
            Prover::Dev(p) => p.identity_p254(a),
            Prover::Cpu(p) => p.identity_p254(a),
        }
    }
}

impl ProverServer for Prover {
    open spec fn suite(&self) -> Seq<char> {
        match self {
            Prover::Dev(p) => p.suite(),
            Prover::Cpu(p) => p.suite(),
        }
    }

    open spec fn session_ready(&self, ctx: VerifierContext, session: Session) -> bool {
        match self {
            Prover::Dev(p) => p.session_ready(ctx, session),
            Prover::Cpu(p) => p.session_ready(ctx, session),
        }
    }

    fn prove_session(&self, ctx: &VerifierContext, session: &Session) -> (r: Result<
        Receipt,
        ProverError,
    >) {
        match self {
            Prover::Dev(p) => p.prove_session(ctx, session),
            Prover::Cpu(p) => p.prove_session(ctx, session),
        }
    }

    fn prove_segment(&self, ctx: &VerifierContext, segment: &Segment) -> (r: Result<
        SegmentReceipt,
        ProverError,
    >) {
        match self {
            Prover::Dev(p) => p.prove_segment(ctx, segment),
            Prover::Cpu(p) => p.prove_segment(ctx, segment),
        }
    }

    open spec fn peak_memory(&self) -> usize {
        match self {
            Prover::Dev(p) => p.peak_memory(),
            Prover::Cpu(p) => p.peak_memory(),
        }
    }

    fn get_peak_memory_usage(&self) -> (r: usize) {
        match self {
            Prover::Dev(p) => p.get_peak_memory_usage(),
            Prover::Cpu(p) => p.get_peak_memory_usage(),
        }
    }

    fn compress(&self, receipt: &CompositeReceipt) -> (r: Result<SuccinctReceipt, ProverError>)
        decreases *receipt, 2nat,
    {
        match self {
            Prover::Dev(p) => p.compress(receipt),
            Prover::Cpu(p) => p.compress(receipt),
        }
    }
}

/// Relies on std::io::Write via writeln: prints the reduced-security
/// warning on standard error; the stream's state is not modeled.
#[verifier::external_body]
fn warn_reduced_security() {
    let _ = writeln!(
        std::io::stderr(),
        "WARNING: proving in dev mode. This will not generate valid, secure proofs.",
    );
}

/// Select a proving service: the development stub when the
/// non-cryptographic mode is on (with a visible warning that its receipts
/// carry no security), otherwise the compiled-in backend under the
/// requested hash suite. An unrecognized suite name fails immediately.
pub fn get_prover_server(opts: &ProverOpts) -> (r: Result<Prover, ProverError>)
    ensures
        opts.dev_mode ==> (r matches Ok(p) && p.is_dev()),
        !opts.dev_mode ==> (r matches Ok(p) ==> (!p.is_dev() && p.suite() == opts.hashfn@)),
        (!opts.dev_mode && (opts.hashfn@ == sha256_suite() || opts.hashfn@ == poseidon_suite()))
            ==> r is Ok,
        (!opts.dev_mode && !(opts.hashfn@ == sha256_suite() || opts.hashfn@ == poseidon_suite()))
            ==> (r matches Err(e) && e matches ProverError::UnsupportedHashfn { requested }
                && requested@ == opts.hashfn@),
{
    if opts.dev_mode {
        warn_reduced_security();
        return Ok(Prover::Dev(DevModeProver {}));
    }
    if opts.hashfn.eq(&"sha-256".to_owned()) {
        let hal = CpuHal::sha256();
        let circuit_hal = CpuCircuitHal::new();
        Ok(Prover::Cpu(ProverImpl::new("cpu", HalPair { hal, circuit_hal })))
    } else if opts.hashfn.eq(&"poseidon".to_owned()) {
        let hal = CpuHal::poseidon();
        let circuit_hal = CpuCircuitHal::new();
        Ok(Prover::Cpu(ProverImpl::new("cpu", HalPair { hal, circuit_hal })))
    } else {
        Err(ProverError::UnsupportedHashfn { requested: opts.hashfn.clone() })
    }
}

/// A session the default proving service is owed to prove: consistent,
/// within every segment's cycle bound, with each assumption proven by a
/// receipt the recursion circuits accept.
pub open spec fn default_provable(s: Session) -> bool {
    &&& s.consistent()
    &&& forall|i: int|
        0 <= i < s.segments@.len() ==> (#[trigger] s.segments@[i]).within_cycle_bound()
    &&& forall|i: int|
        0 <= i < s.assumptions@.len() ==> ((#[trigger] s.assumptions@[i])
            matches SessionAssumption::Proven(p) && recursion_input_ok(p))
}

impl Session {
    /// Prove this session with the default options: select the default
    /// service and hand the session to it.
    pub fn prove(&self) -> (r: Result<Receipt, ProverError>)
        requires
            self.wf(),
        ensures
            r matches Ok(rcpt) ==> claim_digest_of(inner_claim_view(rcpt.inner))
                == claim_digest_of(session_claim_view(*self)),
            r matches Ok(rcpt) ==> rcpt.journal@ == self.journal_bytes(),
            r matches Ok(rcpt) ==> rcpt.inner is Succinct,
            self.segments@.len() == 0 ==> r is Err,
            default_provable(*self) ==> r is Ok,
    {
        let opts = ProverOpts::default();
        let prover = match get_prover_server(&opts) {
            Ok(p) => p,
            Err(e) => {
                return Err(e);
            }
        };
        let ctx = VerifierContext::default();
        proof {
            if default_provable(*self) {
                assert(ctx.suites@[1]@ == poseidon_suite());
                assert(ctx.accepts(poseidon_suite()));
                assert(prover.session_ready(ctx, *self));
            }
        }
        prover.prove_session(&ctx, self)
    }
}

impl Segment {
    /// Prove this one segment with the default options under the given
    /// context.
    pub fn prove(&self, ctx: &VerifierContext) -> (r: Result<SegmentReceipt, ProverError>)
        requires
            self.wf(),
        ensures
            r matches Ok(sr) ==> {
                &&& sr.index == self.index
                &&& sr.hashfn@ == poseidon_suite()
                &&& sr.claim@ == segment_claim_view(*self)
                &&& sr.claim.wf()
                &&& sr.seal@ == seal_for(poseidon_suite(), claim_digest_of(sr.claim@))
                &&& sr.ok(*ctx)
            },
            (ctx.accepts(poseidon_suite()) && self.within_cycle_bound()) ==> r is Ok,
            !self.within_cycle_bound() ==> (r matches Err(e) && e is TraceTooLarge),
    {
        let opts = ProverOpts::default();
        let prover = match get_prover_server(&opts) {
            Ok(p) => p,
            Err(e) => {
                proof {
                    assert(false);
                }
                return Err(e);
            }
        };
        prover.prove_segment(ctx, self)
    }
}

} // verus!
