//! The local proving service: drives the segment prover over a session,
//! assembles and verifies the composite receipt, and compresses it when
//! the active hash suite supports recursion.

use vstd::prelude::*;
use crate::claim::claim_digest_of;
use crate::digest::{Digest, copy_bytes, sha256_digest};
use crate::error::ProverError;
use crate::hal::{CircuitHal, Hal, HalPair, RegisterGroup, Transcript};
use crate::prover::{
    ProverServer, RecursionProver, compress_receipt, composite_matches_session, compressible,
    succinct_assumption_ok, unwrapped_assumption,
};
use crate::receipt::{
    CompositeReceipt, InnerReceipt, Receipt, SegmentReceipt, SuccinctReceipt, VerifierContext,
    chain_ok, composite_claim_view, composite_ok, inner_claim_view, inner_ok,
    lemma_assumptions_ok_pointwise, poseidon_suite, receipt_ok, sha256_suite,
};
use crate::recursion::{lift_input_ok, recursion_input_ok};
use crate::session::{
    Segment, Session, SessionAssumption, SessionEvents, NullEvents, assumption_digest,
    segment_claim_view, session_claim_view,
};

verus! {

/// How many trace words the replay loop feeds the circuit executor at a
/// time.
pub const REPLAY_CHUNK: usize = 1024;

/// The proving service that runs locally against one backend pair.
pub struct ProverImpl<H: Hal, C: CircuitHal> {
    /// The backend's name, carried for diagnostics.
    pub name: String,
    /// The backend pair all segment proofs go through.
    pub hal_pair: HalPair<H, C>,
}

impl<H: Hal, C: CircuitHal> ProverImpl<H, C> {
    /// Construct a service around the given backend pair.
    pub fn new(name: &str, hal_pair: HalPair<H, C>) -> (r: Self)
        ensures
            r.name@ == name@,
            r.hal_pair == hal_pair,
    {
        ProverImpl { name: name.to_owned(), hal_pair }
    }

    /// Prove every segment of the session in index order, invoking the
    /// observers around each proof.
    fn prove_all_segments<E: SessionEvents>(
        &self,
        ctx: &VerifierContext,
        session: &Session,
        events: &mut E,
    ) -> (r: Result<Vec<SegmentReceipt>, ProverError>)
        requires
            session.wf(),
        ensures
            r matches Ok(v) ==> {
                &&& v@.len() == session.segments@.len()
                &&& forall|j: int| 0 <= j < v@.len() ==> {
                    let sr = #[trigger] v@[j];
                    &&& sr.index == session.segments@[j].index
                    &&& sr.hashfn@ == self.hal_pair.hal.suite_name()
                    &&& sr.claim@ == segment_claim_view(session.segments@[j])
                    &&& sr.claim.wf()
                    &&& sr.seal@ == crate::receipt::seal_for(
                        self.hal_pair.hal.suite_name(),
                        claim_digest_of(sr.claim@),
                    )
                }
            },
            (ctx.accepts(self.hal_pair.hal.suite_name()) && (forall|i: int|
                0 <= i < session.segments@.len() ==> (#[trigger] session.segments@[i])
                    .within_cycle_bound())) ==> r is Ok,
    {
        let n = session.segments.len();
        let mut seg_receipts: Vec<SegmentReceipt> = Vec::new();
        let mut i: usize = 0;
        while i < n
            invariant
                n == session.segments@.len(),
                session.wf(),
                i <= n,
                seg_receipts@.len() == i,
                forall|j: int| 0 <= j < i ==> {
                    let sr = #[trigger] seg_receipts@[j];
                    &&& sr.index == session.segments@[j].index
                    &&& sr.hashfn@ == self.hal_pair.hal.suite_name()
                    &&& sr.claim@ == segment_claim_view(session.segments@[j])
                    &&& sr.claim.wf()
                    &&& sr.seal@ == crate::receipt::seal_for(
                        self.hal_pair.hal.suite_name(),
                        claim_digest_of(sr.claim@),
                    )
                },
            decreases n - i,
        {
            let segment = &session.segments[i];
            events.on_pre_prove_segment(segment);
            let sr = match self.prove_segment(ctx, segment) {
                Ok(sr) => sr,
                Err(e) => {
                    return Err(e);
                }
            };
            events.on_post_prove_segment(segment);
            seg_receipts.push(sr);
            i = i + 1;
        }
        Ok(seg_receipts)
    }

    /// Unwrap the session's assumption receipts to their inner
    /// representation; an assumption without a receipt fails the call.
    fn unwrap_assumptions(session: &Session) -> (r: Result<Vec<InnerReceipt>, ProverError>)
        ensures
            r matches Ok(v) ==> {
                &&& v@.len() == session.assumptions@.len()
                &&& forall|j: int| 0 <= j < v@.len() ==> unwrapped_assumption(
                    session.assumptions@[j],
                    #[trigger] v@[j],
                )
            },
            (forall|i: int|
                0 <= i < session.assumptions@.len() ==> (#[trigger] session.assumptions@[i])
                    is Proven) ==> r is Ok,
    {
        let m = session.assumptions.len();
        let mut assumption_receipts: Vec<InnerReceipt> = Vec::new();
        let mut k: usize = 0;
        while k < m
            invariant
                m == session.assumptions@.len(),
                k <= m,
                assumption_receipts@.len() == k,
                forall|j: int| 0 <= j < k ==> unwrapped_assumption(
                    session.assumptions@[j],
                    #[trigger] assumption_receipts@[j],
                ),
            decreases m - k,
        {
            match &session.assumptions[k] {
                SessionAssumption::Proven(s) => {
                    assumption_receipts.push(InnerReceipt::Succinct(s.duplicate()));
                }
                SessionAssumption::Unresolved(_) => {
                    return Err(ProverError::UnresolvedAssumption);
                }
            }
            k = k + 1;
        }
        Ok(assumption_receipts)
    }

    /// Prove a whole session, invoking the observers around each segment
    /// proof. The contract is that of [`ProverServer::prove_session`].
    #[verifier::rlimit(100)]
    pub fn prove_session_with_events<E: SessionEvents>(
        &self,
        ctx: &VerifierContext,
        session: &Session,
        events: &mut E,
    ) -> (r: Result<Receipt, ProverError>)
        requires
            session.wf(),
        ensures
            r matches Ok(rcpt) ==> claim_digest_of(inner_claim_view(rcpt.inner))
                == claim_digest_of(session_claim_view(*session)),
            r matches Ok(rcpt) ==> rcpt.journal@ == session.journal_bytes(),
            r matches Ok(rcpt) ==> receipt_ok(rcpt, *ctx),
            r matches Ok(rcpt) ==> (self.hal_pair.hal.suite_name() == sha256_suite()
                ==> (rcpt.inner matches InnerReceipt::Composite(c)
                    && composite_matches_session(c, *session, self.hal_pair.hal.suite_name()))),
            r matches Ok(rcpt) ==> (self.hal_pair.hal.suite_name() == poseidon_suite()
                ==> rcpt.inner is Succinct),
            session.segments@.len() == 0 ==> r is Err,
            ProverServer::session_ready(self, *ctx, *session) ==> r is Ok,
    {
        let ghost ready = ProverServer::session_ready(self, *ctx, *session);
        let seg_receipts = match self.prove_all_segments(ctx, session, events) {
            Ok(v) => v,
            Err(e) => {
                return Err(e);
            }
        };
        let assumption_receipts = match Self::unwrap_assumptions(session) {
            Ok(v) => v,
            Err(e) => {
                return Err(e);
            }
        };
        let journal_digest = match &session.journal {
            Some(j) => Some(sha256_digest(j)),
            None => None,
        };
        let composite = CompositeReceipt {
            segments: seg_receipts,
            assumptions: assumption_receipts,
            journal_digest,
        };
        proof {
            if ready {
                lemma_session_composite_ok(*self, *ctx, *session, composite);
            }
        }
        match composite.verify_integrity_with_context(ctx) {
            Ok(_) => {}
            Err(e) => {
                return Err(e);
            }
        }
        let composite_claim = match composite.get_claim() {
            Ok(c) => c,
            Err(_) => {
                proof {
                    assert(false);
                }
                return Err(ProverError::IntegrityViolation);
            }
        };
        let session_claim = match session.get_claim() {
            Ok(c) => c,
            Err(_) => {
                proof {
                    assert(false);
                }
                return Err(ProverError::IntegrityViolation);
            }
        };
        let composite_digest = composite_claim.digest();
        let session_digest = session_claim.digest();
        if !composite_digest.equals(&session_digest) {
            proof {
                if ready {
                    assert(composite_claim@ =~= session_claim@);
                }
            }
            return Err(ProverError::ClaimMismatch {
                expected: session_digest,
                actual: composite_digest,
            });
        }
        proof {
            if ready && self.hal_pair.hal.suite_name() == poseidon_suite() {
                lemma_session_compressible(*self, *ctx, *session, composite);
            }
            assert(composite_matches_session(
                composite,
                *session,
                self.hal_pair.hal.suite_name(),
            ));
        }
        self.wrap_and_verify(ctx, composite, session, session_digest)
    }

    /// Pick the final representation by the active hash suite, wrap it
    /// with the raw journal, and re-verify the result against the
    /// session's claim digest before handing it back.
    fn wrap_and_verify(
        &self,
        ctx: &VerifierContext,
        composite: CompositeReceipt,
        session: &Session,
        session_digest: Digest,
    ) -> (r: Result<Receipt, ProverError>)
        requires
            composite_ok(composite, *ctx),
            claim_digest_of(composite_claim_view(composite)) == session_digest@,
            session_digest@ == claim_digest_of(session_claim_view(*session)),
            match composite.journal_digest {
                Some(d) => session.journal matches Some(j) && d@ == crate::digest::sha256_of(j@),
                None => session.journal is None,
            },
        ensures
            r matches Ok(rcpt) ==> claim_digest_of(inner_claim_view(rcpt.inner))
                == claim_digest_of(session_claim_view(*session)),
            r matches Ok(rcpt) ==> rcpt.journal@ == session.journal_bytes(),
            r matches Ok(rcpt) ==> receipt_ok(rcpt, *ctx),
            r matches Ok(rcpt) ==> (self.hal_pair.hal.suite_name() == sha256_suite()
                ==> (rcpt.inner matches InnerReceipt::Composite(c) && c == composite)),
            r matches Ok(rcpt) ==> (self.hal_pair.hal.suite_name() == poseidon_suite()
                ==> rcpt.inner is Succinct),
            (self.hal_pair.hal.suite_name() == poseidon_suite() ==> (compressible(composite)
                && ctx.accepts(poseidon_suite()))) ==> r is Ok,
    {
        proof {
            reveal_strlit("sha-256");
            reveal_strlit("poseidon");
            assert(sha256_suite().len() == 7);
            assert(poseidon_suite().len() == 8);
        }
        let suite = self.hal_pair.hal.hash_suite_name();
        let inner = if suite.eq(&"poseidon".to_owned()) {
            let sr = match self.compress(&composite) {
                Ok(sr) => sr,
                Err(e) => {
                    return Err(e);
                }
            };
            proof {
                assert(sr.claim@ =~= composite_claim_view(composite));
            }
            InnerReceipt::Succinct(sr)
        } else {
            InnerReceipt::Composite(composite)
        };
        let journal = match &session.journal {
            Some(j) => copy_bytes(j),
            None => Vec::new(),
        };
        let receipt = Receipt::new(inner, journal);
        match receipt.verify_integrity_with_context(ctx) {
            Ok(_) => {}
            Err(e) => {
                return Err(e);
            }
        }
        let receipt_claim = match receipt.get_claim() {
            Ok(c) => c,
            Err(_) => {
                proof {
                    assert(false);
                }
                return Err(ProverError::IntegrityViolation);
            }
        };
        let receipt_digest = receipt_claim.digest();
        if !receipt_digest.equals(&session_digest) {
            return Err(ProverError::ClaimMismatch {
                expected: session_digest,
                actual: receipt_digest,
            });
        }
        Ok(receipt)
    }
}

/// Under a ready session, the assembled composite passes its own
/// integrity check.
proof fn lemma_session_composite_ok<H: Hal, C: CircuitHal>(
    prover: ProverImpl<H, C>,
    ctx: VerifierContext,
    session: Session,
    composite: CompositeReceipt,
)
    requires
        ProverServer::session_ready(&prover, ctx, session),
        composite.segments@.len() == session.segments@.len(),
        forall|j: int| 0 <= j < session.segments@.len() ==> {
            let sr = #[trigger] composite.segments@[j];
            &&& sr.index == session.segments@[j].index
            &&& sr.hashfn@ == prover.hal_pair.hal.suite_name()
            &&& sr.claim@ == segment_claim_view(session.segments@[j])
            &&& sr.claim.wf()
            &&& sr.seal@ == crate::receipt::seal_for(
                prover.hal_pair.hal.suite_name(),
                claim_digest_of(sr.claim@),
            )
        },
        composite.assumptions@.len() == session.assumptions@.len(),
        forall|j: int| 0 <= j < session.assumptions@.len() ==> unwrapped_assumption(
            session.assumptions@[j],
            #[trigger] composite.assumptions@[j],
        ),
        match composite.journal_digest {
            Some(d) => session.journal matches Some(j) && d@ == crate::digest::sha256_of(j@),
            None => session.journal is None,
        },
    ensures
        composite_ok(composite, ctx),
        composite_claim_view(composite) == session_claim_view(session),
{
    let segs = composite.segments@;
    let nseg = segs.len();
    let last = segs[nseg - 1];
    assert forall|j: int| 0 <= j < nseg implies (#[trigger] segs[j]).ok(ctx) by {
        assert(segs[j].claim@ == segment_claim_view(session.segments@[j]));
    }
    assert(chain_ok(segs)) by {
        assert forall|j: int| 0 <= j < nseg implies (#[trigger] segs[j]).index as int
            == segs[0].index + j by {
            assert(session.segments@[j].index as int == j);
            assert(session.segments@[0].index as int == 0);
        }
        assert forall|j: int| 0 <= j < nseg - 1 implies {
            &&& (#[trigger] segs[j]).claim@.post == segs[j + 1].claim@.pre
            &&& segs[j].claim@.exit_code == crate::claim::ExitCode::SystemSplit
            &&& segs[j].claim@.journal_digest is None
            &&& segs[j].claim@.assumptions.len() == 0
        } by {
            let a = session.segments@[j];
            let b = session.segments@[j + 1];
            assert(crate::claim::le_bytes(a.post_state.pc) + a.post_state.root@
                == crate::claim::le_bytes(b.pre_state.pc) + b.pre_state.root@);
        }
    }
    let expected = last.claim@.assumptions;
    assert(expected.len() == session.assumptions@.len()) by {
        assert(last.claim@ == segment_claim_view(session.segments@[nseg - 1]));
    }
    assert forall|j: int| 0 <= j < composite.assumptions@.len() implies inner_ok(
        #[trigger] composite.assumptions@[j],
        ctx,
    ) && claim_digest_of(inner_claim_view(composite.assumptions@[j])) == expected[j] by {
        assert(unwrapped_assumption(session.assumptions@[j], composite.assumptions@[j]));
        assert(expected[j] == assumption_digest(session.assumptions@[j]));
    }
    lemma_assumptions_ok_pointwise(composite.assumptions@, expected, ctx);
    assert(composite_claim_view(composite) =~= session_claim_view(session));
}

/// Under a ready session, the assembled composite is compressible.
proof fn lemma_session_compressible<H: Hal, C: CircuitHal>(
    prover: ProverImpl<H, C>,
    ctx: VerifierContext,
    session: Session,
    composite: CompositeReceipt,
)
    requires
        ProverServer::session_ready(&prover, ctx, session),
        prover.hal_pair.hal.suite_name() == poseidon_suite(),
        composite.segments@.len() == session.segments@.len(),
        forall|j: int| 0 <= j < session.segments@.len() ==> {
            let sr = #[trigger] composite.segments@[j];
            &&& sr.index == session.segments@[j].index
            &&& sr.hashfn@ == prover.hal_pair.hal.suite_name()
            &&& sr.claim@ == segment_claim_view(session.segments@[j])
            &&& sr.claim.wf()
            &&& sr.seal@ == crate::receipt::seal_for(
                prover.hal_pair.hal.suite_name(),
                claim_digest_of(sr.claim@),
            )
        },
        composite.assumptions@.len() == session.assumptions@.len(),
        forall|j: int| 0 <= j < session.assumptions@.len() ==> unwrapped_assumption(
            session.assumptions@[j],
            #[trigger] composite.assumptions@[j],
        ),
    ensures
        compressible(composite),
{
    let segs = composite.segments@;
    let nseg = segs.len();
    let last = segs[nseg - 1];
    assert forall|j: int| 0 <= j < nseg implies lift_input_ok(#[trigger] segs[j]) by {
        assert(segs[j].claim@ == segment_claim_view(session.segments@[j]));
    }
    assert forall|j: int| 0 <= j < nseg - 1 implies crate::recursion::join_compatible(
        (#[trigger] segs[j]).claim@,
        segs[j + 1].claim@,
    ) by {
        let a = session.segments@[j];
        let b = session.segments@[j + 1];
        assert(crate::claim::le_bytes(a.post_state.pc) + a.post_state.root@
            == crate::claim::le_bytes(b.pre_state.pc) + b.pre_state.root@);
    }
    let expected = last.claim@.assumptions;
    assert(expected.len() == session.assumptions@.len()) by {
        assert(last.claim@ == segment_claim_view(session.segments@[nseg - 1]));
    }
    assert forall|j: int| 0 <= j < composite.assumptions@.len() implies succinct_assumption_ok(
        #[trigger] composite.assumptions@[j],
        expected[j],
    ) by {
        assert(unwrapped_assumption(session.assumptions@[j], composite.assumptions@[j]));
        assert(expected[j] == assumption_digest(session.assumptions@[j]));
    }
}

impl<H: Hal, C: CircuitHal> RecursionProver for ProverImpl<H, C> {
    open spec fn is_dev(&self) -> bool {
        false
    }

    fn lift(&self, receipt: &SegmentReceipt) -> (r: Result<SuccinctReceipt, ProverError>) {
        crate::recursion::lift(receipt)
    }

    fn join(&self, a: &SuccinctReceipt, b: &SuccinctReceipt) -> (r: Result<
        SuccinctReceipt,
        ProverError,
    >) {
        crate::recursion::join(a, b)
    }

    fn resolve(&self, conditional: &SuccinctReceipt, assumption: &SuccinctReceipt) -> (r: Result<
        SuccinctReceipt,
        ProverError,
    >) {
        crate::recursion::resolve(conditional, assumption)
    }

    fn identity_p254(&self, a: &SuccinctReceipt) -> (r: Result<SuccinctReceipt, ProverError>) {
        crate::recursion::identity_p254(a)
    }
}

impl<H: Hal, C: CircuitHal> ProverServer for ProverImpl<H, C> {
    open spec fn suite(&self) -> Seq<char> {
        self.hal_pair.hal.suite_name()
    }

    open spec fn session_ready(&self, ctx: VerifierContext, session: Session) -> bool {
        &&& session.wf()
        &&& session.consistent()
        &&& ctx.accepts(self.hal_pair.hal.suite_name())
        &&& ctx.accepts(poseidon_suite())
        &&& (self.hal_pair.hal.suite_name() == sha256_suite() || self.hal_pair.hal.suite_name()
            == poseidon_suite())
        &&& forall|i: int|
            0 <= i < session.segments@.len() ==> (#[trigger] session.segments@[i])
                .within_cycle_bound()
        &&& forall|i: int|
            0 <= i < session.assumptions@.len() ==> match #[trigger] session.assumptions@[i] {
                SessionAssumption::Proven(s) => recursion_input_ok(s),
                SessionAssumption::Unresolved(_) => false,
            }
    }

    fn prove_session(&self, ctx: &VerifierContext, session: &Session) -> (r: Result<
        Receipt,
        ProverError,
    >) {
        let mut events = NullEvents {};
        self.prove_session_with_events(ctx, session, &mut events)
    }

    fn prove_segment(&self, ctx: &VerifierContext, segment: &Segment) -> (r: Result<
        SegmentReceipt,
        ProverError,
    >) {
        if segment.po2 > 24 {
            return Err(ProverError::TraceTooLarge { cycles: segment.cycles, limit: 1u32 << 24 });
        }
        let limit: u32 = 1u32 << segment.po2;
        if segment.cycles > limit {
            return Err(ProverError::TraceTooLarge { cycles: segment.cycles, limit });
        }
        let io = segment.prepare_globals();
        let mut witness: Vec<u32> = Vec::new();
        let mut i: usize = 0;
        while i < segment.trace.len()
            invariant
                i <= segment.trace@.len(),
                witness@ =~= segment.trace@.subrange(0, i as int),
            decreases segment.trace@.len() - i,
        {
            let end = if segment.trace.len() - i > REPLAY_CHUNK {
                i + REPLAY_CHUNK
            } else {
                segment.trace.len()
            };
            while i < end
                invariant
                    i <= end,
                    end <= segment.trace@.len(),
                    witness@ =~= segment.trace@.subrange(0, i as int),
                decreases end - i,
            {
                witness.push(segment.trace[i]);
                proof {
                    assert(witness@ =~= segment.trace@.subrange(0, i + 1));
                }
                i = i + 1;
            }
        }
        let claim = segment.get_claim();
        let claim_digest = claim.digest();
        let hashfn = self.hal_pair.hal.hash_suite_name();
        let mut transcript = Transcript::start(segment.po2);
        let code_commitment = self.hal_pair.hal.commit_buffer(&witness);
        transcript.commit_group(RegisterGroup::Code, code_commitment);
        let data_commitment = self.hal_pair.hal.commit_buffer(&witness);
        transcript.commit_group(RegisterGroup::Data, data_commitment);
        transcript.accumulate();
        let accum = self.hal_pair.circuit_hal.accumulate_witness(&witness);
        let accum_commitment = self.hal_pair.hal.commit_buffer(&accum);
        transcript.commit_group(RegisterGroup::Accum, accum_commitment);
        let mix = crate::receipt::copy_words(&witness);
        let seal = transcript.finalize(&hashfn, &claim_digest, &mix, &io);
        let receipt = SegmentReceipt { seal, index: segment.index, hashfn, claim };
        match receipt.verify_integrity_with_context(ctx) {
            Ok(_) => {}
            Err(e) => {
                return Err(e);
            }
        }
        Ok(receipt)
    }

    open spec fn peak_memory(&self) -> usize {
        self.hal_pair.hal.peak_memory()
    }

    fn get_peak_memory_usage(&self) -> (r: usize) {
        self.hal_pair.hal.memory_usage()
    }

    fn compress(&self, receipt: &CompositeReceipt) -> (r: Result<SuccinctReceipt, ProverError>)
        decreases *receipt, 1nat,
    {
        compress_receipt(self, receipt)
    }
}

} // verus!
