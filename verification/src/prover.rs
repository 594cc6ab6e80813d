//! The proving-service contract: prove a session or a segment, report
//! memory, and transform receipts through the recursion primitives; plus
//! the default compression algorithm and the factory selecting a concrete
//! service.

use vstd::prelude::*;
use crate::claim::claim_digest_of;
use crate::digest::Digest;
use crate::error::ProverError;
use crate::receipt::{
    CompositeReceipt, InnerReceipt, Receipt, SegmentReceipt, SuccinctReceipt, VerifierContext,
    inner_claim_view, poseidon_suite, receipt_ok, seal_for, sha256_suite,
};
use crate::digest::sha256_of;
use crate::recursion::{join_compatible, joined_claim, lift_input_ok, recursion_input_ok, resolved_claim};
use crate::session::{Segment, Session, SessionAssumption, segment_claim_view, session_claim_view};

verus! {

/// What the output claim of a successful compression looks like: the
/// continuation claim of the chain, with one leading assumption
/// discharged per carried assumption receipt.
pub open spec fn compressed_claim_view(c: CompositeReceipt) -> crate::claim::ClaimView {
    let segs = c.segments@;
    let last = segs[segs.len() - 1];
    crate::claim::ClaimView {
        pre: segs[0].claim@.pre,
        post: last.claim@.post,
        exit_code: last.claim@.exit_code,
        journal_digest: last.claim@.journal_digest,
        assumptions: last.claim@.assumptions.subrange(
            c.assumptions@.len() as int,
            last.claim@.assumptions.len() as int,
        ),
    }
}

/// An assumption receipt compression can discharge directly: a succinct
/// receipt the recursion circuits accept, proving the expected claim.
pub open spec fn succinct_assumption_ok(r: InnerReceipt, expected: Seq<u8>) -> bool {
    match r {
        InnerReceipt::Succinct(s) => recursion_input_ok(s) && claim_digest_of(s.claim@)
            == expected,
        _ => false,
    }
}

/// A composite receipt whose compression is owed to succeed: a non-empty
/// chain of joinable Poseidon segment receipts, and one directly
/// dischargeable assumption receipt per listed assumption.
pub open spec fn compressible(c: CompositeReceipt) -> bool {
    let segs = c.segments@;
    let last = segs[segs.len() - 1];
    &&& segs.len() >= 1
    &&& forall|i: int| 0 <= i < segs.len() ==> lift_input_ok(#[trigger] segs[i])
    &&& forall|i: int|
        0 <= i < segs.len() - 1 ==> join_compatible(
            (#[trigger] segs[i]).claim@,
            segs[i + 1].claim@,
        )
    &&& c.assumptions@.len() == last.claim@.assumptions.len()
    &&& forall|i: int|
        0 <= i < c.assumptions@.len() ==> succinct_assumption_ok(
            #[trigger] c.assumptions@[i],
            last.claim@.assumptions[i],
        )
}

/// The compression fold reaches assumption `k`: the chain lifts and
/// joins, and every assumption before `k` is a succinct receipt proving
/// exactly the claim digest the terminal claim lists for it.
pub open spec fn fold_reaches_assumption(c: CompositeReceipt, k: int) -> bool {
    let segs = c.segments@;
    let last = segs[segs.len() - 1];
    &&& segs.len() >= 1
    &&& forall|i: int| 0 <= i < segs.len() ==> lift_input_ok(#[trigger] segs[i])
    &&& forall|i: int|
        0 <= i < segs.len() - 1 ==> join_compatible(
            (#[trigger] segs[i]).claim@,
            segs[i + 1].claim@,
        )
    &&& 0 <= k < c.assumptions@.len()
    &&& k <= last.claim@.assumptions.len()
    &&& forall|j: int|
        0 <= j < k ==> succinct_assumption_ok(
            #[trigger] c.assumptions@[j],
            last.claim@.assumptions[j],
        )
}

/// An assumption receipt unwrapped out of a session assumption: the same
/// succinct proof, value for value.
pub open spec fn unwrapped_assumption(a: SessionAssumption, r: InnerReceipt) -> bool {
    match (a, r) {
        (SessionAssumption::Proven(s), InnerReceipt::Succinct(t)) => {
            &&& t.claim@ == s.claim@
            &&& t.hashfn@ == s.hashfn@
            &&& t.seal@ == s.seal@
        }
        _ => false,
    }
}

/// The composite a session assembles into under the given suite: one
/// receipt per session segment in index order, the session's assumption
/// receipts unwrapped in their listed order, and the digest of the
/// session's journal.
pub open spec fn composite_matches_session(
    c: CompositeReceipt,
    session: Session,
    suite: Seq<char>,
) -> bool {
    &&& c.segments@.len() == session.segments@.len()
    &&& forall|i: int| 0 <= i < c.segments@.len() ==> {
        &&& (#[trigger] c.segments@[i]).index == session.segments@[i].index
        &&& c.segments@[i].hashfn@ == suite
        &&& c.segments@[i].claim@ == segment_claim_view(session.segments@[i])
    }
    &&& c.assumptions@.len() == session.assumptions@.len()
    &&& forall|i: int|
        0 <= i < c.assumptions@.len() ==> unwrapped_assumption(
            session.assumptions@[i],
            #[trigger] c.assumptions@[i],
        )
    &&& (match c.journal_digest {
        Some(d) => session.journal matches Some(j) && d@ == sha256_of(j@),
        None => session.journal is None,
    })
}

/// The recursion side of a proving service: the claim-transforming
/// primitives compression is built from.
pub trait RecursionProver: Sized {
    /// Whether this is the non-cryptographic development service.
    spec fn is_dev(&self) -> bool;

    /// Convert one segment receipt into a succinct receipt of the same
    /// claim.
    fn lift(&self, receipt: &SegmentReceipt) -> (r: Result<SuccinctReceipt, ProverError>)
        ensures
            r matches Ok(sr) ==> {
                &&& sr.claim@ == receipt.claim@
                &&& recursion_input_ok(sr)
            },
            (!self.is_dev() && lift_input_ok(*receipt)) ==> r is Ok,
    ;

    /// Combine two succinct receipts over adjacent continuation segments;
    /// `a` must prove the earlier segment.
    fn join(&self, a: &SuccinctReceipt, b: &SuccinctReceipt) -> (r: Result<
        SuccinctReceipt,
        ProverError,
    >)
        ensures
            r matches Ok(sr) ==> {
                &&& sr.claim@ == joined_claim(a.claim@, b.claim@)
                &&& recursion_input_ok(sr)
            },
            (!self.is_dev() && recursion_input_ok(*a) && recursion_input_ok(*b)
                && join_compatible(a.claim@, b.claim@)) ==> r is Ok,
    ;

    /// Discharge the first listed assumption of a conditional receipt.
    fn resolve(&self, conditional: &SuccinctReceipt, assumption: &SuccinctReceipt) -> (r: Result<
        SuccinctReceipt,
        ProverError,
    >)
        ensures
            r matches Ok(sr) ==> {
                &&& conditional.claim@.assumptions.len() >= 1
                &&& sr.claim@ == resolved_claim(conditional.claim@)
                &&& recursion_input_ok(sr)
            },
            (!self.is_dev() && recursion_input_ok(*conditional) && recursion_input_ok(
                *assumption,
            ) && conditional.claim@.assumptions.len() >= 1 && conditional.claim@.assumptions[0]
                == claim_digest_of(assumption.claim@)) ==> r is Ok,
            (recursion_input_ok(*conditional) && recursion_input_ok(*assumption)
                && (conditional.claim@.assumptions.len() == 0 || conditional.claim@.assumptions[0]
                    != claim_digest_of(assumption.claim@))) ==> r is Err,
    ;

    /// Re-encode a succinct receipt under the 254-bit-field Poseidon
    /// variant for downstream verifiers.
    fn identity_p254(&self, a: &SuccinctReceipt) -> (r: Result<SuccinctReceipt, ProverError>)
        ensures
            r matches Ok(sr) ==> {
                &&& sr.claim@ == a.claim@
                &&& sr.hashfn@ == crate::receipt::poseidon_254_suite()
                &&& sr.seal@ == seal_for(
                    crate::receipt::poseidon_254_suite(),
                    claim_digest_of(sr.claim@),
                )
            },
            (!self.is_dev() && recursion_input_ok(*a)) ==> r is Ok,
    ;
}

/// A proving service: executes the proving pipeline against one selected
/// backend. All operations either return a verified artifact or fail.
pub trait ProverServer: RecursionProver {
    /// The hash-suite name of the selected backend.
    spec fn suite(&self) -> Seq<char>;

    /// The sessions this service promises to prove successfully.
    spec fn session_ready(&self, ctx: VerifierContext, session: Session) -> bool;

    /// Prove a whole session: every segment in index order, assembled
    /// with the assumption receipts and the journal into a composite,
    /// verified against the session's claim, compressed when the suite
    /// supports recursion, and re-verified before it is returned.
    fn prove_session(&self, ctx: &VerifierContext, session: &Session) -> (r: Result<
        Receipt,
        ProverError,
    >)
        requires
            session.wf(),
        ensures
            r matches Ok(rcpt) ==> claim_digest_of(inner_claim_view(rcpt.inner))
                == claim_digest_of(session_claim_view(*session)),
            r matches Ok(rcpt) ==> rcpt.journal@ == session.journal_bytes(),
            r matches Ok(rcpt) ==> (!self.is_dev() ==> receipt_ok(rcpt, *ctx)),
            r matches Ok(rcpt) ==> (self.is_dev() ==> rcpt.inner is Fake),
            r matches Ok(rcpt) ==> ((!self.is_dev() && self.suite() == sha256_suite())
                ==> (rcpt.inner matches InnerReceipt::Composite(c)
                    && composite_matches_session(c, *session, self.suite()))),
            r matches Ok(rcpt) ==> ((!self.is_dev() && self.suite() == poseidon_suite())
                ==> rcpt.inner is Succinct),
            session.segments@.len() == 0 ==> r is Err,
            self.session_ready(*ctx, *session) ==> r is Ok,
    ;

    /// Prove one segment and verify the fresh receipt before returning it.
    fn prove_segment(&self, ctx: &VerifierContext, segment: &Segment) -> (r: Result<
        SegmentReceipt,
        ProverError,
    >)
        requires
            segment.wf(),
        ensures
            r matches Ok(sr) ==> {
                &&& sr.index == segment.index
                &&& sr.hashfn@ == self.suite()
                &&& sr.claim@ == segment_claim_view(*segment)
                &&& sr.claim.wf()
                &&& sr.seal@ == seal_for(self.suite(), claim_digest_of(sr.claim@))
                &&& sr.ok(*ctx)
            },
            (!self.is_dev() && ctx.accepts(self.suite()) && segment.within_cycle_bound())
                ==> r is Ok,
            (!self.is_dev() && !segment.within_cycle_bound()) ==> (r matches Err(e)
                && e is TraceTooLarge),
    ;

    /// The memory high-water mark this service reports.
    spec fn peak_memory(&self) -> usize;

    /// The backend's memory high-water mark.
    fn get_peak_memory_usage(&self) -> (r: usize)
        ensures
            r == self.peak_memory(),
    ;

    /// Compress a composite receipt into one succinct receipt proving the
    /// same top-level claim, by iterated lift, join and resolve.
    fn compress(&self, receipt: &CompositeReceipt) -> (r: Result<SuccinctReceipt, ProverError>)
        ensures
            receipt.segments@.len() == 0 ==> (r matches Err(e) && e is MalformedComposite),
            r matches Ok(sr) ==> {
                &&& receipt.assumptions@.len()
                    <= receipt.segments@[receipt.segments@.len() - 1].claim@.assumptions.len()
                &&& sr.claim@ == compressed_claim_view(*receipt)
                &&& recursion_input_ok(sr)
            },
            (exists|i: int|
                0 <= i < receipt.assumptions@.len() && ((#[trigger] receipt.assumptions@[i])
                    is Fake || receipt.assumptions@[i] is Groth16)) ==> r is Err,
            (!self.is_dev() && (exists|k: int|
                #[trigger] fold_reaches_assumption(*receipt, k) && receipt.assumptions@[k]
                    is Fake)) ==> (r matches Err(e) && e is UnsupportedFakeAssumption),
            (!self.is_dev() && (exists|k: int|
                #[trigger] fold_reaches_assumption(*receipt, k) && receipt.assumptions@[k]
                    is Groth16)) ==> (r matches Err(e) && e is UnsupportedGroth16Assumption),
            (!self.is_dev() && compressible(*receipt)) ==> r is Ok,
    ;
}

/// The one compression algorithm, shared by every service: fold the
/// segment receipts left-to-right through lift and join, then fold the
/// assumption receipts in listed order through resolve, recursively
/// compressing composite assumptions first. Placeholder and
/// foreign-wrapped assumptions are rejected outright.
#[verifier::loop_isolation(false)]
#[verifier::rlimit(100)]
pub fn compress_receipt<P: RecursionProver>(prover: &P, receipt: &CompositeReceipt) -> (r: Result<
    SuccinctReceipt,
    ProverError,
>)
    ensures
        receipt.segments@.len() == 0 ==> (r matches Err(e) && e is MalformedComposite),
        r matches Ok(sr) ==> {
            &&& receipt.assumptions@.len()
                <= receipt.segments@[receipt.segments@.len() - 1].claim@.assumptions.len()
            &&& sr.claim@ == compressed_claim_view(*receipt)
            &&& recursion_input_ok(sr)
        },
        (exists|i: int|
            0 <= i < receipt.assumptions@.len() && ((#[trigger] receipt.assumptions@[i]) is Fake
                || receipt.assumptions@[i] is Groth16)) ==> r is Err,
        (!prover.is_dev() && (exists|k: int|
            #[trigger] fold_reaches_assumption(*receipt, k) && receipt.assumptions@[k]
                is Fake)) ==> (r matches Err(e) && e is UnsupportedFakeAssumption),
        (!prover.is_dev() && (exists|k: int|
            #[trigger] fold_reaches_assumption(*receipt, k) && receipt.assumptions@[k]
                is Groth16)) ==> (r matches Err(e) && e is UnsupportedGroth16Assumption),
        (!prover.is_dev() && compressible(*receipt)) ==> r is Ok,
    decreases *receipt, 0nat,
{
    let ghost segs = receipt.segments@;
    let n = receipt.segments.len();
    if n == 0 {
        return Err(ProverError::MalformedComposite);
    }
    let ghost last = segs[segs.len() - 1];
    let mut acc = match prover.lift(&receipt.segments[0]) {
        Ok(sr) => sr,
        Err(e) => {
            return Err(e);
        }
    };
    let mut i: usize = 1;
    while i < n
        invariant
            1 <= i <= n,
            acc.claim@.pre == segs[0].claim@.pre,
            acc.claim@.post == segs[i - 1].claim@.post,
            acc.claim@.exit_code == segs[i - 1].claim@.exit_code,
            acc.claim@.journal_digest == segs[i - 1].claim@.journal_digest,
            acc.claim@.assumptions == segs[i - 1].claim@.assumptions,
            recursion_input_ok(acc),
        decreases n - i,
    {
        let lifted = match prover.lift(&receipt.segments[i]) {
            Ok(sr) => sr,
            Err(e) => {
                return Err(e);
            }
        };
        acc = match prover.join(&acc, &lifted) {
            Ok(sr) => sr,
            Err(e) => {
                return Err(e);
            }
        };
        i = i + 1;
    }
    let m = receipt.assumptions.len();
    let ghost expected = last.claim@.assumptions;
    proof {
        assert(acc.claim@.assumptions =~= expected.subrange(0, expected.len() as int));
    }
    let mut k: usize = 0;
    while k < m
        invariant
            k <= m,
            k <= expected.len(),
            acc.claim@.pre == segs[0].claim@.pre,
            acc.claim@.post == last.claim@.post,
            acc.claim@.exit_code == last.claim@.exit_code,
            acc.claim@.journal_digest == last.claim@.journal_digest,
            acc.claim@.assumptions == expected.subrange(k as int, expected.len() as int),
            recursion_input_ok(acc),
            forall|j: int|
                0 <= j < k ==> !((#[trigger] receipt.assumptions@[j]) is Fake
                    || receipt.assumptions@[j] is Groth16),
        decreases m - k,
    {
        let resolved_with: SuccinctReceipt = match &receipt.assumptions[k] {
            InnerReceipt::Succinct(s) => s.duplicate(),
            InnerReceipt::Composite(c) => {
                proof {
                    assert(decreases_to!(*receipt => receipt.assumptions));
                    assert(decreases_to!(receipt.assumptions => receipt.assumptions@));
                    assert(decreases_to!(receipt.assumptions@ => receipt.assumptions@[k as int]));
                }
                match compress_receipt(prover, c) {
                    Ok(sr) => sr,
                    Err(e) => {
                        proof {
                            if !prover.is_dev() && compressible(*receipt) {
                                assert(succinct_assumption_ok(
                                    receipt.assumptions@[k as int],
                                    expected[k as int],
                                ));
                            }
                        }
                        return Err(e);
                    }
                }
            }
            InnerReceipt::Fake(_) => {
                proof {
                    if !prover.is_dev() && compressible(*receipt) {
                        assert(succinct_assumption_ok(
                            receipt.assumptions@[k as int],
                            expected[k as int],
                        ));
                    }
                }
                return Err(ProverError::UnsupportedFakeAssumption);
            }
            InnerReceipt::Groth16(_) => {
                proof {
                    if !prover.is_dev() && compressible(*receipt) {
                        assert(succinct_assumption_ok(
                            receipt.assumptions@[k as int],
                            expected[k as int],
                        ));
                    }
                }
                return Err(ProverError::UnsupportedGroth16Assumption);
            }
        };
        acc = match prover.resolve(&acc, &resolved_with) {
            Ok(sr) => sr,
            Err(e) => {
                proof {
                    if !prover.is_dev() && compressible(*receipt) {
                        assert(succinct_assumption_ok(
                            receipt.assumptions@[k as int],
                            expected[k as int],
                        ));
                    }
                }
                return Err(e);
            }
        };
        proof {
            assert(acc.claim@.assumptions =~= expected.subrange(
                k + 1,
                expected.len() as int,
            ));
        }
        k = k + 1;
    }
    proof {
        assert(acc.claim@ =~= compressed_claim_view(*receipt));
    }
    Ok(acc)
}

} // verus!
