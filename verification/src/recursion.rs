//! The recursion primitives: lift, join, resolve, and the re-hash for
//! downstream verifiers. This core consumes them as claim-transforming
//! operations; their contracts state exactly how the output claim is
//! built from the input claims, and each output carries a seal consistent
//! with its own claim.

use vstd::prelude::*;
use crate::claim::{Claim, ClaimView, ExitCode, claim_digest_of};
use crate::digest::Digest;
use crate::error::ProverError;
use crate::receipt::{
    SegmentReceipt, SuccinctReceipt, encode_seal, poseidon_254_suite, poseidon_suite,
    seal_for, seal_matches,
};

verus! {

/// A succinct receipt the recursion circuits accept as input: a
/// well-formed claim under the Poseidon suite, with a seal matching it.
pub open spec fn recursion_input_ok(r: SuccinctReceipt) -> bool {
    &&& r.claim.wf()
    &&& r.hashfn@ == poseidon_suite()
    &&& r.seal@ == seal_for(poseidon_suite(), claim_digest_of(r.claim@))
}

/// A segment receipt the lift circuit accepts as input.
pub open spec fn lift_input_ok(r: SegmentReceipt) -> bool {
    &&& r.claim.wf()
    &&& r.hashfn@ == poseidon_suite()
    &&& r.seal@ == seal_for(poseidon_suite(), claim_digest_of(r.claim@))
}

/// Two claims the join circuit will combine: the earlier one ends in a
/// system split, carries no output, and its post-state is the later
/// one's pre-state.
pub open spec fn join_compatible(a: ClaimView, b: ClaimView) -> bool {
    &&& a.post == b.pre
    &&& a.exit_code == ExitCode::SystemSplit
    &&& a.journal_digest is None
    &&& a.assumptions.len() == 0
}

/// The claim of a joined continuation: the earlier claim's pre-state to
/// the later claim's post-state, ending and committing as the later one.
pub open spec fn joined_claim(a: ClaimView, b: ClaimView) -> ClaimView {
    ClaimView { pre: a.pre, post: b.post, exit_code: b.exit_code, journal_digest: b.journal_digest, assumptions: b.assumptions }
}

/// The claim after discharging the first listed assumption.
pub open spec fn resolved_claim(c: ClaimView) -> ClaimView {
    ClaimView {
        pre: c.pre,
        post: c.post,
        exit_code: c.exit_code,
        journal_digest: c.journal_digest,
        assumptions: c.assumptions.subrange(1, c.assumptions.len() as int),
    }
}

/// Join is order-sensitive. For receipts over adjacent segments — the
/// earlier one `a` splitting into `b`, with distinct pre-states — joining
/// them in order yields exactly the continuation claim from `a`'s
/// pre-state to `b`'s post-state, while joining them in the reverse
/// order either fails outright or yields a claim other than that
/// continuation.
pub proof fn lemma_join_order_sensitive(a: SuccinctReceipt, b: SuccinctReceipt)
    requires
        recursion_input_ok(a),
        recursion_input_ok(b),
        join_compatible(a.claim@, b.claim@),
        a.claim@.pre != b.claim@.pre,
    ensures
        joined_claim(a.claim@, b.claim@) == (ClaimView {
            pre: a.claim@.pre,
            post: b.claim@.post,
            exit_code: b.claim@.exit_code,
            journal_digest: b.claim@.journal_digest,
            assumptions: b.claim@.assumptions,
        }),
        join_compatible(b.claim@, a.claim@) ==> (joined_claim(b.claim@, a.claim@)
            != joined_claim(a.claim@, b.claim@)),
{
    if join_compatible(b.claim@, a.claim@) {
        assert(joined_claim(b.claim@, a.claim@).pre == b.claim@.pre);
        assert(joined_claim(a.claim@, b.claim@).pre == a.claim@.pre);
    }
}

/// Produce a succinct receipt of `claim` under the given suite.
fn seal_claim(claim: Claim, suite: &String) -> (r: SuccinctReceipt)
    requires
        claim.wf(),
    ensures
        r.claim@ == claim@,
        r.claim.wf(),
        r.hashfn@ == suite@,
        r.seal@ == seal_for(suite@, claim_digest_of(claim@)),
{
    let claim_digest = claim.digest();
    let seal = encode_seal(suite, &claim_digest);
    SuccinctReceipt { seal, hashfn: suite.clone(), claim }
}

/// Convert one segment receipt into a succinct receipt of the same claim.
pub fn lift(receipt: &SegmentReceipt) -> (r: Result<SuccinctReceipt, ProverError>)
    ensures
        r is Ok <==> lift_input_ok(*receipt),
        r matches Ok(sr) ==> {
            &&& sr.claim@ == receipt.claim@
            &&& recursion_input_ok(sr)
        },
{
    if !receipt.claim.check_wf() {
        return Err(ProverError::IntegrityViolation);
    }
    if !receipt.hashfn.eq(&"poseidon".to_owned()) {
        return Err(ProverError::UnsupportedHashfn { requested: receipt.hashfn.clone() });
    }
    let claim_digest = receipt.claim.digest();
    if !seal_matches(&receipt.seal, &receipt.hashfn, &claim_digest) {
        return Err(ProverError::IntegrityViolation);
    }
    Ok(seal_claim(receipt.claim.duplicate(), &receipt.hashfn))
}

/// Combine two succinct receipts proving adjacent continuation segments
/// into one succinct receipt of the combined continuation. `a` must prove
/// the earlier segment.
pub fn join(a: &SuccinctReceipt, b: &SuccinctReceipt) -> (r: Result<
    SuccinctReceipt,
    ProverError,
>)
    ensures
        r is Ok <==> (recursion_input_ok(*a) && recursion_input_ok(*b) && join_compatible(
            a.claim@,
            b.claim@,
        )),
        r matches Ok(sr) ==> {
            &&& sr.claim@ == joined_claim(a.claim@, b.claim@)
            &&& recursion_input_ok(sr)
        },
{
    if !a.claim.check_wf() || !b.claim.check_wf() {
        return Err(ProverError::IntegrityViolation);
    }
    let poseidon = "poseidon".to_owned();
    if !a.hashfn.eq(&poseidon) || !b.hashfn.eq(&poseidon) {
        return Err(ProverError::UnsupportedHashfn { requested: a.hashfn.clone() });
    }
    let a_digest = a.claim.digest();
    let b_digest = b.claim.digest();
    if !seal_matches(&a.seal, &a.hashfn, &a_digest) || !seal_matches(&b.seal, &b.hashfn, &b_digest) {
        return Err(ProverError::IntegrityViolation);
    }
    if !a.claim.post.equals(&b.claim.pre) {
        return Err(ProverError::IntegrityViolation);
    }
    let split = match a.claim.exit_code {
        ExitCode::SystemSplit => true,
        _ => false,
    };
    let no_journal = match &a.claim.journal_digest {
        Some(_) => false,
        None => true,
    };
    if !split || !no_journal || a.claim.assumptions.len() != 0 {
        return Err(ProverError::IntegrityViolation);
    }
    let mut claim = b.claim.duplicate();
    claim.pre = a.claim.pre.duplicate();
    proof {
        assert(claim@ =~= joined_claim(a.claim@, b.claim@));
    }
    Ok(seal_claim(claim, &b.hashfn))
}

/// Discharge the first listed assumption of a conditional receipt's claim
/// using a receipt proving that assumption.
pub fn resolve(conditional: &SuccinctReceipt, assumption: &SuccinctReceipt) -> (r: Result<
    SuccinctReceipt,
    ProverError,
>)
    ensures
        r is Ok <==> (recursion_input_ok(*conditional) && recursion_input_ok(*assumption)
            && conditional.claim@.assumptions.len() >= 1
            && conditional.claim@.assumptions[0] == claim_digest_of(assumption.claim@)),
        r matches Ok(sr) ==> {
            &&& sr.claim@ == resolved_claim(conditional.claim@)
            &&& recursion_input_ok(sr)
        },
{
    if !conditional.claim.check_wf() || !assumption.claim.check_wf() {
        return Err(ProverError::IntegrityViolation);
    }
    let poseidon = "poseidon".to_owned();
    if !conditional.hashfn.eq(&poseidon) || !assumption.hashfn.eq(&poseidon) {
        return Err(ProverError::UnsupportedHashfn { requested: conditional.hashfn.clone() });
    }
    let c_digest = conditional.claim.digest();
    let a_digest = assumption.claim.digest();
    if !seal_matches(&conditional.seal, &conditional.hashfn, &c_digest) || !seal_matches(
        &assumption.seal,
        &assumption.hashfn,
        &a_digest,
    ) {
        return Err(ProverError::IntegrityViolation);
    }
    if conditional.claim.assumptions.len() == 0 {
        return Err(ProverError::IntegrityViolation);
    }
    if !conditional.claim.assumptions[0].equals(&a_digest) {
        proof {
            assert(conditional.claim@.assumptions[0] == conditional.claim.assumptions@[0]@);
        }
        return Err(ProverError::ClaimMismatch {
            expected: conditional.claim.assumptions[0].duplicate(),
            actual: a_digest,
        });
    }
    let mut assumptions: Vec<Digest> = Vec::new();
    let mut i: usize = 1;
    while i < conditional.claim.assumptions.len()
        invariant
            conditional.claim.wf(),
            1 <= i <= conditional.claim.assumptions@.len(),
            assumptions@.len() == i - 1,
            forall|j: int|
                0 <= j < i - 1 ==> (#[trigger] assumptions@[j])@
                    == conditional.claim.assumptions@[j + 1]@,
        decreases conditional.claim.assumptions@.len() - i,
    {
        assumptions.push(conditional.claim.assumptions[i].duplicate());
        i = i + 1;
    }
    let claim = Claim {
        pre: conditional.claim.pre.duplicate(),
        post: conditional.claim.post.duplicate(),
        exit_code: conditional.claim.exit_code,
        journal_digest: match &conditional.claim.journal_digest {
            Some(d) => Some(d.duplicate()),
            None => None,
        },
        assumptions,
    };
    proof {
        assert(claim@.assumptions =~= resolved_claim(conditional.claim@).assumptions);
        assert(claim@ =~= resolved_claim(conditional.claim@));
        assert(claim@.wf()) by {
            assert forall|j: int| 0 <= j < claim@.assumptions.len()
                implies (#[trigger] claim@.assumptions[j]).len() == 32 by {
                assert(claim@.assumptions[j] == conditional.claim@.assumptions[j + 1]);
            }
        }
    }
    Ok(seal_claim(claim, &conditional.hashfn))
}

/// Re-encode a succinct receipt under the Poseidon variant over a 254-bit
/// field, for verifiers that require it. The claim is unchanged.
pub fn identity_p254(a: &SuccinctReceipt) -> (r: Result<SuccinctReceipt, ProverError>)
    ensures
        r is Ok <==> recursion_input_ok(*a),
        r matches Ok(sr) ==> {
            &&& sr.claim@ == a.claim@
            &&& sr.hashfn@ == poseidon_254_suite()
            &&& sr.seal@ == seal_for(poseidon_254_suite(), claim_digest_of(sr.claim@))
        },
{
    if !a.claim.check_wf() {
        return Err(ProverError::IntegrityViolation);
    }
    if !a.hashfn.eq(&"poseidon".to_owned()) {
        return Err(ProverError::UnsupportedHashfn { requested: a.hashfn.clone() });
    }
    let claim_digest = a.claim.digest();
    if !seal_matches(&a.seal, &a.hashfn, &claim_digest) {
        return Err(ProverError::IntegrityViolation);
    }
    Ok(seal_claim(a.claim.duplicate(), &"poseidon_254".to_owned()))
}

} // verus!
