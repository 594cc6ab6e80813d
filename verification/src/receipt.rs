//! Receipts: the artifacts the prover hands back, in their four
//! representations, together with the integrity checks every freshly
//! produced receipt must pass before it is returned.

use vstd::prelude::*;
use vstd::assert_by_contradiction;
use crate::claim::{Claim, ClaimView, ExitCode, claim_digest_of};
use crate::digest::{Digest, sha256_of, sha256_digest};
use crate::error::ProverError;

verus! {

/// The hash-suite name of the SHA-256 commitment scheme.
pub open spec fn sha256_suite() -> Seq<char> {
    "sha-256"@
}

/// The hash-suite name of the Poseidon commitment scheme, the only suite
/// the recursion circuits support.
pub open spec fn poseidon_suite() -> Seq<char> {
    "poseidon"@
}

/// The hash-suite name of the Poseidon variant over a 254-bit field, used
/// to re-encode succinct receipts for downstream verifiers.
pub open spec fn poseidon_254_suite() -> Seq<char> {
    "poseidon_254"@
}

/// Numeric tag of a hash-suite name, as embedded in seals.
pub open spec fn suite_tag(name: Seq<char>) -> u32 {
    if name == sha256_suite() {
        1
    } else if name == poseidon_suite() {
        2
    } else if name == poseidon_254_suite() {
        3
    } else {
        0
    }
}

/// Executable form of [`suite_tag`].
pub fn suite_tag_of(name: &String) -> (t: u32)
    ensures
        t == suite_tag(name@),
{
    if name.eq(&"sha-256".to_owned()) {
        1
    } else if name.eq(&"poseidon".to_owned()) {
        2
    } else if name.eq(&"poseidon_254".to_owned()) {
        3
    } else {
        0
    }
}

/// A 32-bit word assembled from four little-endian bytes.
pub open spec fn le_word(b0: u8, b1: u8, b2: u8, b3: u8) -> u32 {
    (b0 as u32) | ((b1 as u32) << 8u32) | ((b2 as u32) << 16u32) | ((b3 as u32) << 24u32)
}

/// Word `i` of a 32-byte digest, little-endian.
pub open spec fn word_at(d: Seq<u8>, i: int) -> u32 {
    le_word(d[4 * i], d[4 * i + 1], d[4 * i + 2], d[4 * i + 3])
}

/// The eight words of a 32-byte digest.
pub open spec fn digest_words(d: Seq<u8>) -> Seq<u32> {
    Seq::new(8, |i: int| word_at(d, i))
}

/// The seal a backend produces over a claim: the suite tag followed by the
/// words of the claim digest. Its byte layout is otherwise opaque to this
/// core; this is the shape the integrity checks can hold it to.
pub open spec fn seal_for(suite: Seq<char>, claim_digest: Seq<u8>) -> Seq<u32> {
    seq![suite_tag(suite)] + digest_words(claim_digest)
}

/// Build the seal words for a claim digest under the given suite.
pub fn encode_seal(name: &String, claim_digest: &Digest) -> (r: Vec<u32>)
    requires
        claim_digest.wf(),
    ensures
        r@ == seal_for(name@, claim_digest@),
{
    let mut out: Vec<u32> = Vec::new();
    out.push(suite_tag_of(name));
    let mut i: usize = 0;
    while i < 8
        invariant
            i <= 8,
            claim_digest.wf(),
            out@ =~= seq![suite_tag(name@)] + digest_words(claim_digest@).subrange(0, i as int),
        decreases 8 - i,
    {
        let b0 = claim_digest.bytes[4 * i];
        let b1 = claim_digest.bytes[4 * i + 1];
        let b2 = claim_digest.bytes[4 * i + 2];
        let b3 = claim_digest.bytes[4 * i + 3];
        let w: u32 = (b0 as u32) | ((b1 as u32) << 8u32) | ((b2 as u32) << 16u32)
            | ((b3 as u32) << 24u32);
        out.push(w);
        proof {
            assert(w == word_at(claim_digest@, i as int));
            assert(out@ =~= seq![suite_tag(name@)]
                + digest_words(claim_digest@).subrange(0, i + 1));
        }
        i = i + 1;
    }
    proof {
        assert(digest_words(claim_digest@).subrange(0, 8) =~= digest_words(claim_digest@));
    }
    out
}

/// Whether `seal` is exactly the seal for this suite and claim digest.
pub fn seal_matches(seal: &Vec<u32>, name: &String, claim_digest: &Digest) -> (r: bool)
    requires
        claim_digest.wf(),
    ensures
        r == (seal@ == seal_for(name@, claim_digest@)),
{
    let expected = encode_seal(name, claim_digest);
    if seal.len() != expected.len() {
        proof {
            assert(seal@ != seal_for(name@, claim_digest@));
        }
        return false;
    }
    let mut i: usize = 0;
    while i < seal.len()
        invariant
            i <= seal@.len(),
            seal@.len() == expected@.len(),
            expected@ == seal_for(name@, claim_digest@),
            forall|j: int| 0 <= j < i ==> seal@[j] == expected@[j],
        decreases seal@.len() - i,
    {
        if seal[i] != expected[i] {
            return false;
        }
        i = i + 1;
    }
    proof {
        assert(seal@ =~= expected@);
    }
    true
}

/// Word-for-word copy of a seal.
pub fn copy_words(v: &Vec<u32>) -> (r: Vec<u32>)
    ensures
        r@ == v@,
{
    let mut out: Vec<u32> = Vec::new();
    let mut i: usize = 0;
    while i < v.len()
        invariant
            i <= v@.len(),
            out@ =~= v@.subrange(0, i as int),
        decreases v@.len() - i,
    {
        out.push(v[i]);
        i = i + 1;
    }
    proof {
        assert(out@ =~= v@);
    }
    out
}

/// Configuration governing what counts as a valid receipt during
/// integrity checks: the hash suites the verifier accepts.
pub struct VerifierContext {
    /// Names of the accepted hash suites.
    pub suites: Vec<String>,
}

impl VerifierContext {
    /// Whether the context accepts the named hash suite.
    pub open spec fn accepts(self, name: Seq<char>) -> bool {
        exists|i: int| 0 <= i < self.suites@.len() && (#[trigger] self.suites@[i])@ == name
    }

    /// Executable form of [`VerifierContext::accepts`].
    pub fn accepts_suite(&self, name: &String) -> (r: bool)
        ensures
            r == self.accepts(name@),
    {
        let mut i: usize = 0;
        while i < self.suites.len()
            invariant
                i <= self.suites@.len(),
                forall|j: int| 0 <= j < i ==> (#[trigger] self.suites@[j])@ != name@,
            decreases self.suites@.len() - i,
        {
            if self.suites[i].eq(name) {
                return true;
            }
            i = i + 1;
        }
        false
    }
}

impl Default for VerifierContext {
    /// The default context accepts the two suites the backends produce.
    fn default() -> (r: VerifierContext)
        ensures
            r.suites@.len() == 2,
            r.suites@[0]@ == sha256_suite(),
            r.suites@[1]@ == poseidon_suite(),
    {
        let mut suites: Vec<String> = Vec::new();
        suites.push("sha-256".to_owned());
        suites.push("poseidon".to_owned());
        VerifierContext { suites }
    }
}

/// The receipt of one proven execution segment.
pub struct SegmentReceipt {
    /// The opaque proof payload.
    pub seal: Vec<u32>,
    /// Index of the segment within its session.
    pub index: u32,
    /// Name of the hash suite the seal was produced under.
    pub hashfn: String,
    /// The claim this receipt proves.
    pub claim: Claim,
}

impl SegmentReceipt {
    /// The receipt passes its integrity check under `ctx`.
    pub open spec fn ok(self, ctx: VerifierContext) -> bool {
        &&& self.claim.wf()
        &&& ctx.accepts(self.hashfn@)
        &&& self.seal@ == seal_for(self.hashfn@, claim_digest_of(self.claim@))
    }

    /// Check that the seal is consistent with the claim and that the
    /// context accepts the hash suite.
    pub fn verify_integrity_with_context(&self, ctx: &VerifierContext) -> (r: Result<
        (),
        ProverError,
    >)
        ensures
            r is Ok <==> self.ok(*ctx),
    {
        if !self.claim.check_wf() {
            return Err(ProverError::IntegrityViolation);
        }
        if !ctx.accepts_suite(&self.hashfn) {
            return Err(ProverError::IntegrityViolation);
        }
        let claim_digest = self.claim.digest();
        if !seal_matches(&self.seal, &self.hashfn, &claim_digest) {
            return Err(ProverError::IntegrityViolation);
        }
        Ok(())
    }

    /// A value-identical copy of this receipt.
    pub fn duplicate(&self) -> (r: SegmentReceipt)
        ensures
            r.seal@ == self.seal@,
            r.index == self.index,
            r.hashfn@ == self.hashfn@,
            r.claim@ == self.claim@,
    {
        SegmentReceipt {
            seal: copy_words(&self.seal),
            index: self.index,
            hashfn: self.hashfn.clone(),
            claim: self.claim.duplicate(),
        }
    }
}

/// A fixed-size receipt produced by the recursion circuits.
pub struct SuccinctReceipt {
    /// The opaque proof payload.
    pub seal: Vec<u32>,
    /// Name of the hash suite the seal was produced under.
    pub hashfn: String,
    /// The claim this receipt proves.
    pub claim: Claim,
}

impl SuccinctReceipt {
    /// The receipt passes its integrity check under `ctx`.
    pub open spec fn ok(self, ctx: VerifierContext) -> bool {
        &&& self.claim.wf()
        &&& ctx.accepts(self.hashfn@)
        &&& self.seal@ == seal_for(self.hashfn@, claim_digest_of(self.claim@))
    }

    /// Check that the seal is consistent with the claim and that the
    /// context accepts the hash suite.
    pub fn verify_integrity_with_context(&self, ctx: &VerifierContext) -> (r: Result<
        (),
        ProverError,
    >)
        ensures
            r is Ok <==> self.ok(*ctx),
    {
        if !self.claim.check_wf() {
            return Err(ProverError::IntegrityViolation);
        }
        if !ctx.accepts_suite(&self.hashfn) {
            return Err(ProverError::IntegrityViolation);
        }
        let claim_digest = self.claim.digest();
        if !seal_matches(&self.seal, &self.hashfn, &claim_digest) {
            return Err(ProverError::IntegrityViolation);
        }
        Ok(())
    }

    /// A value-identical copy of this receipt.
    pub fn duplicate(&self) -> (r: SuccinctReceipt)
        ensures
            r.seal@ == self.seal@,
            r.hashfn@ == self.hashfn@,
            r.claim@ == self.claim@,
    {
        SuccinctReceipt {
            seal: copy_words(&self.seal),
            hashfn: self.hashfn.clone(),
            claim: self.claim.duplicate(),
        }
    }
}

/// A non-cryptographic placeholder receipt, produced only by the
/// development-mode service; it carries no security guarantee.
pub struct FakeReceipt {
    /// The claim the placeholder stands for.
    pub claim: Claim,
}

/// A foreign proof system's receipt, opaque to this core.
pub struct Groth16Receipt {
    /// The foreign proof bytes.
    pub seal: Vec<u8>,
    /// The claim the foreign receipt proves.
    pub claim: Claim,
}

/// The representation a receipt's proof takes.
pub enum InnerReceipt {
    /// Ordered segment receipts plus assumption receipts; linear size.
    Composite(CompositeReceipt),
    /// One fixed-size recursively produced receipt.
    Succinct(SuccinctReceipt),
    /// A non-cryptographic placeholder.
    Fake(FakeReceipt),
    /// A foreign-wrapped proof.
    Groth16(Groth16Receipt),
}

/// A linear-size receipt: the segment receipts of one session in index
/// order, the receipts of the assumptions the session depends on, and the
/// digest of the public output.
pub struct CompositeReceipt {
    /// Receipts of the session's segments, in index order.
    pub segments: Vec<SegmentReceipt>,
    /// Receipts of the assumptions, in the order the terminal claim
    /// lists them.
    pub assumptions: Vec<InnerReceipt>,
    /// Digest of the session's journal, if the session has one.
    pub journal_digest: Option<Digest>,
}

/// The externally handed-back artifact: a proof representation plus the
/// raw journal bytes.
pub struct Receipt {
    /// The proof.
    pub inner: InnerReceipt,
    /// The raw public output of the proven execution.
    pub journal: Vec<u8>,
}

/// The claim a composite receipt proves, assuming it has segments: the
/// span from the first segment's pre-state to the last segment's
/// post-state, with all assumptions discharged by the carried receipts.
pub open spec fn composite_claim_view(c: CompositeReceipt) -> ClaimView {
    ClaimView {
        pre: c.segments@[0].claim@.pre,
        post: c.segments@[c.segments@.len() - 1].claim@.post,
        exit_code: c.segments@[c.segments@.len() - 1].claim@.exit_code,
        journal_digest: match c.journal_digest {
            Some(d) => Some(d@),
            None => None,
        },
        assumptions: Seq::empty(),
    }
}

/// The claim an inner receipt proves.
pub open spec fn inner_claim_view(r: InnerReceipt) -> ClaimView {
    match r {
        InnerReceipt::Composite(c) => composite_claim_view(c),
        InnerReceipt::Succinct(s) => s.claim@,
        InnerReceipt::Fake(f) => f.claim@,
        InnerReceipt::Groth16(g) => g.claim@,
    }
}

/// The journal bytes are the ones the claim commits to.
pub open spec fn journal_ok(cv: ClaimView, journal: Seq<u8>) -> bool {
    match cv.journal_digest {
        Some(d) => d == sha256_of(journal),
        None => journal.len() == 0,
    }
}

/// Segment receipts form a continuation chain: consecutive indices,
/// one hash suite, each non-terminal claim split and linked to its
/// successor.
pub open spec fn chain_ok(segs: Seq<SegmentReceipt>) -> bool {
    &&& forall|i: int| 0 <= i < segs.len() ==> (#[trigger] segs[i]).hashfn@ == segs[0].hashfn@
    &&& forall|i: int|
        0 <= i < segs.len() ==> (#[trigger] segs[i]).index as int == segs[0].index + i
    &&& forall|i: int| 0 <= i < segs.len() - 1 ==> {
        &&& (#[trigger] segs[i]).claim@.post == segs[i + 1].claim@.pre
        &&& segs[i].claim@.exit_code == ExitCode::SystemSplit
        &&& segs[i].claim@.journal_digest is None
        &&& segs[i].claim@.assumptions.len() == 0
    }
}

/// Integrity of an assumption receipt: a succinct receipt must verify; a
/// composite receipt must verify recursively; placeholders and
/// foreign-wrapped proofs are not valid under this core's contexts.
pub open spec fn inner_ok(r: InnerReceipt, ctx: VerifierContext) -> bool
    decreases r,
{
    match r {
        InnerReceipt::Composite(c) => composite_ok(c, ctx),
        InnerReceipt::Succinct(s) => s.ok(ctx),
        InnerReceipt::Fake(_) => false,
        InnerReceipt::Groth16(_) => false,
    }
}

/// Integrity of a list of assumption receipts from position `i` on, each
/// matching the claim digest the terminal claim expects of it.
pub open spec fn assumptions_ok(
    rs: Seq<InnerReceipt>,
    expected: Seq<Seq<u8>>,
    ctx: VerifierContext,
) -> bool
    decreases rs,
{
    &&& rs.len() == expected.len()
    &&& rs.len() != 0 ==> {
        &&& inner_ok(rs[0], ctx)
        &&& claim_digest_of(inner_claim_view(rs[0])) == expected[0]
        &&& assumptions_ok(rs.subrange(1, rs.len() as int), expected.subrange(1, expected.len() as int), ctx)
    }
}

/// Integrity of a composite receipt: a non-empty verified chain, a journal
/// commitment matching the terminal claim, and a matching receipt for
/// every assumption the terminal claim lists.
pub open spec fn composite_ok(c: CompositeReceipt, ctx: VerifierContext) -> bool
    decreases c,
{
    let segs = c.segments@;
    let last = segs[segs.len() - 1];
    &&& segs.len() >= 1
    &&& forall|i: int| 0 <= i < segs.len() ==> (#[trigger] segs[i]).ok(ctx)
    &&& chain_ok(segs)
    &&& (match c.journal_digest {
        Some(d) => last.claim@.journal_digest == Some(d@),
        None => last.claim@.journal_digest is None,
    })
    &&& assumptions_ok(c.assumptions@, last.claim@.assumptions, ctx)
}

/// Integrity of a whole receipt: its inner representation verifies and
/// the raw journal matches the claim's commitment.
pub open spec fn receipt_ok(r: Receipt, ctx: VerifierContext) -> bool {
    &&& inner_ok(r.inner, ctx)
    &&& journal_ok(inner_claim_view(r.inner), r.journal@)
}

/// Assumption receipts verifying pointwise, each against its expected
/// digest, verify as a list.
pub proof fn lemma_assumptions_ok_pointwise(
    rs: Seq<InnerReceipt>,
    expected: Seq<Seq<u8>>,
    ctx: VerifierContext,
)
    requires
        rs.len() == expected.len(),
        forall|i: int| 0 <= i < rs.len() ==> inner_ok(#[trigger] rs[i], ctx),
        forall|i: int|
            0 <= i < rs.len() ==> claim_digest_of(inner_claim_view(#[trigger] rs[i]))
                == expected[i],
    ensures
        assumptions_ok(rs, expected, ctx),
    decreases rs.len(),
{
    if rs.len() != 0 {
        let rs_tail = rs.subrange(1, rs.len() as int);
        let exp_tail = expected.subrange(1, expected.len() as int);
        assert forall|i: int| 0 <= i < rs_tail.len() implies inner_ok(#[trigger] rs_tail[i], ctx)
            && claim_digest_of(inner_claim_view(rs_tail[i])) == exp_tail[i] by {
            assert(rs_tail[i] == rs[i + 1]);
            assert(exp_tail[i] == expected[i + 1]);
        }
        lemma_assumptions_ok_pointwise(rs_tail, exp_tail, ctx);
    }
}

/// A verified assumption receipt proves a well-formed claim.
pub proof fn lemma_inner_ok_claim_wf(r: InnerReceipt, ctx: VerifierContext)
    requires
        inner_ok(r, ctx),
    ensures
        inner_claim_view(r).wf(),
{
    match r {
        InnerReceipt::Composite(c) => {
            let segs = c.segments@;
            assert(segs[0].ok(ctx));
            assert(segs[segs.len() - 1].ok(ctx));
        }
        InnerReceipt::Succinct(_) => {}
        InnerReceipt::Fake(_) => {}
        InnerReceipt::Groth16(_) => {}
    }
}

impl CompositeReceipt {
    /// The claim this composite receipt proves: first pre-state to last
    /// post-state, journal as committed, all assumptions discharged.
    /// Fails only when the receipt has no segment receipts.
    pub fn get_claim(&self) -> (r: Result<Claim, ProverError>)
        ensures
            self.segments@.len() >= 1 ==> (r matches Ok(c) && c@ == composite_claim_view(*self)),
            self.segments@.len() == 0 ==> (r matches Err(e) && e is MalformedComposite),
    {
        if self.segments.len() == 0 {
            return Err(ProverError::MalformedComposite);
        }
        let first = &self.segments[0];
        let last = &self.segments[self.segments.len() - 1];
        let journal_digest = match &self.journal_digest {
            Some(d) => Some(d.duplicate()),
            None => None,
        };
        let c = Claim {
            pre: first.claim.pre.duplicate(),
            post: last.claim.post.duplicate(),
            exit_code: last.claim.exit_code,
            journal_digest,
            assumptions: Vec::new(),
        };
        proof {
            assert(c@ =~= composite_claim_view(*self));
        }
        Ok(c)
    }

    /// Verify the whole composite: every segment receipt, the continuation
    /// chain, the journal commitment, and (recursively) every assumption
    /// receipt against the digest the terminal claim lists for it.
    #[verifier::rlimit(100)]
    pub fn verify_integrity_with_context(&self, ctx: &VerifierContext) -> (r: Result<
        (),
        ProverError,
    >)
        ensures
            r is Ok <==> composite_ok(*self, *ctx),
            self.segments@.len() == 0 ==> (r matches Err(e) && e is MalformedComposite),
        decreases *self,
    {
        let n = self.segments.len();
        if n == 0 {
            return Err(ProverError::MalformedComposite);
        }
        let last = &self.segments[n - 1];
        let journal_fine = match (&self.journal_digest, &last.claim.journal_digest) {
            (Some(d), Some(cd)) => d.equals(cd),
            (None, None) => true,
            _ => false,
        };
        let fine = verify_segments(&self.segments, ctx) && check_chain(&self.segments)
            && journal_fine && self.assumptions.len() == last.claim.assumptions.len();
        if !fine {
            return Err(ProverError::IntegrityViolation);
        }
        let r = verify_assumptions(&self.assumptions, &last.claim.assumptions, ctx, 0);
        proof {
            assert(self.assumptions@.subrange(0, self.assumptions@.len() as int)
                =~= self.assumptions@);
            assert(self.segments@[n - 1].claim@.assumptions.subrange(
                0,
                self.segments@[n - 1].claim@.assumptions.len() as int,
            ) =~= self.segments@[n - 1].claim@.assumptions);
        }
        r
    }
}

/// Whether every segment receipt in the list passes its integrity check.
fn verify_segments(segs: &Vec<SegmentReceipt>, ctx: &VerifierContext) -> (b: bool)
    ensures
        b == (forall|j: int| 0 <= j < segs@.len() ==> (#[trigger] segs@[j]).ok(*ctx)),
{
    let mut i: usize = 0;
    while i < segs.len()
        invariant
            i <= segs@.len(),
            forall|j: int| 0 <= j < i ==> (#[trigger] segs@[j]).ok(*ctx),
        decreases segs@.len() - i,
    {
        match segs[i].verify_integrity_with_context(ctx) {
            Ok(_) => {}
            Err(_) => {
                return false;
            }
        }
        i = i + 1;
    }
    true
}

/// Whether the segment receipts form a continuation chain.
fn check_chain(segs: &Vec<SegmentReceipt>) -> (b: bool)
    requires
        segs@.len() >= 1,
    ensures
        b == chain_ok(segs@),
{
    let b = check_same_suite(segs) && check_indices(segs) && check_links(segs);
    b
}

/// Whether every segment receipt names the suite of the first one.
fn check_same_suite(segs: &Vec<SegmentReceipt>) -> (b: bool)
    requires
        segs@.len() >= 1,
    ensures
        b == (forall|j: int|
            0 <= j < segs@.len() ==> (#[trigger] segs@[j]).hashfn@ == segs@[0].hashfn@),
{
    let mut i: usize = 0;
    while i < segs.len()
        invariant
            i <= segs@.len(),
            segs@.len() >= 1,
            forall|j: int| 0 <= j < i ==> (#[trigger] segs@[j]).hashfn@ == segs@[0].hashfn@,
        decreases segs@.len() - i,
    {
        if !segs[i].hashfn.eq(&segs[0].hashfn) {
            return false;
        }
        i = i + 1;
    }
    true
}

/// Whether the segment indices are consecutive from the first one's.
fn check_indices(segs: &Vec<SegmentReceipt>) -> (b: bool)
    requires
        segs@.len() >= 1,
    ensures
        b == (forall|j: int|
            0 <= j < segs@.len() ==> (#[trigger] segs@[j]).index as int == segs@[0].index + j),
{
    let n = segs.len();
    let mut i: usize = 0;
    while i < n
        invariant
            n == segs@.len(),
            n >= 1,
            i <= n,
            forall|j: int|
                0 <= j < i ==> (#[trigger] segs@[j]).index as int == segs@[0].index + j,
        decreases n - i,
    {
        if (segs[i].index as u128) != (segs[0].index as u128) + (i as u128) {
            return false;
        }
        i = i + 1;
    }
    true
}

/// Whether each non-terminal claim split and links to its successor.
#[verifier::rlimit(60)]
fn check_links(segs: &Vec<SegmentReceipt>) -> (b: bool)
    requires
        segs@.len() >= 1,
    ensures
        b == (forall|j: int| 0 <= j < segs@.len() - 1 ==> {
            &&& (#[trigger] segs@[j]).claim@.post == segs@[j + 1].claim@.pre
            &&& segs@[j].claim@.exit_code == ExitCode::SystemSplit
            &&& segs@[j].claim@.journal_digest is None
            &&& segs@[j].claim@.assumptions.len() == 0
        }),
{
    let n = segs.len();
    let mut i: usize = 0;
    while i < n - 1
        invariant
            n == segs@.len(),
            n >= 1,
            i <= n,
            forall|j: int| 0 <= j < i && j < n - 1 ==> {
                &&& (#[trigger] segs@[j]).claim@.post == segs@[j + 1].claim@.pre
                &&& segs@[j].claim@.exit_code == ExitCode::SystemSplit
                &&& segs@[j].claim@.journal_digest is None
                &&& segs@[j].claim@.assumptions.len() == 0
            },
        decreases n - i,
    {
        let seg = &segs[i];
        let next = &segs[i + 1];
        let linked = seg.claim.post.equals(&next.claim.pre);
        let split = match seg.claim.exit_code {
            ExitCode::SystemSplit => true,
            _ => false,
        };
        let no_journal = match &seg.claim.journal_digest {
            Some(_) => false,
            None => true,
        };
        let no_assumptions = seg.claim.assumptions.len() == 0;
        if !(linked && split && no_journal && no_assumptions) {
            proof {
                assert(!(segs@[i as int].claim@.post == segs@[i + 1].claim@.pre
                    && segs@[i as int].claim@.exit_code == ExitCode::SystemSplit
                    && segs@[i as int].claim@.journal_digest is None
                    && segs@[i as int].claim@.assumptions.len() == 0));
            }
            return false;
        }
        i = i + 1;
    }
    true
}

/// Verify one assumption receipt: a succinct one directly, a composite one
/// recursively; placeholders and foreign-wrapped proofs never verify here.
fn verify_inner(r: &InnerReceipt, ctx: &VerifierContext) -> (res: Result<(), ProverError>)
    ensures
        res is Ok <==> inner_ok(*r, *ctx),
    decreases *r,
{
    match r {
        InnerReceipt::Composite(c) => c.verify_integrity_with_context(ctx),
        InnerReceipt::Succinct(s) => s.verify_integrity_with_context(ctx),
        InnerReceipt::Fake(_) => Err(ProverError::IntegrityViolation),
        InnerReceipt::Groth16(_) => Err(ProverError::IntegrityViolation),
    }
}

/// The claim a verified assumption receipt proves, as a value.
fn claim_of_inner(r: &InnerReceipt) -> (res: Result<Claim, ProverError>)
    ensures
        res matches Ok(c) ==> c@ == inner_claim_view(*r),
        res is Err ==> (r matches InnerReceipt::Composite(c) && c.segments@.len() == 0),
{
    match r {
        InnerReceipt::Composite(c) => c.get_claim(),
        InnerReceipt::Succinct(s) => Ok(s.claim.duplicate()),
        InnerReceipt::Fake(f) => Ok(f.claim.duplicate()),
        InnerReceipt::Groth16(g) => Ok(g.claim.duplicate()),
    }
}

/// Verify the assumption receipts from position `i` on, each against the
/// digest the terminal claim expects at that position.
fn verify_assumptions(
    rs: &Vec<InnerReceipt>,
    expected: &Vec<Digest>,
    ctx: &VerifierContext,
    i: usize,
) -> (r: Result<(), ProverError>)
    requires
        i <= rs@.len(),
        rs@.len() == expected@.len(),
    ensures
        r is Ok <==> assumptions_ok(
            rs@.subrange(i as int, rs@.len() as int),
            expected@.map_values(|d: Digest| d@).subrange(i as int, expected@.len() as int),
            *ctx,
        ),
    decreases *rs, rs@.len() - i,
{
    let ghost suffix = rs@.subrange(i as int, rs@.len() as int);
    let ghost exp_suffix = expected@.map_values(|d: Digest| d@).subrange(
        i as int,
        expected@.len() as int,
    );
    if i == rs.len() {
        proof {
            assert(suffix.len() == 0);
            assert(exp_suffix.len() == 0);
        }
        return Ok(());
    }
    proof {
        assert(suffix[0] == rs@[i as int]);
        assert(exp_suffix[0] == expected@[i as int]@);
    }
    let head = &rs[i];
    proof {
        assert(decreases_to!(*rs => rs@));
        assert(decreases_to!(rs@ => rs@[i as int]));
    }
    match verify_inner(head, ctx) {
        Ok(_) => {}
        Err(e) => {
            return Err(e);
        }
    }
    let head_claim = match claim_of_inner(head) {
        Ok(c) => c,
        Err(_) => {
            proof {
                assert(false);
            }
            return Err(ProverError::IntegrityViolation);
        }
    };
    proof {
        lemma_inner_ok_claim_wf(rs@[i as int], *ctx);
    }
    let head_digest = head_claim.digest();
    if !head_digest.equals(&expected[i]) {
        return Err(ProverError::IntegrityViolation);
    }
    let r = verify_assumptions(rs, expected, ctx, i + 1);
    proof {
        assert(suffix.subrange(1, suffix.len() as int)
            =~= rs@.subrange(i + 1, rs@.len() as int));
        assert(exp_suffix.subrange(1, exp_suffix.len() as int)
            =~= expected@.map_values(|d: Digest| d@).subrange(i + 1, expected@.len() as int));
    }
    r
}

impl Receipt {
    /// Wrap a proof representation and the raw journal bytes.
    pub fn new(inner: InnerReceipt, journal: Vec<u8>) -> (r: Receipt)
        ensures
            r.inner == inner,
            r.journal == journal,
    {
        Receipt { inner, journal }
    }

    /// The claim this receipt proves.
    pub fn get_claim(&self) -> (r: Result<Claim, ProverError>)
        ensures
            r matches Ok(c) ==> c@ == inner_claim_view(self.inner),
            r is Err ==> (self.inner matches InnerReceipt::Composite(c) && c.segments@.len() == 0),
    {
        claim_of_inner(&self.inner)
    }

    /// Verify the proof representation and that the raw journal matches
    /// the claim's public-output commitment.
    pub fn verify_integrity_with_context(&self, ctx: &VerifierContext) -> (r: Result<
        (),
        ProverError,
    >)
        ensures
            r is Ok <==> receipt_ok(*self, *ctx),
    {
        match verify_inner(&self.inner, ctx) {
            Ok(_) => {}
            Err(e) => {
                return Err(e);
            }
        }
        let claim = match self.get_claim() {
            Ok(c) => c,
            Err(_) => {
                proof {
                    assert(false);
                }
                return Err(ProverError::IntegrityViolation);
            }
        };
        match &claim.journal_digest {
            Some(d) => {
                let journal_digest = sha256_digest(&self.journal);
                if !d.equals(&journal_digest) {
                    return Err(ProverError::IntegrityViolation);
                }
            }
            None => {
                if self.journal.len() != 0 {
                    return Err(ProverError::IntegrityViolation);
                }
            }
        }
        Ok(())
    }
}

} // verus!
