//! Sessions and segments: the recorded execution this prover turns into
//! receipts. Both are produced by the execution layer and consumed
//! read-only here.

use vstd::prelude::*;
use crate::claim::{Claim, ClaimView, ExitCode, le_bytes};
use crate::digest::{Digest, sha256_of, sha256_digest, DIGEST_BYTES};
use crate::error::ProverError;
use crate::receipt::SuccinctReceipt;

verus! {

/// Size of the circuit's public input/output vector.
pub const OUTPUT_SIZE: usize = 138;

/// Offset of the program counter in the public vector, after the zeroed
/// input-digest region.
pub const PC_OFFSET: usize = 32;

/// Offset of the memory-image root digest in the public vector.
pub const ROOT_OFFSET: usize = 36;

/// End of the initialized region of the public vector.
pub const GLOBALS_END: usize = 68;

/// A field element of the circuit's public vector: either still
/// uninitialized or holding one byte-sized word.
#[derive(Clone, Copy, Debug, PartialEq, Eq, Structural)]
pub enum FieldVal {
    /// Not yet written.
    Invalid,
    /// A written element.
    Val(u32),
}

/// A machine state at a segment boundary: program counter and the root
/// digest of the memory image.
pub struct ImageState {
    /// The program counter.
    pub pc: u32,
    /// Root digest of the memory image.
    pub root: Digest,
}

/// The digest identifying a machine state.
pub open spec fn state_digest(s: ImageState) -> Seq<u8> {
    sha256_of(le_bytes(s.pc) + s.root@)
}

impl ImageState {
    /// The root digest is full-length.
    pub open spec fn wf(self) -> bool {
        self.root.wf()
    }

    /// Compute the digest identifying this state.
    pub fn digest(&self) -> (r: Digest)
        requires
            self.wf(),
        ensures
            r.wf(),
            r@ == state_digest(*self),
    {
        let mut bytes: Vec<u8> = Vec::new();
        bytes.push((self.pc & 0xff) as u8);
        bytes.push(((self.pc >> 8u32) & 0xff) as u8);
        bytes.push(((self.pc >> 16u32) & 0xff) as u8);
        bytes.push(((self.pc >> 24u32) & 0xff) as u8);
        proof {
            assert(bytes@ =~= le_bytes(self.pc));
        }
        let mut i: usize = 0;
        while i < self.root.bytes.len()
            invariant
                i <= self.root.bytes@.len(),
                bytes@ =~= le_bytes(self.pc) + self.root.bytes@.subrange(0, i as int),
            decreases self.root.bytes@.len() - i,
        {
            bytes.push(self.root.bytes[i]);
            proof {
                assert(bytes@ =~= le_bytes(self.pc) + self.root.bytes@.subrange(0, i + 1));
            }
            i = i + 1;
        }
        proof {
            assert(bytes@ =~= le_bytes(self.pc) + self.root@);
        }
        sha256_digest(&bytes)
    }

    /// A value-identical copy.
    pub fn duplicate(&self) -> (r: ImageState)
        ensures
            r.pc == self.pc,
            r.root@ == self.root@,
            r.wf() == self.wf(),
    {
        ImageState { pc: self.pc, root: self.root.duplicate() }
    }
}

/// A bounded slice of one execution: its trace, its boundary states, and
/// enough recorded state to derive its claim.
pub struct Segment {
    /// Position of this segment within its session.
    pub index: u32,
    /// Log2 of the segment's cycle budget.
    pub po2: u32,
    /// Cycles the segment actually used.
    pub cycles: u32,
    /// Machine state the segment starts from.
    pub pre_state: ImageState,
    /// Machine state the segment ends in.
    pub post_state: ImageState,
    /// How the segment ended.
    pub exit_code: ExitCode,
    /// Digest of the journal, recorded on the terminal segment only.
    pub journal_digest: Option<Digest>,
    /// Digests of the claims assumed so far, recorded on the terminal
    /// segment only.
    pub assumptions: Vec<Digest>,
    /// The recorded per-cycle trace, replayed to regenerate the witness.
    pub trace: Vec<u32>,
}

/// The claim a segment's receipt proves.
pub open spec fn segment_claim_view(s: Segment) -> ClaimView {
    ClaimView {
        pre: state_digest(s.pre_state),
        post: state_digest(s.post_state),
        exit_code: s.exit_code,
        journal_digest: match s.journal_digest {
            Some(d) => Some(d@),
            None => None,
        },
        assumptions: s.assumptions@.map_values(|d: Digest| d@),
    }
}

impl Segment {
    /// Every recorded digest is full-length, the assumption list fits the
    /// claim encoding, and the trace holds one word per cycle.
    pub open spec fn wf(self) -> bool {
        &&& self.pre_state.wf()
        &&& self.post_state.wf()
        &&& match self.journal_digest {
            Some(d) => d.wf(),
            None => true,
        }
        &&& forall|i: int| 0 <= i < self.assumptions@.len() ==> (#[trigger] self.assumptions@[i]).wf()
        &&& self.assumptions@.len() <= 0xffff_ffff
        &&& self.trace@.len() == self.cycles as int
    }

    /// The segment stays within its declared power-of-two cycle budget.
    pub open spec fn within_cycle_bound(self) -> bool {
        &&& self.po2 <= 24
        &&& self.cycles <= (1u32 << self.po2)
    }

    /// Derive the claim this segment's receipt will prove.
    pub fn get_claim(&self) -> (c: Claim)
        requires
            self.wf(),
        ensures
            c@ == segment_claim_view(*self),
            c.wf(),
    {
        let journal_digest = match &self.journal_digest {
            Some(d) => Some(d.duplicate()),
            None => None,
        };
        let mut assumptions: Vec<Digest> = Vec::new();
        let mut i: usize = 0;
        while i < self.assumptions.len()
            invariant
                self.wf(),
                i <= self.assumptions@.len(),
                assumptions@.len() == i,
                forall|j: int| 0 <= j < i ==> (#[trigger] assumptions@[j])@ == self.assumptions@[j]@,
                forall|j: int| 0 <= j < i ==> (#[trigger] assumptions@[j])@.len() == DIGEST_BYTES,
            decreases self.assumptions@.len() - i,
        {
            assumptions.push(self.assumptions[i].duplicate());
            i = i + 1;
        }
        let c = Claim {
            pre: self.pre_state.digest(),
            post: self.post_state.digest(),
            exit_code: self.exit_code,
            journal_digest,
            assumptions,
        };
        proof {
            assert(c@.assumptions =~= segment_claim_view(*self).assumptions);
            assert(c@ =~= segment_claim_view(*self));
            assert forall|j: int| 0 <= j < c@.assumptions.len()
                implies (#[trigger] c@.assumptions[j]).len() == DIGEST_BYTES by {
                assert(c@.assumptions[j] == c.assumptions@[j]@);
            }
        }
        c
    }

    /// Build the circuit's fixed-layout public input/output vector: the
    /// input-digest region zeroed, the starting program counter encoded
    /// byte by byte, the starting memory image's root digest encoded byte
    /// by byte, everything past that still uninitialized.
    pub fn prepare_globals(&self) -> (io: Vec<FieldVal>)
        requires
            self.pre_state.wf(),
        ensures
            io@.len() == OUTPUT_SIZE,
            forall|i: int| 0 <= i < PC_OFFSET ==> io@[i] == FieldVal::Val(0),
            forall|i: int|
                0 <= i < 4 ==> io@[PC_OFFSET + i] == FieldVal::Val(
                    le_bytes(self.pre_state.pc)[i] as u32,
                ),
            forall|i: int|
                0 <= i < DIGEST_BYTES ==> io@[ROOT_OFFSET + i] == FieldVal::Val(
                    self.pre_state.root@[i] as u32,
                ),
            forall|i: int| GLOBALS_END <= i < OUTPUT_SIZE ==> io@[i] == FieldVal::Invalid,
    {
        let mut io: Vec<FieldVal> = Vec::new();
        let mut i: usize = 0;
        while i < OUTPUT_SIZE
            invariant
                i <= OUTPUT_SIZE,
                io@.len() == i,
                forall|j: int| 0 <= j < i ==> io@[j] == FieldVal::Invalid,
            decreases OUTPUT_SIZE - i,
        {
            io.push(FieldVal::Invalid);
            i = i + 1;
        }
        let mut i: usize = 0;
        while i < PC_OFFSET
            invariant
                i <= PC_OFFSET,
                io@.len() == OUTPUT_SIZE,
                forall|j: int| 0 <= j < i ==> io@[j] == FieldVal::Val(0),
                forall|j: int| i <= j < OUTPUT_SIZE ==> io@[j] == FieldVal::Invalid,
            decreases PC_OFFSET - i,
        {
            io.set(i, FieldVal::Val(0));
            i = i + 1;
        }
        proof {
            let pc = self.pre_state.pc;
            assert((pc & 0xff) < 256 && ((pc >> 8u32) & 0xff) < 256
                && ((pc >> 16u32) & 0xff) < 256 && ((pc >> 24u32) & 0xff) < 256) by (bit_vector);
        }
        io.set(PC_OFFSET, FieldVal::Val((self.pre_state.pc & 0xff)));
        io.set(PC_OFFSET + 1, FieldVal::Val((self.pre_state.pc >> 8u32) & 0xff));
        io.set(PC_OFFSET + 2, FieldVal::Val((self.pre_state.pc >> 16u32) & 0xff));
        io.set(PC_OFFSET + 3, FieldVal::Val((self.pre_state.pc >> 24u32) & 0xff));
        let mut i: usize = 0;
        while i < DIGEST_BYTES
            invariant
                i <= DIGEST_BYTES,
                self.pre_state.wf(),
                io@.len() == OUTPUT_SIZE,
                forall|j: int| 0 <= j < PC_OFFSET ==> io@[j] == FieldVal::Val(0),
                forall|j: int|
                    0 <= j < 4 ==> io@[PC_OFFSET + j] == FieldVal::Val(
                        le_bytes(self.pre_state.pc)[j] as u32,
                    ),
                forall|j: int|
                    0 <= j < i ==> io@[ROOT_OFFSET + j] == FieldVal::Val(
                        self.pre_state.root@[j] as u32,
                    ),
                forall|j: int| ROOT_OFFSET + i <= j < OUTPUT_SIZE ==> io@[j] == FieldVal::Invalid,
            decreases DIGEST_BYTES - i,
        {
            io.set(ROOT_OFFSET + i, FieldVal::Val(self.pre_state.root.bytes[i] as u32));
            i = i + 1;
        }
        io
    }
}

/// A session assumption: either already proven by a succinct receipt, or
/// still unresolved, identified by its claim digest.
pub enum SessionAssumption {
    /// The assumption comes with a succinct receipt proving it.
    Proven(SuccinctReceipt),
    /// No receipt is attached yet.
    Unresolved(Digest),
}

/// The digest of the claim an assumption stands for.
pub open spec fn assumption_digest(a: SessionAssumption) -> Seq<u8> {
    match a {
        SessionAssumption::Proven(r) => crate::claim::claim_digest_of(r.claim@),
        SessionAssumption::Unresolved(d) => d@,
    }
}

/// Observers invoked around each segment proof. Callbacks run
/// synchronously on the proving thread and must not assume knowledge of
/// other segments' state.
pub trait SessionEvents {
    /// Called before a segment is proven.
    fn on_pre_prove_segment(&mut self, segment: &Segment);

    /// Called after a segment is proven.
    fn on_post_prove_segment(&mut self, segment: &Segment);
}

/// The do-nothing observer.
pub struct NullEvents {}

impl SessionEvents for NullEvents {
    fn on_pre_prove_segment(&mut self, segment: &Segment) {
        let _ = segment;
    }

    fn on_post_prove_segment(&mut self, segment: &Segment) {
        let _ = segment;
    }
}

/// One full program run: its segments in order, how it ended, its public
/// output, and the assumptions it depends on.
pub struct Session {
    /// The segments, in index order.
    pub segments: Vec<Segment>,
    /// How the run ended.
    pub exit_code: ExitCode,
    /// The public output bytes, if the run committed any.
    pub journal: Option<Vec<u8>>,
    /// The assumptions the run relied on, in the order the terminal
    /// claim lists them.
    pub assumptions: Vec<SessionAssumption>,
}

/// The claim the session expects its receipt to prove.
pub open spec fn session_claim_view(s: Session) -> ClaimView {
    ClaimView {
        pre: state_digest(s.segments@[0].pre_state),
        post: state_digest(s.segments@[s.segments@.len() - 1].post_state),
        exit_code: s.exit_code,
        journal_digest: match s.journal {
            Some(j) => Some(sha256_of(j@)),
            None => None,
        },
        assumptions: Seq::empty(),
    }
}

impl Session {
    /// Every segment is well-formed.
    pub open spec fn wf(self) -> bool {
        forall|i: int| 0 <= i < self.segments@.len() ==> (#[trigger] self.segments@[i]).wf()
    }

    /// The raw journal bytes handed back inside the final receipt: the
    /// journal if one exists, empty otherwise.
    pub open spec fn journal_bytes(self) -> Seq<u8> {
        match self.journal {
            Some(j) => j@,
            None => Seq::empty(),
        }
    }

    /// What the execution layer guarantees of a recorded session: indices
    /// from zero, states chained, interior segments split, and the
    /// terminal segment carrying the session's exit, journal commitment
    /// and assumption list.
    pub open spec fn consistent(self) -> bool {
        let segs = self.segments@;
        let last = segs[segs.len() - 1];
        &&& segs.len() >= 1
        &&& forall|i: int| 0 <= i < segs.len() ==> (#[trigger] segs[i]).index as int == i
        &&& forall|i: int| 0 <= i < segs.len() - 1 ==> {
            &&& (#[trigger] segs[i]).post_state.pc == segs[i + 1].pre_state.pc
            &&& segs[i].post_state.root@ == segs[i + 1].pre_state.root@
            &&& segs[i].exit_code == ExitCode::SystemSplit
            &&& segs[i].journal_digest is None
            &&& segs[i].assumptions@.len() == 0
        }
        &&& last.exit_code == self.exit_code
        &&& (match (last.journal_digest, self.journal) {
            (Some(d), Some(j)) => d@ == sha256_of(j@),
            (None, None) => true,
            _ => false,
        })
        &&& last.assumptions@.len() == self.assumptions@.len()
        &&& forall|i: int|
            0 <= i < self.assumptions@.len() ==> (#[trigger] last.assumptions@[i])@
                == assumption_digest(self.assumptions@[i])
    }

    /// Derive the claim this session expects. Fails only on a session
    /// with no segments.
    pub fn get_claim(&self) -> (r: Result<Claim, ProverError>)
        requires
            forall|i: int| 0 <= i < self.segments@.len() ==> (#[trigger] self.segments@[i]).wf(),
        ensures
            self.segments@.len() >= 1 ==> (r matches Ok(c) && c@ == session_claim_view(*self)
                && c.wf()),
            self.segments@.len() == 0 ==> r is Err,
    {
        if self.segments.len() == 0 {
            return Err(ProverError::MalformedComposite);
        }
        let journal_digest = match &self.journal {
            Some(j) => Some(sha256_digest(j)),
            None => None,
        };
        let c = Claim {
            pre: self.segments[0].pre_state.digest(),
            post: self.segments[self.segments.len() - 1].post_state.digest(),
            exit_code: self.exit_code,
            journal_digest,
            assumptions: Vec::new(),
        };
        proof {
            assert(c@ =~= session_claim_view(*self));
        }
        Ok(c)
    }
}

} // verus!
