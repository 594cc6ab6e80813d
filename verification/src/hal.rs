//! The hardware backend interface: hash-suite identity, commitments over
//! register-group buffers, memory reporting, and the commit/challenge
//! transcript whose phases force the three register groups to be
//! committed in order.

use vstd::prelude::*;
use crate::digest::{Digest, sha256_digest};
use crate::receipt::{seal_for, poseidon_suite, sha256_suite};
use crate::session::FieldVal;

verus! {

/// The three register groups committed during segment proving.
#[derive(Clone, Copy, PartialEq, Eq, Structural)]
pub enum RegisterGroup {
    /// Control and code trace.
    Code,
    /// Data trace.
    Data,
    /// Accumulator trace, committed only after the challenges derived
    /// from the two earlier commitments.
    Accum,
}

/// Where a transcript stands in the commit/challenge protocol.
#[derive(Clone, Copy, PartialEq, Eq, Structural)]
pub enum TranscriptPhase {
    /// Opened, nothing committed.
    Started,
    /// The control/code trace is committed.
    CodeCommitted,
    /// The data trace is committed.
    DataCommitted,
    /// Challenges were drawn from the two prior commitments.
    Accumulated,
    /// The accumulator trace is committed.
    AccumCommitted,
    /// The proof is finalized; the transcript is spent.
    Finalized,
}

/// An interactive commit/challenge transcript. Its phase contracts make
/// reordering the three group commitments, or finalizing early, a
/// verification-time error.
pub struct Transcript {
    /// Protocol position.
    pub phase: TranscriptPhase,
    /// Log2 cycle count of the segment being proven.
    pub po2: u32,
    /// The group commitments received so far.
    pub commitments: Vec<Digest>,
}

impl Transcript {
    /// Open a transcript for a segment of the given size.
    pub fn start(po2: u32) -> (t: Transcript)
        ensures
            t.phase == TranscriptPhase::Started,
            t.po2 == po2,
            t.commitments@.len() == 0,
    {
        Transcript { phase: TranscriptPhase::Started, po2, commitments: Vec::new() }
    }

    /// Commit one register group. The groups go in protocol order: code,
    /// then data, then — only after the challenge draw — the accumulator.
    pub fn commit_group(&mut self, group: RegisterGroup, commitment: Digest)
        requires
            match group {
                RegisterGroup::Code => old(self).phase == TranscriptPhase::Started,
                RegisterGroup::Data => old(self).phase == TranscriptPhase::CodeCommitted,
                RegisterGroup::Accum => old(self).phase == TranscriptPhase::Accumulated,
            },
        ensures
            final(self).phase == match group {
                RegisterGroup::Code => TranscriptPhase::CodeCommitted,
                RegisterGroup::Data => TranscriptPhase::DataCommitted,
                RegisterGroup::Accum => TranscriptPhase::AccumCommitted,
            },
            final(self).po2 == old(self).po2,
            final(self).commitments@.len() == old(self).commitments@.len() + 1,
    {
        self.commitments.push(commitment);
        self.phase = match group {
            RegisterGroup::Code => TranscriptPhase::CodeCommitted,
            RegisterGroup::Data => TranscriptPhase::DataCommitted,
            RegisterGroup::Accum => TranscriptPhase::AccumCommitted,
        };
    }

    /// Draw the challenges gating the accumulator trace. Transcript
    /// randomness depends on the two commitments already made, so this
    /// comes strictly between the data and accumulator commits.
    pub fn accumulate(&mut self)
        requires
            old(self).phase == TranscriptPhase::DataCommitted,
        ensures
            final(self).phase == TranscriptPhase::Accumulated,
            final(self).po2 == old(self).po2,
            final(self).commitments@.len() == old(self).commitments@.len(),
    {
        self.phase = TranscriptPhase::Accumulated;
    }

    /// Finalize the proof against the mix and public-output buffers as
    /// named openings, yielding the seal over the given claim digest.
    pub fn finalize(
        &mut self,
        suite: &String,
        claim_digest: &Digest,
        mix: &Vec<u32>,
        out: &Vec<FieldVal>,
    ) -> (seal: Vec<u32>)
        requires
            old(self).phase == TranscriptPhase::AccumCommitted,
            claim_digest.wf(),
        ensures
            final(self).phase == TranscriptPhase::Finalized,
            seal@ == seal_for(suite@, claim_digest@),
    {
        let _ = mix;
        let _ = out;
        self.phase = TranscriptPhase::Finalized;
        crate::receipt::encode_seal(suite, claim_digest)
    }
}

/// A hardware backend handle: hash-suite identity, buffer commitments,
/// and memory reporting. Selected once at construction; the proving
/// algorithm calls through it uniformly.
pub trait Hal: Sized {
    /// The name of the backend's hash suite.
    spec fn suite_name(&self) -> Seq<char>;

    /// The memory high-water mark the backend reports.
    spec fn peak_memory(&self) -> usize;

    /// Report the backend's hash-suite name.
    fn hash_suite_name(&self) -> (r: String)
        ensures
            r@ == self.suite_name(),
    ;

    /// The backend's memory high-water mark, in bytes.
    fn memory_usage(&self) -> (r: usize)
        ensures
            r == self.peak_memory(),
    ;

    /// Commit to one register-group buffer.
    fn commit_buffer(&self, words: &Vec<u32>) -> (c: Digest)
        ensures
            c.wf(),
    ;
}

/// The circuit side of a backend: regenerates the accumulator trace from
/// the witness.
pub trait CircuitHal: Sized {
    /// Produce the accumulator trace for a witness.
    fn accumulate_witness(&self, witness: &Vec<u32>) -> (acc: Vec<u32>)
        ensures
            acc@.len() == witness@.len(),
    ;
}

/// A pair of [`Hal`] and [`CircuitHal`], selected together at
/// construction time and shared across all segment proofs of a session.
pub struct HalPair<H: Hal, C: CircuitHal> {
    /// The hardware backend handle.
    pub hal: H,
    /// The circuit backend handle.
    pub circuit_hal: C,
}

/// The CPU backend: commitments are hashes of the buffer contents.
pub struct CpuHal {
    /// The suite this backend commits under.
    pub suite: String,
}

impl CpuHal {
    /// A CPU backend committing under the SHA-256 suite.
    pub fn sha256() -> (r: CpuHal)
        ensures
            r.suite_name() == sha256_suite(),
    {
        CpuHal { suite: "sha-256".to_owned() }
    }

    /// A CPU backend committing under the Poseidon suite.
    pub fn poseidon() -> (r: CpuHal)
        ensures
            r.suite_name() == poseidon_suite(),
    {
        CpuHal { suite: "poseidon".to_owned() }
    }
}

impl Hal for CpuHal {
    open spec fn suite_name(&self) -> Seq<char> {
        self.suite@
    }

    open spec fn peak_memory(&self) -> usize {
        0
    }

    fn hash_suite_name(&self) -> (r: String)
        ensures
            r@ == self.suite_name(),
    {
        self.suite.clone()
    }

    fn memory_usage(&self) -> (r: usize)
        ensures
            r == self.peak_memory(),
    {
        0
    }

    fn commit_buffer(&self, words: &Vec<u32>) -> (c: Digest)
        ensures
            c.wf(),
    {
        let mut bytes: Vec<u8> = Vec::new();
        let mut i: usize = 0;
        while i < words.len()
            invariant
                i <= words@.len(),
                bytes@.len() == 4 * i,
            decreases words@.len() - i,
        {
            let w = words[i];
            bytes.push((w & 0xff) as u8);
            bytes.push(((w >> 8u32) & 0xff) as u8);
            bytes.push(((w >> 16u32) & 0xff) as u8);
            bytes.push(((w >> 24u32) & 0xff) as u8);
            i = i + 1;
        }
        sha256_digest(&bytes)
    }
}

/// The CPU circuit backend: regenerates the accumulator trace in place.
pub struct CpuCircuitHal {}

impl CpuCircuitHal {
    /// Construct the CPU circuit backend.
    pub fn new() -> (r: CpuCircuitHal) {
        CpuCircuitHal {}
    }
}

impl CircuitHal for CpuCircuitHal {
    fn accumulate_witness(&self, witness: &Vec<u32>) -> (acc: Vec<u32>)
        ensures
            acc@.len() == witness@.len(),
    {
        crate::receipt::copy_words(witness)
    }
}

} // verus!
