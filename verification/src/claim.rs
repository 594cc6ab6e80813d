//! The logical statement a receipt proves: pre-state and post-state digests,
//! exit outcome, public-output commitment, and the assumptions the statement
//! still depends on.

use vstd::prelude::*;
use crate::digest::{Digest, sha256_of, sha256_digest, DIGEST_BYTES};

verus! {

/// How an execution segment or session ended.
#[derive(Clone, Copy, PartialEq, Eq, Structural)]
pub enum ExitCode {
    /// The guest halted with the given user exit code.
    Halted(u32),
    /// The guest paused with the given user exit code.
    Paused(u32),
    /// The segment ended because the cycle budget was exhausted; the
    /// execution continues in the next segment.
    SystemSplit,
}

/// Spec-level value of a [`Claim`].
#[verifier::ext_equal]
pub struct ClaimView {
    pub pre: Seq<u8>,
    pub post: Seq<u8>,
    pub exit_code: ExitCode,
    pub journal_digest: Option<Seq<u8>>,
    pub assumptions: Seq<Seq<u8>>,
}

/// The statement proven by a receipt.
pub struct Claim {
    /// Digest of the machine state before execution.
    pub pre: Digest,
    /// Digest of the machine state after execution.
    pub post: Digest,
    /// How the proven execution ended.
    pub exit_code: ExitCode,
    /// Digest of the public output, present only on terminal claims.
    pub journal_digest: Option<Digest>,
    /// Digests of the claims this claim still assumes, next to be
    /// discharged first.
    pub assumptions: Vec<Digest>,
}

impl View for Claim {
    type V = ClaimView;

    open spec fn view(&self) -> ClaimView {
        ClaimView {
            pre: self.pre@,
            post: self.post@,
            exit_code: self.exit_code,
            journal_digest: match self.journal_digest {
                Some(d) => Some(d@),
                None => None,
            },
            assumptions: self.assumptions@.map_values(|d: Digest| d@),
        }
    }
}

impl ClaimView {
    /// Every digest of the claim is full-length, and the assumption list
    /// fits the wire encoding.
    pub open spec fn wf(self) -> bool {
        &&& self.pre.len() == DIGEST_BYTES
        &&& self.post.len() == DIGEST_BYTES
        &&& match self.journal_digest {
            Some(d) => d.len() == DIGEST_BYTES,
            None => true,
        }
        &&& forall|i: int| 0 <= i < self.assumptions.len() ==> (#[trigger] self.assumptions[i]).len() == DIGEST_BYTES
        &&& self.assumptions.len() <= 0xffff_ffff
    }
}

/// Four little-endian bytes of a 32-bit word.
pub open spec fn le_bytes(w: u32) -> Seq<u8> {
    seq![
        (w & 0xff) as u8,
        ((w >> 8u32) & 0xff) as u8,
        ((w >> 16u32) & 0xff) as u8,
        ((w >> 24u32) & 0xff) as u8,
    ]
}

/// Byte encoding of an exit outcome: a kind byte, then the user value.
pub open spec fn exit_encoding(e: ExitCode) -> Seq<u8> {
    match e {
        ExitCode::Halted(v) => seq![0u8] + le_bytes(v),
        ExitCode::Paused(v) => seq![1u8] + le_bytes(v),
        ExitCode::SystemSplit => seq![2u8] + le_bytes(0u32),
    }
}

/// Concatenation of a list of assumption digests, first to last.
pub open spec fn cat_digests(s: Seq<Seq<u8>>) -> Seq<u8>
    decreases s.len(),
{
    if s.len() == 0 {
        Seq::empty()
    } else {
        cat_digests(s.drop_last()) + s.last()
    }
}

/// The byte encoding of a claim, hashed to obtain the claim digest.
pub open spec fn claim_encoding(c: ClaimView) -> Seq<u8> {
    c.pre + c.post + exit_encoding(c.exit_code) + (match c.journal_digest {
        Some(d) => seq![1u8] + d,
        None => seq![0u8],
    }) + le_bytes(c.assumptions.len() as u32) + cat_digests(c.assumptions)
}

/// The digest identifying a claim: the hash of its byte encoding.
pub open spec fn claim_digest_of(c: ClaimView) -> Seq<u8> {
    sha256_of(claim_encoding(c))
}

/// Append the four little-endian bytes of `w`.
fn push_le_word(out: &mut Vec<u8>, w: u32)
    ensures
        final(out)@ == old(out)@ + le_bytes(w),
{
    out.push((w & 0xff) as u8);
    out.push(((w >> 8u32) & 0xff) as u8);
    out.push(((w >> 16u32) & 0xff) as u8);
    out.push(((w >> 24u32) & 0xff) as u8);
    proof {
        assert(out@ =~= old(out)@ + le_bytes(w));
    }
}

/// Append all bytes of a digest.
fn push_digest(out: &mut Vec<u8>, d: &Digest)
    ensures
        final(out)@ == old(out)@ + d@,
{
    let mut i: usize = 0;
    while i < d.bytes.len()
        invariant
            i <= d.bytes@.len(),
            out@ =~= old(out)@ + d.bytes@.subrange(0, i as int),
        decreases d.bytes@.len() - i,
    {
        out.push(d.bytes[i]);
        proof {
            assert(out@ =~= old(out)@ + d.bytes@.subrange(0, i + 1));
        }
        i = i + 1;
    }
    proof {
        assert(d.bytes@.subrange(0, d.bytes@.len() as int) =~= d@);
    }
}

impl Claim {
    /// Executable form of [`ClaimView::wf`].
    pub open spec fn wf(self) -> bool {
        self@.wf()
    }

    /// Check executably that every digest of the claim is full-length.
    pub fn check_wf(&self) -> (b: bool)
        ensures
            b == self.wf(),
    {
        if self.pre.bytes.len() != DIGEST_BYTES {
            return false;
        }
        if self.post.bytes.len() != DIGEST_BYTES {
            return false;
        }
        match &self.journal_digest {
            Some(d) => {
                if d.bytes.len() != DIGEST_BYTES {
                    return false;
                }
            }
            None => {}
        }
        if self.assumptions.len() > 0xffff_ffff {
            return false;
        }
        let mut i: usize = 0;
        while i < self.assumptions.len()
            invariant
                i <= self.assumptions@.len(),
                forall|j: int| 0 <= j < i ==> (#[trigger] self.assumptions@[j])@.len() == DIGEST_BYTES,
            decreases self.assumptions@.len() - i,
        {
            if self.assumptions[i].bytes.len() != DIGEST_BYTES {
                proof {
                    assert(self@.assumptions[i as int] == self.assumptions@[i as int]@);
                }
                return false;
            }
            i = i + 1;
        }
        proof {
            assert forall|j: int| 0 <= j < self@.assumptions.len()
                implies (#[trigger] self@.assumptions[j]).len() == DIGEST_BYTES by {
                assert(self@.assumptions[j] == self.assumptions@[j]@);
            }
        }
        true
    }

    /// A value-identical copy of this claim.
    pub fn duplicate(&self) -> (r: Claim)
        ensures
            r@ == self@,
    {
        let journal_digest = match &self.journal_digest {
            Some(d) => Some(d.duplicate()),
            None => None,
        };
        let mut assumptions: Vec<Digest> = Vec::new();
        let mut i: usize = 0;
        while i < self.assumptions.len()
            invariant
                i <= self.assumptions@.len(),
                assumptions@.len() == i,
                forall|j: int| 0 <= j < i ==> (#[trigger] assumptions@[j])@ == self.assumptions@[j]@,
            decreases self.assumptions@.len() - i,
        {
            assumptions.push(self.assumptions[i].duplicate());
            i = i + 1;
        }
        let r = Claim {
            pre: self.pre.duplicate(),
            post: self.post.duplicate(),
            exit_code: self.exit_code,
            journal_digest,
            assumptions,
        };
        proof {
            assert(r@.assumptions =~= self@.assumptions);
            assert(r@ =~= self@);
        }
        r
    }

    /// The byte encoding of this claim.
    pub fn encode(&self) -> (r: Vec<u8>)
        requires
            self.wf(),
        ensures
            r@ == claim_encoding(self@),
    {
        let mut out: Vec<u8> = Vec::new();
        push_digest(&mut out, &self.pre);
        push_digest(&mut out, &self.post);
        match self.exit_code {
            ExitCode::Halted(v) => {
                out.push(0u8);
                push_le_word(&mut out, v);
            }
            ExitCode::Paused(v) => {
                out.push(1u8);
                push_le_word(&mut out, v);
            }
            ExitCode::SystemSplit => {
                out.push(2u8);
                push_le_word(&mut out, 0u32);
            }
        }
        match &self.journal_digest {
            Some(d) => {
                out.push(1u8);
                push_digest(&mut out, d);
            }
            None => {
                out.push(0u8);
            }
        }
        let ghost mid = self@.pre + self@.post + exit_encoding(self@.exit_code) + (match self@.journal_digest {
            Some(d) => seq![1u8] + d,
            None => seq![0u8],
        });
        proof {
            assert(out@ =~= mid);
        }
        push_le_word(&mut out, self.assumptions.len() as u32);
        let ghost base = out@;
        let mut i: usize = 0;
        while i < self.assumptions.len()
            invariant
                i <= self.assumptions@.len(),
                out@ =~= base + cat_digests(self@.assumptions.subrange(0, i as int)),
            decreases self.assumptions@.len() - i,
        {
            proof {
                assert(self@.assumptions.subrange(0, i + 1).drop_last()
                    =~= self@.assumptions.subrange(0, i as int));
                assert(self@.assumptions.subrange(0, i + 1).last() == self.assumptions@[i as int]@);
            }
            push_digest(&mut out, &self.assumptions[i]);
            i = i + 1;
        }
        proof {
            assert(self@.assumptions.subrange(0, self@.assumptions.len() as int)
                =~= self@.assumptions);
            assert(out@ =~= claim_encoding(self@));
        }
        out
    }

    /// The digest identifying this claim.
    pub fn digest(&self) -> (r: Digest)
        requires
            self.wf(),
        ensures
            r.wf(),
            r@ == claim_digest_of(self@),
    {
        let encoded = self.encode();
        sha256_digest(&encoded)
    }
}

} // verus!
