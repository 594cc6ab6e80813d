//! The digest value used throughout claims and receipts: 32 bytes, as
//! produced by the SHA-256 backend of the proof system.

use vstd::prelude::*;

verus! {

/// The SHA-256 digest of a byte sequence. The result depends on the bytes
/// alone; its definition is the standard algorithm of the hash backend.
pub uninterp spec fn sha256_of(data: Seq<u8>) -> Seq<u8>;

/// Lowercase hexadecimal character for a value below 16.
pub open spec fn hex_char(n: u8) -> char
    recommends
        n < 16,
{
    if n == 0 { '0' } else if n == 1 { '1' } else if n == 2 { '2' } else if n == 3 { '3' }
    else if n == 4 { '4' } else if n == 5 { '5' } else if n == 6 { '6' } else if n == 7 { '7' }
    else if n == 8 { '8' } else if n == 9 { '9' } else if n == 10 { 'a' } else if n == 11 { 'b' }
    else if n == 12 { 'c' } else if n == 13 { 'd' } else if n == 14 { 'e' } else { 'f' }
}

/// Lowercase hexadecimal rendering of a byte sequence: two characters per
/// byte, high nibble first.
pub open spec fn hex_of(data: Seq<u8>) -> Seq<char> {
    Seq::new(
        data.len() * 2,
        |i: int| if i % 2 == 0 { hex_char(data[i / 2] >> 4u8) } else { hex_char(data[i / 2] & 0xfu8) },
    )
}

/// Relies on risc0_zkp's CPU SHA-256 backend (`core::hash::sha::cpu::Impl::hash_bytes`):
/// it returns the 32-byte SHA-256 digest of the input, a function of the
/// input bytes alone.
#[verifier::external_body]
fn sha256_bytes(data: &Vec<u8>) -> (r: Vec<u8>)
    ensures
        r@ == sha256_of(data@),
        r@.len() == DIGEST_BYTES,
{
    <risc0_zkp::core::hash::sha::cpu::Impl as risc0_zkp::core::hash::sha::Sha256>::hash_bytes(
        data.as_slice(),
    ).as_bytes().to_vec()
}

/// Relies on hex::encode: lowercase hexadecimal, two characters per byte,
/// high nibble first.
#[verifier::external_body]
pub fn encode_hex(data: &Vec<u8>) -> (r: String)
    ensures
        r@ == hex_of(data@),
{
    hex::encode(data)
}

/// Number of bytes in a digest.
pub const DIGEST_BYTES: usize = 32;

/// A 32-byte digest, held as plain bytes.
#[derive(Debug)]
pub struct Digest {
    pub bytes: Vec<u8>,
}

impl Digest {
    /// A digest is exactly `DIGEST_BYTES` bytes long.
    pub open spec fn wf(self) -> bool {
        self.bytes@.len() == DIGEST_BYTES
    }

    /// The byte sequence of this digest.
    pub open spec fn view(self) -> Seq<u8> {
        self.bytes@
    }

    /// Build a digest from exactly 32 bytes.
    pub fn from_bytes(bytes: Vec<u8>) -> (r: Digest)
        requires
            bytes@.len() == DIGEST_BYTES,
        ensures
            r.wf(),
            r@ == bytes@,
    {
        Digest { bytes }
    }

    /// Byte-for-byte copy of this digest.
    pub fn duplicate(&self) -> (r: Digest)
        ensures
            r@ == self@,
            r.wf() == self.wf(),
    {
        let mut bytes: Vec<u8> = Vec::new();
        let mut i: usize = 0;
        while i < self.bytes.len()
            invariant
                i <= self.bytes@.len(),
                bytes@ =~= self.bytes@.subrange(0, i as int),
            decreases self.bytes@.len() - i,
        {
            bytes.push(self.bytes[i]);
            i = i + 1;
        }
        proof {
            assert(bytes@ =~= self.bytes@);
        }
        Digest { bytes }
    }

    /// Structural equality of two digests.
    pub fn equals(&self, other: &Digest) -> (r: bool)
        ensures
            r == (self@ == other@),
    {
        if self.bytes.len() != other.bytes.len() {
            proof {
                assert(self@ != other@);
            }
            return false;
        }
        let mut i: usize = 0;
        while i < self.bytes.len()
            invariant
                i <= self.bytes@.len(),
                self.bytes@.len() == other.bytes@.len(),
                forall|j: int| 0 <= j < i ==> self.bytes@[j] == other.bytes@[j],
            decreases self.bytes@.len() - i,
        {
            if self.bytes[i] != other.bytes[i] {
                return false;
            }
            i = i + 1;
        }
        proof {
            assert(self@ =~= other@);
        }
        true
    }

    /// Hexadecimal rendering of this digest, as carried in diagnostics.
    pub fn to_hex(&self) -> (r: String)
        ensures
            r@ == hex_of(self@),
    {
        encode_hex(&self.bytes)
    }
}

/// Byte-for-byte copy of a byte vector.
pub fn copy_bytes(v: &Vec<u8>) -> (r: Vec<u8>)
    ensures
        r@ == v@,
{
    let mut out: Vec<u8> = Vec::new();
    let mut i: usize = 0;
    while i < v.len()
        invariant
            i <= v@.len(),
            out@ =~= v@.subrange(0, i as int),
        decreases v@.len() - i,
    {
        out.push(v[i]);
        i = i + 1;
    }
    proof {
        assert(out@ =~= v@);
    }
    out
}

/// The 32-byte SHA-256 digest of the given bytes.
pub fn sha256_digest(data: &Vec<u8>) -> (r: Digest)
    ensures
        r.wf(),
        r@ == sha256_of(data@),
{
    let bytes = sha256_bytes(data);
    Digest::from_bytes(bytes)
}

} // verus!
