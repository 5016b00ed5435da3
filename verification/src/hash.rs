//! Digests: the 32-byte hash value and Keccak-256.

use vstd::prelude::*;

verus! {

/// The Keccak-256 digest of a byte string, as a mathematical function. It has
/// no body: the digest is what the hashing primitive computes.
pub uninterp spec fn keccak256_digest(data: Seq<u8>) -> Seq<u8>;

/// Calls `sha3::Keccak256::digest`.
///
/// Trusted: the 32 bytes returned are the Keccak-256 digest of `data`, a
/// function of the bytes of `data` alone.
#[verifier::external_body]
fn keccak256_array(data: &[u8]) -> (digest: [u8; 32])
    ensures
        digest@ == keccak256_digest(data@),
{
    <sha3::Keccak256 as sha3::Digest>::digest(data).into()
}

/// A hash of 32 bytes.
#[derive(Clone, Copy, Debug, PartialEq, Eq)]
pub struct H256 {
    pub bytes: [u8; 32],
}

impl View for H256 {
    type V = Seq<u8>;

    open spec fn view(&self) -> Seq<u8> {
        self.bytes@
    }
}

impl H256 {
    /// The hash whose bytes are all zero.
    pub fn zero() -> (h: H256)
        ensures
            h@.len() == 32,
            forall|i: int| 0 <= i < 32 ==> h@[i] == 0,
    {
        H256 { bytes: [0u8; 32] }
    }

    /// Reads a hash from exactly 32 bytes; any other length gives `None`.
    pub fn from_slice(data: &[u8]) -> (res: Option<H256>)
        ensures
            res is Some <==> data@.len() == 32,
            res matches Some(h) ==> h@ == data@,
    {
        if data.len() != 32 {
            return None;
        }
        let mut bytes = [0u8; 32];
        let mut i: usize = 0;
        while i < 32
            invariant
                i <= 32,
                data@.len() == 32,
                forall|j: int| 0 <= j < i ==> bytes@[j] == data@[j],
            decreases 32 - i,
        {
            bytes[i] = data[i];
            i += 1;
        }
        assert(bytes@ =~= data@);
        Some(H256 { bytes })
    }

    /// The 32 bytes of the hash.
    pub fn to_vec(&self) -> (v: Vec<u8>)
        ensures
            v@ == self@,
            v@.len() == 32,
    {
        let mut v: Vec<u8> = Vec::new();
        let mut i: usize = 0;
        while i < 32
            invariant
                i <= 32,
                v@.len() == i,
                forall|j: int| 0 <= j < i ==> v@[j] == self.bytes@[j],
            decreases 32 - i,
        {
            v.push(self.bytes[i]);
            i += 1;
        }
        assert(v@ =~= self@);
        v
    }

    /// The 32 bytes of the hash, borrowed.
    pub fn as_slice(&self) -> (s: &[u8])
        ensures
            s@ == self@,
            s@.len() == 32,
    {
        self.bytes.as_slice()
    }
}

/// Keccak-256 of `data`.
pub fn keccak256(data: &[u8]) -> (h: H256)
    ensures
        h@ == keccak256_digest(data@),
        h@.len() == 32,
{
    H256 { bytes: keccak256_array(data) }
}

} // verus!
