//! Keys and recoverable signatures on the curve secp256k1. Curve arithmetic
//! is not done here: it is consumed as a capability.

use vstd::prelude::*;
use vstd::slice::slice_subrange;
use crate::bytes::be_value;
use crate::hash::H256;
use crate::number::{lemma_u256_view_injective, U256};

verus! {

/// The number of points on the curve: every scalar is below it.
pub open spec fn curve_order() -> nat {
    0xFFFF_FFFF_FFFF_FFFF_FFFF_FFFF_FFFF_FFFE_BAAE_DCE6_AF48_A03B_BFD2_5E8C_D036_4141nat
}

/// Whether `n` can be a private key or a component of a signature.
pub open spec fn is_scalar(n: nat) -> bool {
    0 < n < curve_order()
}

/// The uncompressed point, 65 bytes, that a SEC1 encoding of a public key
/// stands for; `None` where the bytes encode no point of the curve. It has no
/// body: the point is what the curve arithmetic computes.
pub uninterp spec fn secp256k1_public_key(bytes: Seq<u8>) -> Option<Seq<u8>>;

/// The deterministic recoverable signature, `r`, `s` and the recovery id in
/// 65 bytes, of a 32-byte digest under a private key; `None` where no
/// signature can be made. It has no body: the signature is what the curve
/// arithmetic computes.
pub uninterp spec fn secp256k1_sign(private_key: Seq<u8>, digest: Seq<u8>) -> Option<Seq<u8>>;

/// Calls `k256::ecdsa::VerifyingKey::from_sec1_bytes`, and `to_encoded_point`
/// without compression on a key that was accepted.
///
/// Trusted: whether the bytes are accepted, and the 65 bytes of the point,
/// depend on `bytes` alone.
#[verifier::external_body]
fn sec1_uncompressed(bytes: &[u8]) -> (point: Option<Vec<u8>>)
    ensures
        point is Some <==> secp256k1_public_key(bytes@) is Some,
        point matches Some(p) ==> secp256k1_public_key(bytes@) == Some(p@) && p@.len() == 65,
{
    match k256::ecdsa::VerifyingKey::from_sec1_bytes(bytes) {
        Ok(key) => Some(key.to_encoded_point(false).as_bytes().to_vec()),
        Err(_) => None,
    }
}

/// Calls `k256::ecdsa::SigningKey::from_slice` and, on the key that it
/// gives, `sign_prehash_recoverable`.
///
/// Trusted: the nonce is derived from the key and the digest (RFC 6979), so
/// the signature depends on the two alone; what comes back is `r` and `s` in
/// 32 big-endian bytes each, then the recovery id in one byte.
#[verifier::external_body]
fn sign_prehash(private_key: &[u8], digest: &[u8]) -> (signature: Option<Vec<u8>>)
    ensures
        signature is Some <==> secp256k1_sign(private_key@, digest@) is Some,
        signature matches Some(s) ==> secp256k1_sign(private_key@, digest@) == Some(s@)
            && s@.len() == 65,
{
    let key = k256::ecdsa::SigningKey::from_slice(private_key).ok()?;
    let (signature, recovery_id) = key.sign_prehash_recoverable(digest).ok()?;
    let mut bytes = signature.to_bytes().to_vec();
    bytes.push(recovery_id.to_byte());
    Some(bytes)
}

/// What can go wrong with a key or a signature.
#[derive(Clone, Copy, Debug, PartialEq, Eq, Structural)]
pub enum KeyPairError {
    InvalidSecretKey,
    InvalidPublicKey,
    InvalidSignature,
    SigningError,
}

/// The order of the curve as a number.
pub fn order() -> (n: U256)
    ensures
        n@ == curve_order(),
{
    U256 {
        hi: 0xFFFF_FFFF_FFFF_FFFF_FFFF_FFFF_FFFF_FFFE,
        lo: 0xBAAE_DCE6_AF48_A03B_BFD2_5E8C_D036_4141,
    }
}

/// Whether a number is above zero and below the order of the curve.
pub fn in_scalar_range(n: &U256) -> (ok: bool)
    ensures
        ok == is_scalar(n@),
{
    let limit = order();
    !n.is_zero() && n.lt(&limit)
}

/// A recoverable signature: the two scalars and the recovery id.
#[derive(Clone, Copy, Debug, PartialEq, Eq, Structural)]
pub struct Signature {
    pub r: U256,
    pub s: U256,
    pub v: u8,
}

impl Signature {
    /// Whether 65 bytes hold a signature: both scalars in range, and a
    /// recovery id of at most 3.
    pub open spec fn spec_valid_bytes(bytes: Seq<u8>) -> bool {
        &&& bytes.len() == 65
        &&& is_scalar(be_value(bytes.subrange(0, 32)))
        &&& is_scalar(be_value(bytes.subrange(32, 64)))
        &&& bytes[64] <= 3
    }

    /// What a signature is made of is in range.
    pub open spec fn well_formed(&self) -> bool {
        &&& is_scalar(self.r@)
        &&& is_scalar(self.s@)
        &&& self.v <= 3
    }

    /// The signature that 65 valid bytes hold.
    pub open spec fn spec_from_bytes(bytes: Seq<u8>) -> Signature {
        Signature {
            r: U256::spec_from_nat(be_value(bytes.subrange(0, 32))),
            s: U256::spec_from_nat(be_value(bytes.subrange(32, 64))),
            v: bytes[64],
        }
    }

    /// Reads `r`, `s` and the recovery id from 65 bytes. Anything else, a
    /// scalar out of range or a recovery id above 3 is rejected.
    pub fn from_bytes(data: &[u8]) -> (res: Result<Signature, KeyPairError>)
        ensures
            res is Ok <==> Self::spec_valid_bytes(data@),
            res matches Ok(sig) ==> sig == Self::spec_from_bytes(data@) && sig.well_formed(),
            res matches Err(e) ==> e == KeyPairError::InvalidSignature,
    {
        if data.len() != 65 {
            return Err(KeyPairError::InvalidSignature);
        }
        let r = match U256::from_big_endian_slice(slice_subrange(data, 0, 32)) {
            Ok(r) => r,
            Err(_) => {
                return Err(KeyPairError::InvalidSignature);
            },
        };
        let s = match U256::from_big_endian_slice(slice_subrange(data, 32, 64)) {
            Ok(s) => s,
            Err(_) => {
                return Err(KeyPairError::InvalidSignature);
            },
        };
        let v = data[64];
        if !in_scalar_range(&r) || !in_scalar_range(&s) || v > 3 {
            return Err(KeyPairError::InvalidSignature);
        }
        proof {
            lemma_u256_view_injective(r, U256::spec_from_nat(be_value(data@.subrange(0, 32))));
            lemma_u256_view_injective(s, U256::spec_from_nat(be_value(data@.subrange(32, 64))));
        }
        Ok(Signature { r, s, v })
    }

    /// The signature in 65 bytes: `r`, `s`, then the recovery id.
    pub fn to_bytes(&self) -> (bytes: Vec<u8>)
        ensures
            bytes@ == self.r.to_big_endian_spec() + self.s.to_big_endian_spec() + seq![self.v],
            bytes@.len() == 65,
    {
        let mut out = self.r.to_big_endian().to_vec();
        let mut s = self.s.to_big_endian().to_vec();
        out.append(&mut s);
        out.push(self.v);
        out
    }
}

/// A public key: a point of the curve other than the point at infinity.
#[derive(Clone, Copy, Debug, PartialEq, Eq)]
pub struct PublicKey {
    pub x: H256,
    pub y: H256,
}

impl View for PublicKey {
    type V = Seq<u8>;

    /// The two coordinates, 64 bytes.
    open spec fn view(&self) -> Seq<u8> {
        self.x@ + self.y@
    }
}

impl PublicKey {
    /// Reads a public key in SEC1 encoding. Bytes that do not encode a point
    /// of the curve are rejected.
    pub fn from_slice(data: &[u8]) -> (res: Result<PublicKey, KeyPairError>)
        ensures
            res is Ok <==> secp256k1_public_key(data@) is Some,
            res matches Ok(key) ==> key@ == secp256k1_public_key(data@)->0.subrange(1, 65),
            res matches Err(e) ==> e == KeyPairError::InvalidPublicKey,
    {
        let point = match sec1_uncompressed(data) {
            Some(point) => point,
            None => {
                return Err(KeyPairError::InvalidPublicKey);
            },
        };
        let x = H256::from_slice(slice_subrange(point.as_slice(), 1, 33));
        let y = H256::from_slice(slice_subrange(point.as_slice(), 33, 65));
        match (x, y) {
            (Some(x), Some(y)) => {
                assert(x@ + y@ =~= point@.subrange(1, 65));
                Ok(PublicKey { x, y })
            },
            // Not taken: the point has 65 bytes.
            _ => Err(KeyPairError::InvalidPublicKey),
        }
    }

    /// The two coordinates of the point, 64 bytes, without the SEC1 tag.
    pub fn uncompressed_without_prefix(&self) -> (bytes: Vec<u8>)
        ensures
            bytes@ == self@,
            bytes@.len() == 64,
    {
        let mut out = self.x.to_vec();
        let mut y = self.y.to_vec();
        out.append(&mut y);
        out
    }
}

/// A private key: a scalar above zero and below the order of the curve.
#[derive(Clone, Copy, Debug, PartialEq, Eq)]
pub struct PrivateKey {
    pub secret: H256,
}

impl View for PrivateKey {
    type V = Seq<u8>;

    open spec fn view(&self) -> Seq<u8> {
        self.secret@
    }
}

impl PrivateKey {
    /// Whether bytes hold a private key: 32 of them, a scalar in range.
    pub open spec fn spec_valid_bytes(bytes: Seq<u8>) -> bool {
        bytes.len() == 32 && is_scalar(be_value(bytes))
    }

    /// Reads a private key from 32 big-endian bytes; zero and numbers from
    /// the order of the curve on are rejected.
    pub fn from_slice(data: &[u8]) -> (res: Result<PrivateKey, KeyPairError>)
        ensures
            res is Ok <==> Self::spec_valid_bytes(data@),
            res matches Ok(key) ==> key@ == data@,
            res matches Err(e) ==> e == KeyPairError::InvalidSecretKey,
    {
        let secret = match H256::from_slice(data) {
            Some(secret) => secret,
            None => {
                return Err(KeyPairError::InvalidSecretKey);
            },
        };
        match U256::from_big_endian_slice(data) {
            Ok(n) => {
                if in_scalar_range(&n) {
                    Ok(PrivateKey { secret })
                } else {
                    Err(KeyPairError::InvalidSecretKey)
                }
            },
            Err(_) => Err(KeyPairError::InvalidSecretKey),
        }
    }

    /// What `sign` gives for each outcome of the signing primitive: the
    /// signature that the bytes hold, or a signing error where there are
    /// none or they hold no signature.
    pub open spec fn spec_sign_outcome(made: Option<Seq<u8>>) -> Result<Signature, KeyPairError> {
        match made {
            Some(bytes) => if Signature::spec_valid_bytes(bytes) {
                Ok(Signature::spec_from_bytes(bytes))
            } else {
                Err(KeyPairError::SigningError)
            },
            None => Err(KeyPairError::SigningError),
        }
    }

    /// Signs a digest. The signature is deterministic: the same key and
    /// digest always give the same one.
    pub fn sign(&self, digest: &H256) -> (res: Result<Signature, KeyPairError>)
        ensures
            res == Self::spec_sign_outcome(secp256k1_sign(self@, digest@)),
    {
        match sign_prehash(self.secret.as_slice(), digest.as_slice()) {
            Some(bytes) => signature_of_signed(bytes.as_slice()),
            None => Err(KeyPairError::SigningError),
        }
    }
}

/// Reads the signature that the signing primitive made. Bytes that hold no
/// well-formed signature are a signing error.
pub fn signature_of_signed(bytes: &[u8]) -> (res: Result<Signature, KeyPairError>)
    ensures
        res == PrivateKey::spec_sign_outcome(Some(bytes@)),
{
    match Signature::from_bytes(bytes) {
        Ok(signature) => Ok(signature),
        Err(_) => Err(KeyPairError::SigningError),
    }
}

} // verus!
