//! The signature that a signed transaction carries, and replay protection.

use vstd::prelude::*;
use crate::number::{lemma_u256_view_injective, u256_max, U256};
use crate::secp256k1::Signature;

verus! {

/// What every signature of this chain family shows, whatever its concrete
/// type: its three components.
pub trait EthSignature {
    spec fn spec_v(&self) -> U256;

    spec fn spec_r(&self) -> U256;

    spec fn spec_s(&self) -> U256;

    fn v(&self) -> (v: U256)
        ensures
            v == self.spec_v(),
    ;

    fn r(&self) -> (r: U256)
        ensures
            r == self.spec_r(),
    ;

    fn s(&self) -> (s: U256)
        ensures
            s == self.spec_s(),
    ;
}

/// The `v` that goes into a signed transaction: the recovery id made
/// specific to a chain, so that a signature for one chain is no signature on
/// another. Chain id zero stands for no chain.
pub open spec fn spec_replay_protection(chain_id: nat, v: u8) -> nat {
    if chain_id == 0 {
        27 + v as nat
    } else {
        chain_id + chain_id + 35 + v as nat
    }
}

/// Whether the protected `v` of a chain id has room in 256 bits.
pub open spec fn replay_protection_fits(chain_id: U256, v: u8) -> bool {
    spec_replay_protection(chain_id@, v) <= u256_max()
}

/// The protected `v`, or `None` where it has more than 256 bits.
pub fn checked_replay_protection(chain_id: U256, v: u8) -> (res: Option<U256>)
    ensures
        res is Some <==> replay_protection_fits(chain_id, v),
        res matches Some(n) ==> n@ == spec_replay_protection(chain_id@, v),
{
    if chain_id.is_zero() {
        let legacy: u64 = 27 + v as u64;
        Some(U256::from_u64(legacy))
    } else {
        let offset: u64 = 35 + v as u64;
        match chain_id.checked_add(chain_id) {
            Some(twice) => twice.checked_add(U256::from_u64(offset)),
            None => None,
        }
    }
}

/// Whether the protected `v` of a chain id has room in 256 bits.
pub fn fits_replay_protection(chain_id: U256, v: u8) -> (ok: bool)
    ensures
        ok == replay_protection_fits(chain_id, v),
{
    checked_replay_protection(chain_id, v).is_some()
}

/// The protected `v` of a chain id that leaves room for it.
pub fn replay_protection(chain_id: U256, v: u8) -> (res: U256)
    requires
        replay_protection_fits(chain_id, v),
    ensures
        res@ == spec_replay_protection(chain_id@, v),
{
    match checked_replay_protection(chain_id, v) {
        Some(n) => n,
        // Not taken: the caller has shown that there is room.
        None => U256::zero(),
    }
}

/// The three components of a signature as plain numbers: what is left of a
/// signature once its concrete type is forgotten.
#[derive(Clone, Copy, Debug, PartialEq, Eq, Structural)]
pub struct SignatureView {
    pub v: U256,
    pub r: U256,
    pub s: U256,
}

impl EthSignature for SignatureView {
    open spec fn spec_v(&self) -> U256 {
        self.v
    }

    open spec fn spec_r(&self) -> U256 {
        self.r
    }

    open spec fn spec_s(&self) -> U256 {
        self.s
    }

    fn v(&self) -> (v: U256) {
        self.v
    }

    fn r(&self) -> (r: U256) {
        self.r
    }

    fn s(&self) -> (s: U256) {
        self.s
    }
}

/// The components of any signature, read through its capability.
pub fn signature_view<S: EthSignature>(signature: &S) -> (view: SignatureView)
    ensures
        view == (SignatureView {
            v: signature.spec_v(),
            r: signature.spec_r(),
            s: signature.spec_s(),
        }),
{
    SignatureView { v: signature.v(), r: signature.r(), s: signature.s() }
}

/// A signature with replay protection: `r` and `s` as they were made, and a
/// `v` that is specific to the chain.
#[derive(Clone, Copy, Debug, PartialEq, Eq, Structural)]
pub struct SignatureEip155 {
    pub v: U256,
    pub r: U256,
    pub s: U256,
}

impl SignatureEip155 {
    /// The protected form of `sign` on the chain `chain_id`.
    pub open spec fn spec_new(sign: Signature, chain_id: U256) -> SignatureEip155 {
        SignatureEip155 {
            v: U256::spec_from_nat(spec_replay_protection(chain_id@, sign.v)),
            r: sign.r,
            s: sign.s,
        }
    }

    /// Protects a signature against replay on another chain.
    pub fn new(sign: Signature, chain_id: U256) -> (sig: SignatureEip155)
        requires
            replay_protection_fits(chain_id, sign.v),
        ensures
            sig == Self::spec_new(sign, chain_id),
            sig.v@ == spec_replay_protection(chain_id@, sign.v),
    {
        let v = replay_protection(chain_id, sign.v);
        proof {
            lemma_u256_view_injective(
                v,
                U256::spec_from_nat(spec_replay_protection(chain_id@, sign.v)),
            );
        }
        SignatureEip155 { v, r: sign.r, s: sign.s }
    }
}

impl EthSignature for SignatureEip155 {
    open spec fn spec_v(&self) -> U256 {
        self.v
    }

    open spec fn spec_r(&self) -> U256 {
        self.r
    }

    open spec fn spec_s(&self) -> U256 {
        self.s
    }

    fn v(&self) -> (v: U256) {
        self.v
    }

    fn r(&self) -> (r: U256) {
        self.r
    }

    fn s(&self) -> (s: U256) {
        self.s
    }
}

} // verus!
