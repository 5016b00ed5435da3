//! Elliptic curves and public-key kinds, each a closed set addressed by a
//! small integer code.

use vstd::prelude::*;

verus! {

/// The curve family of a chain's keys and signatures.
#[derive(Clone, Copy, Debug, PartialEq, Eq, Structural)]
pub enum Curve {
    Secp256k1,
    Ed25519,
    Ed25519Blake2bNano,
    /// Waves blockchain specific `curve25519`.
    Curve25519Waves,
    Nist256p1,
    /// Cardano blockchain specific `ed25519` extended key.
    Ed25519ExtendedCardano,
    Starkex,
}

impl Curve {
    /// The code that stands for this curve.
    pub open spec fn spec_raw(self) -> u32 {
        match self {
            Curve::Secp256k1 => 0,
            Curve::Ed25519 => 1,
            Curve::Ed25519Blake2bNano => 2,
            Curve::Curve25519Waves => 3,
            Curve::Nist256p1 => 4,
            Curve::Ed25519ExtendedCardano => 5,
            Curve::Starkex => 6,
        }
    }

    /// The curve that a code stands for, if any.
    pub open spec fn spec_from_raw(curve: u32) -> Option<Curve> {
        if curve == 0 {
            Some(Curve::Secp256k1)
        } else if curve == 1 {
            Some(Curve::Ed25519)
        } else if curve == 2 {
            Some(Curve::Ed25519Blake2bNano)
        } else if curve == 3 {
            Some(Curve::Curve25519Waves)
        } else if curve == 4 {
            Some(Curve::Nist256p1)
        } else if curve == 5 {
            Some(Curve::Ed25519ExtendedCardano)
        } else if curve == 6 {
            Some(Curve::Starkex)
        } else {
            None
        }
    }

    /// Looks a code up; `None` for a code that no curve carries.
    pub fn from_raw(curve: u32) -> (res: Option<Curve>)
        ensures
            res == Self::spec_from_raw(curve),
            res is Some <==> curve <= 6,
            res matches Some(c) ==> c.spec_raw() == curve,
    {
        match curve {
            0 => Some(Curve::Secp256k1),
            1 => Some(Curve::Ed25519),
            2 => Some(Curve::Ed25519Blake2bNano),
            3 => Some(Curve::Curve25519Waves),
            4 => Some(Curve::Nist256p1),
            5 => Some(Curve::Ed25519ExtendedCardano),
            6 => Some(Curve::Starkex),
            _ => None,
        }
    }

    /// The code of this curve.
    pub fn raw(self) -> (code: u32)
        ensures
            code == self.spec_raw(),
            Self::spec_from_raw(code) == Some(self),
    {
        match self {
            Curve::Secp256k1 => 0,
            Curve::Ed25519 => 1,
            Curve::Ed25519Blake2bNano => 2,
            Curve::Curve25519Waves => 3,
            Curve::Nist256p1 => 4,
            Curve::Ed25519ExtendedCardano => 5,
            Curve::Starkex => 6,
        }
    }
}

/// The encoding and curve of a public key.
#[derive(Clone, Copy, Debug, PartialEq, Eq, Structural)]
pub enum PublicKeyType {
    Secp256k1,
    Secp256k1Extended,
    Nist256k1,
    Nist256k1Extended,
    Ed25519,
    Ed25519Blake2b,
    /// Waves blockchain specific public key.
    Curve25519Waves,
    /// Cardano blockchain specific extended public key.
    Ed25519ExtendedCardano,
    Starkex,
}

impl PublicKeyType {
    /// The code that stands for this kind of key.
    pub open spec fn spec_raw(self) -> u32 {
        match self {
            PublicKeyType::Secp256k1 => 0,
            PublicKeyType::Secp256k1Extended => 1,
            PublicKeyType::Nist256k1 => 2,
            PublicKeyType::Nist256k1Extended => 3,
            PublicKeyType::Ed25519 => 4,
            PublicKeyType::Ed25519Blake2b => 5,
            PublicKeyType::Curve25519Waves => 6,
            PublicKeyType::Ed25519ExtendedCardano => 7,
            PublicKeyType::Starkex => 8,
        }
    }

    /// The kind of key that a code stands for, if any.
    pub open spec fn spec_from_raw(ty: u32) -> Option<PublicKeyType> {
        if ty == 0 {
            Some(PublicKeyType::Secp256k1)
        } else if ty == 1 {
            Some(PublicKeyType::Secp256k1Extended)
        } else if ty == 2 {
            Some(PublicKeyType::Nist256k1)
        } else if ty == 3 {
            Some(PublicKeyType::Nist256k1Extended)
        } else if ty == 4 {
            Some(PublicKeyType::Ed25519)
        } else if ty == 5 {
            Some(PublicKeyType::Ed25519Blake2b)
        } else if ty == 6 {
            Some(PublicKeyType::Curve25519Waves)
        } else if ty == 7 {
            Some(PublicKeyType::Ed25519ExtendedCardano)
        } else if ty == 8 {
            Some(PublicKeyType::Starkex)
        } else {
            None
        }
    }

    /// Looks a code up; `None` for a code that no kind of key carries.
    pub fn from_raw(ty: u32) -> (res: Option<PublicKeyType>)
        ensures
            res == Self::spec_from_raw(ty),
            res is Some <==> ty <= 8,
            res matches Some(t) ==> t.spec_raw() == ty,
    {
        match ty {
            0 => Some(PublicKeyType::Secp256k1),
            1 => Some(PublicKeyType::Secp256k1Extended),
            2 => Some(PublicKeyType::Nist256k1),
            3 => Some(PublicKeyType::Nist256k1Extended),
            4 => Some(PublicKeyType::Ed25519),
            5 => Some(PublicKeyType::Ed25519Blake2b),
            6 => Some(PublicKeyType::Curve25519Waves),
            7 => Some(PublicKeyType::Ed25519ExtendedCardano),
            8 => Some(PublicKeyType::Starkex),
            _ => None,
        }
    }

    /// The code of this kind of key.
    pub fn raw(self) -> (code: u32)
        ensures
            code == self.spec_raw(),
            Self::spec_from_raw(code) == Some(self),
    {
        match self {
            PublicKeyType::Secp256k1 => 0,
            PublicKeyType::Secp256k1Extended => 1,
            PublicKeyType::Nist256k1 => 2,
            PublicKeyType::Nist256k1Extended => 3,
            PublicKeyType::Ed25519 => 4,
            PublicKeyType::Ed25519Blake2b => 5,
            PublicKeyType::Curve25519Waves => 6,
            PublicKeyType::Ed25519ExtendedCardano => 7,
            PublicKeyType::Starkex => 8,
        }
    }

    /// The curve on which a key of this kind lies.
    pub open spec fn spec_curve(self) -> Curve {
        match self {
            PublicKeyType::Secp256k1 | PublicKeyType::Secp256k1Extended => Curve::Secp256k1,
            PublicKeyType::Nist256k1 | PublicKeyType::Nist256k1Extended => Curve::Nist256p1,
            PublicKeyType::Ed25519 => Curve::Ed25519,
            PublicKeyType::Ed25519Blake2b => Curve::Ed25519Blake2bNano,
            PublicKeyType::Curve25519Waves => Curve::Curve25519Waves,
            PublicKeyType::Ed25519ExtendedCardano => Curve::Ed25519ExtendedCardano,
            PublicKeyType::Starkex => Curve::Starkex,
        }
    }

    /// The curve on which a key of this kind lies.
    pub fn curve(self) -> (c: Curve)
        ensures
            c == self.spec_curve(),
    {
        match self {
            PublicKeyType::Secp256k1 | PublicKeyType::Secp256k1Extended => Curve::Secp256k1,
            PublicKeyType::Nist256k1 | PublicKeyType::Nist256k1Extended => Curve::Nist256p1,
            PublicKeyType::Ed25519 => Curve::Ed25519,
            PublicKeyType::Ed25519Blake2b => Curve::Ed25519Blake2bNano,
            PublicKeyType::Curve25519Waves => Curve::Curve25519Waves,
            PublicKeyType::Ed25519ExtendedCardano => Curve::Ed25519ExtendedCardano,
            PublicKeyType::Starkex => Curve::Starkex,
        }
    }
}

/// Every curve is found again under its own code.
pub proof fn lemma_curve_from_raw_of_raw(c: Curve)
    ensures
        Curve::spec_from_raw(c.spec_raw()) == Some(c),
{
}

/// A recognised code is the code of the curve it gives; every other code
/// belongs to no curve.
pub proof fn lemma_curve_raw_of_from_raw(code: u32)
    ensures
        match Curve::spec_from_raw(code) {
            Some(c) => c.spec_raw() == code,
            None => forall|c: Curve| c.spec_raw() != code,
        },
{
}

/// Every kind of key is found again under its own code.
pub proof fn lemma_public_key_type_from_raw_of_raw(t: PublicKeyType)
    ensures
        PublicKeyType::spec_from_raw(t.spec_raw()) == Some(t),
{
}

/// A recognised code is the code of the kind of key it gives; every other
/// code belongs to none.
pub proof fn lemma_public_key_type_raw_of_from_raw(code: u32)
    ensures
        match PublicKeyType::spec_from_raw(code) {
            Some(t) => t.spec_raw() == code,
            None => forall|t: PublicKeyType| t.spec_raw() != code,
        },
{
}

} // verus!
