//! Static facts that the chain registry holds about a chain.

use vstd::prelude::*;
use vstd::string::*;
use crate::coin_entry::{CoinContext, CoinFacts};
use crate::derivation::Derivation;
use crate::keypair::PublicKeyType;

verus! {

/// What can go wrong while the registry is read.
#[derive(Clone, Copy, Debug, PartialEq, Eq, Structural)]
pub enum RegistryError {
    /// The registry knows no chain of that identity.
    UnknownCoinType,
}

/// The implementation that serves a chain.
#[derive(Clone, Copy, Debug, PartialEq, Eq, Structural)]
pub enum BlockchainType {
    Ethereum,
    Unsupported,
}

impl BlockchainType {
    /// The implementation that a registry name selects: every name but
    /// `Ethereum` selects `Unsupported`.
    pub open spec fn spec_from_str(s: Seq<char>) -> BlockchainType {
        if s == "Ethereum"@ {
            BlockchainType::Ethereum
        } else {
            BlockchainType::Unsupported
        }
    }

    /// Reads the name of an implementation. No name is an error: one that is
    /// not known selects `Unsupported`.
    pub fn from_str(s: &str) -> (res: Result<BlockchainType, RegistryError>)
        ensures
            res == Ok::<BlockchainType, RegistryError>(Self::spec_from_str(s@)),
    {
        let name = String::from_str(s);
        let ethereum = String::from_str("Ethereum");
        if name == ethereum {
            Ok(BlockchainType::Ethereum)
        } else {
            Ok(BlockchainType::Unsupported)
        }
    }
}

/// What the registry holds about one chain.
#[derive(Clone, Debug, PartialEq, Eq)]
pub struct CoinItem {
    /// The implementation that serves the chain.
    pub blockchain: BlockchainType,
    /// The kind of public key of the chain.
    pub public_key_type: PublicKeyType,
    /// The derivations under which the chain has addresses.
    pub derivations: Vec<Derivation>,
}

impl CoinContext for CoinItem {
    open spec fn spec_facts(&self) -> CoinFacts {
        CoinFacts {
            public_key_type: self.public_key_type,
            derivations: self.derivations@.to_set(),
        }
    }

    fn public_key_type(&self) -> (ty: PublicKeyType)
        ensures
            ty == self.public_key_type,
    {
        self.public_key_type
    }

    fn supports_derivation(&self, derivation: Derivation) -> (supported: bool)
        ensures
            supported == self.derivations@.contains(derivation),
    {
        let mut i: usize = 0;
        while i < self.derivations.len()
            invariant
                i <= self.derivations@.len(),
                forall|j: int| 0 <= j < i ==> self.derivations@[j] != derivation,
            decreases self.derivations@.len() - i,
        {
            if self.derivations[i] == derivation {
                return true;
            }
            i += 1;
        }
        false
    }
}

} // verus!
