//! The entry of the Ethereum family: the contract of a chain, met with the
//! parts of this module.

use vstd::prelude::*;
use crate::coin_entry::{
    address_result_is, spec_byte_strings, AddressError, AddressResult, CoinAddress, CoinContext,
    CoinEntry, CoinFacts, NoPlanBuilder, NoPrefix, PublicKeyBytes, SignatureBytes,
};
use crate::derivation::Derivation;
use crate::ethereum::address::{lemma_address_round_trip, spec_of_public_key, spec_parse, Address};
use crate::ethereum::messages::{
    PreSigningOutput, PreSigningOutputView, SigningInput, SigningInputView, SigningOutput,
    SigningOutputView,
};
use crate::ethereum::signer::{Compiler, Signer};
use crate::secp256k1::{secp256k1_public_key, PublicKey};

verus! {

/// The signer of JSON input of this chain family.
#[derive(Clone, Copy, Debug, PartialEq, Eq, Structural)]
pub struct EthJsonSigner;

/// The builder of signing inputs of this chain family.
#[derive(Clone, Copy, Debug, PartialEq, Eq, Structural)]
pub struct EthInputBuilder;

/// The entry of the Ethereum family. It holds nothing.
#[derive(Clone, Copy, Debug, PartialEq, Eq, Structural)]
pub struct EthereumEntry;

impl CoinEntry for EthereumEntry {
    type AddressPrefix = NoPrefix;

    type Address = Address;

    type SigningInput = SigningInput;

    type SigningOutput = SigningOutput;

    type PreSigningOutput = PreSigningOutput;

    type JsonSigner = EthJsonSigner;

    type InputBuilder = EthInputBuilder;

    type PlanBuilder = NoPlanBuilder;

    /// An address is read as its text says; the chain has one form of
    /// address, so neither the context nor a prefix changes it.
    open spec fn spec_parse_address(
        &self,
        coin: CoinFacts,
        address: Seq<char>,
        prefix: Option<NoPrefix>,
    ) -> AddressResult<Seq<u8>> {
        spec_parse(address)
    }

    /// A public key of the curve secp256k1 has the address that the hash of
    /// its point gives. The key is looked at first: bytes that are no such
    /// key are a mismatch, whatever the context says. A key under a
    /// derivation that the chain does not support has no address.
    open spec fn spec_derive_address(
        &self,
        coin: CoinFacts,
        public_key: Seq<u8>,
        derivation: Derivation,
        prefix: Option<NoPrefix>,
    ) -> AddressResult<Seq<u8>> {
        match secp256k1_public_key(public_key) {
            None => Err(AddressError::PublicKeyTypeMismatch),
            Some(point) => if !coin.derivations.contains(derivation) {
                Err(AddressError::Unsupported)
            } else {
                Ok(spec_of_public_key(point.subrange(1, 65)))
            },
        }
    }

    open spec fn spec_sign(
        &self,
        coin: CoinFacts,
        input: SigningInputView,
    ) -> SigningOutputView {
        Signer::spec_sign(input)
    }

    open spec fn spec_preimage_hashes(
        &self,
        coin: CoinFacts,
        input: SigningInputView,
    ) -> PreSigningOutputView {
        Compiler::spec_preimage_hashes(input)
    }

    open spec fn spec_compile(
        &self,
        coin: CoinFacts,
        input: SigningInputView,
        signatures: Seq<Seq<u8>>,
        public_keys: Seq<Seq<u8>>,
    ) -> SigningOutputView {
        Compiler::spec_compile(input, signatures, public_keys)
    }

    fn parse_address<C: CoinContext>(
        &self,
        coin: &C,
        address: &str,
        prefix: Option<NoPrefix>,
    ) -> (res: AddressResult<Address>)
        ensures
            address_result_is(res, spec_parse(address@)),
    {
        Address::from_str(address)
    }

    fn derive_address<C: CoinContext>(
        &self,
        coin: &C,
        public_key: PublicKeyBytes,
        derivation: Derivation,
        prefix: Option<NoPrefix>,
    ) -> (res: AddressResult<Address>)
        ensures
            res is Ok <==> coin.spec_facts().derivations.contains(derivation)
                && secp256k1_public_key(public_key@) is Some,
            res matches Ok(addr) ==> addr@ == spec_of_public_key(
                secp256k1_public_key(public_key@)->0.subrange(1, 65),
            ),
            res matches Err(e) ==> e == if secp256k1_public_key(public_key@) is None {
                AddressError::PublicKeyTypeMismatch
            } else {
                AddressError::Unsupported
            },
    {
        let key = match PublicKey::from_slice(public_key.as_slice()) {
            Ok(key) => key,
            Err(_) => {
                return Err(AddressError::PublicKeyTypeMismatch);
            },
        };
        if !coin.supports_derivation(derivation) {
            return Err(AddressError::Unsupported);
        }
        Ok(Address::with_secp256k1_pubkey(&key))
    }

    fn sign<C: CoinContext>(&self, coin: &C, input: SigningInput) -> (output: SigningOutput)
        ensures
            output@ == Signer::spec_sign(input@),
    {
        Signer::sign_proto(input)
    }

    fn preimage_hashes<C: CoinContext>(&self, coin: &C, input: SigningInput) -> (output:
        PreSigningOutput)
        ensures
            output@ == Compiler::spec_preimage_hashes(input@),
    {
        Compiler::preimage_hashes(input)
    }

    fn compile<C: CoinContext>(
        &self,
        coin: &C,
        input: SigningInput,
        signatures: Vec<SignatureBytes>,
        public_keys: Vec<PublicKeyBytes>,
    ) -> (output: SigningOutput)
        ensures
            output@ == Compiler::spec_compile(
                input@,
                spec_byte_strings(signatures@),
                spec_byte_strings(public_keys@),
            ),
    {
        Compiler::compile(input, signatures, public_keys)
    }

    /// The chain signs JSON input.
    fn json_signer(&self) -> (module: Option<EthJsonSigner>)
        ensures
            module == Some(EthJsonSigner),
    {
        Some(EthJsonSigner)
    }

    /// The chain builds signing inputs from simple parameters.
    fn signing_input_builder(&self) -> (module: Option<EthInputBuilder>)
        ensures
            module == Some(EthInputBuilder),
    {
        Some(EthInputBuilder)
    }
}

/// The text of any address of the chain, and so of any derived one, is read
/// back by the entry as that address.
pub proof fn lemma_entry_address_round_trip(entry: EthereumEntry, coin: CoinFacts, addr: Address)
    ensures
        entry.spec_parse_address(coin, addr.spec_display(), None) == Ok::<
            Seq<u8>,
            AddressError,
        >(addr.spec_data()),
{
    lemma_address_round_trip(addr);
}

} // verus!
