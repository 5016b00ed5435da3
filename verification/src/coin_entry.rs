//! The contract between the wallet core and a chain: what every chain must
//! be able to do, and what it may offer beyond that.

use vstd::prelude::*;
use crate::derivation::Derivation;
use crate::keypair::PublicKeyType;

verus! {

/// A signature as it crosses the boundary of the core.
pub type SignatureBytes = Vec<u8>;

/// A public key as it crosses the boundary of the core.
pub type PublicKeyBytes = Vec<u8>;

/// Why no address came out of a text or a public key.
#[derive(Clone, Copy, Debug, PartialEq, Eq, Structural)]
pub enum AddressError {
    /// The chain does not support what was asked for.
    Unsupported,
    /// The text does not start as an address of the chain starts.
    MissingPrefix,
    /// The text is not hexadecimal, or has not the length of an address.
    FromHexError,
    /// The public key is none of the chain's curve.
    PublicKeyTypeMismatch,
    /// The text is an address whose checksum does not hold.
    InvalidChecksum,
}

pub type AddressResult<T> = Result<T, AddressError>;

/// An address of any chain: it can be shown as text and gives its canonical
/// bytes. It is made by parsing or by derivation, and never changed.
pub trait CoinAddress {
    spec fn spec_data(&self) -> Seq<u8>;

    spec fn spec_display(&self) -> Seq<char>;

    /// The canonical bytes of the address.
    fn data(&self) -> (bytes: Vec<u8>)
        ensures
            bytes@ == self.spec_data(),
    ;

    /// The address as its users read it.
    fn to_string(&self) -> (text: String)
        ensures
            text@ == self.spec_display(),
    ;
}

/// The byte strings that a list of buffers holds.
pub open spec fn spec_byte_strings(list: Seq<Vec<u8>>) -> Seq<Seq<u8>> {
    Seq::new(list.len(), |i: int| list[i]@)
}

/// Whether an operation gave the address of the expected canonical bytes, or
/// failed with the expected error.
pub open spec fn address_result_is<A: CoinAddress>(
    res: AddressResult<A>,
    expected: AddressResult<Seq<u8>>,
) -> bool {
    match (res, expected) {
        (Ok(addr), Ok(bytes)) => addr.spec_data() == bytes,
        (Err(e), Err(f)) => e == f,
        _ => false,
    }
}

/// What a chain is known by: the kind of its public keys, and the
/// derivations under which it has addresses.
pub ghost struct CoinFacts {
    pub public_key_type: PublicKeyType,
    pub derivations: Set<Derivation>,
}

/// The static facts about a chain that the registry holds. An entry borrows
/// them for one call and keeps nothing.
pub trait CoinContext {
    /// The facts that this context gives.
    spec fn spec_facts(&self) -> CoinFacts;

    /// The kind of public key, and with it the curve, of the chain.
    fn public_key_type(&self) -> (ty: PublicKeyType)
        ensures
            ty == self.spec_facts().public_key_type,
    ;

    /// Whether addresses of the chain can be derived in this way.
    fn supports_derivation(&self, derivation: Derivation) -> (supported: bool)
        ensures
            supported == self.spec_facts().derivations.contains(derivation),
    ;
}

/// The prefix configuration of a chain whose addresses come in one form.
#[derive(Clone, Copy, Debug, PartialEq, Eq, Structural)]
pub struct NoPrefix;

/// The planner of a chain that plans nothing. No function makes a value of
/// it.
#[derive(Clone, Copy, Debug, PartialEq, Eq)]
pub struct NoPlanBuilder {
    never: (),
}

/// What a chain implements to be driven by the core. An entry holds no state
/// between calls: every operation is a function of its arguments.
pub trait CoinEntry {
    type AddressPrefix;

    type Address: CoinAddress;

    type SigningInput: View;

    type SigningOutput: View;

    type PreSigningOutput: View;

    type JsonSigner;

    type InputBuilder;

    type PlanBuilder;

    /// The canonical bytes of the address that a text stands for, or why it
    /// stands for none.
    spec fn spec_parse_address(
        &self,
        coin: CoinFacts,
        address: Seq<char>,
        prefix: Option<Self::AddressPrefix>,
    ) -> AddressResult<Seq<u8>>;

    /// The canonical bytes of the address of a public key, or why it has
    /// none.
    spec fn spec_derive_address(
        &self,
        coin: CoinFacts,
        public_key: Seq<u8>,
        derivation: Derivation,
        prefix: Option<Self::AddressPrefix>,
    ) -> AddressResult<Seq<u8>>;

    /// The output of signing an input with the key that it carries.
    spec fn spec_sign(
        &self,
        coin: CoinFacts,
        input: <Self::SigningInput as View>::V,
    ) -> <Self::SigningOutput as View>::V;

    /// The digests of an input that a signer outside the core is to sign.
    spec fn spec_preimage_hashes(
        &self,
        coin: CoinFacts,
        input: <Self::SigningInput as View>::V,
    ) -> <Self::PreSigningOutput as View>::V;

    /// The output that an input gives with signatures made outside the core.
    spec fn spec_compile(
        &self,
        coin: CoinFacts,
        input: <Self::SigningInput as View>::V,
        signatures: Seq<Seq<u8>>,
        public_keys: Seq<Seq<u8>>,
    ) -> <Self::SigningOutput as View>::V;

    /// Reads an address of the chain. Without a prefix the chain's default
    /// form is expected.
    fn parse_address<C: CoinContext>(
        &self,
        coin: &C,
        address: &str,
        prefix: Option<Self::AddressPrefix>,
    ) -> (res: AddressResult<Self::Address>)
        ensures
            address_result_is(res, self.spec_parse_address(coin.spec_facts(), address@, prefix)),
    ;

    /// Derives the address of a public key. The same key always has the same
    /// address; a derivation that the chain does not support has none.
    fn derive_address<C: CoinContext>(
        &self,
        coin: &C,
        public_key: PublicKeyBytes,
        derivation: Derivation,
        prefix: Option<Self::AddressPrefix>,
    ) -> (res: AddressResult<Self::Address>)
        ensures
            address_result_is(
                res,
                self.spec_derive_address(coin.spec_facts(), public_key@, derivation, prefix),
            ),
            !coin.spec_facts().derivations.contains(derivation) ==> res is Err,
    ;

    /// Signs a transaction with the private key that the input carries. An
    /// output comes back on every input: a failure is a field of it.
    fn sign<C: CoinContext>(&self, coin: &C, input: Self::SigningInput) -> (output:
        Self::SigningOutput)
        ensures
            output@ == self.spec_sign(coin.spec_facts(), input@),
    ;

    /// The digests to sign outside the core. No private key is read.
    fn preimage_hashes<C: CoinContext>(&self, coin: &C, input: Self::SigningInput) -> (output:
        Self::PreSigningOutput)
        ensures
            output@ == self.spec_preimage_hashes(coin.spec_facts(), input@),
    ;

    /// Puts a transaction together with signatures that were made outside
    /// the core.
    fn compile<C: CoinContext>(
        &self,
        coin: &C,
        input: Self::SigningInput,
        signatures: Vec<SignatureBytes>,
        public_keys: Vec<PublicKeyBytes>,
    ) -> (output: Self::SigningOutput)
        ensures
            output@ == self.spec_compile(
                coin.spec_facts(),
                input@,
                spec_byte_strings(signatures@),
                spec_byte_strings(public_keys@),
            ),
    ;

    /// The signer of JSON input, where the chain has one. A chain that says
    /// nothing has none.
    fn json_signer(&self) -> (module: Option<Self::JsonSigner>)
        default_ensures
            module is None,
    {
        None
    }

    /// The planner that prepares signing, where the chain has one. A chain
    /// that says nothing has none.
    fn plan_builder(&self) -> (module: Option<Self::PlanBuilder>)
        default_ensures
            module is None,
    {
        None
    }

    /// The builder of signing inputs from simple parameters, where the
    /// chain has one. A chain that says nothing has none.
    fn signing_input_builder(&self) -> (module: Option<Self::InputBuilder>)
        default_ensures
            module is None,
    {
        None
    }
}

} // verus!
