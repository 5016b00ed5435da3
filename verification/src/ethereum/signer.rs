//! Signing in three phases: a transaction is built from the input; its
//! digest is taken; a signature is applied. The signature is made here from
//! the key in the input, or comes from outside. Either way it is applied by
//! the same step, so both ways end in the same output.

use vstd::prelude::*;
use vstd::string::*;
use crate::bytes::{be_compact, be_value};
use crate::coin_entry::{spec_byte_strings, PublicKeyBytes, SignatureBytes};
use crate::ethereum::address::{spec_parse, Address};
use crate::ethereum::messages::{
    PreSigningOutput, PreSigningOutputView, SigningError, SigningInput, SigningInputView,
    SigningOutput, SigningOutputView,
};
use crate::ethereum::signature::{
    fits_replay_protection, spec_replay_protection, EthSignature,
};
use crate::ethereum::transaction::{SignedTransaction, TransactionCommon, UnsignedTransaction};
use crate::ethereum::transaction_non_typed::{
    spec_encode_transaction, spec_encode_unsigned, TransactionNonTyped, TransactionView,
};
use crate::hash::keccak256_digest;
use crate::number::{lemma_u256_from_nat, u256_max, U256};
use crate::secp256k1::{secp256k1_sign, PrivateKey, Signature};

verus! {

/// Reads a number of the input; one of more than 32 bytes is no parameter.
fn number(data: &[u8]) -> (res: Result<U256, SigningError>)
    ensures
        res is Ok <==> data@.len() <= 32,
        res matches Ok(n) ==> n@ == be_value(data@),
        res matches Err(e) ==> e == SigningError::InvalidParams,
{
    match U256::from_big_endian_slice(data) {
        Ok(n) => Ok(n),
        Err(_) => Err(SigningError::InvalidParams),
    }
}

/// Builds the transaction that an input describes.
pub struct TxBuilder;

impl TxBuilder {
    /// The chain id of an input.
    pub open spec fn spec_chain_id(input: SigningInputView) -> Result<nat, SigningError> {
        if input.chain_id.len() > 32 {
            Err(SigningError::InvalidParams)
        } else {
            Ok(be_value(input.chain_id))
        }
    }

    /// The receiver of an input: none for the empty text, else the address
    /// that the text stands for.
    pub open spec fn spec_receiver(to_address: Seq<char>) -> Result<Option<Seq<u8>>, SigningError> {
        if to_address.len() == 0 {
            Ok(None)
        } else {
            match spec_parse(to_address) {
                Ok(bytes) => Ok(Some(bytes)),
                Err(_) => Err(SigningError::InvalidAddress),
            }
        }
    }

    /// The transaction of an input. The numbers are looked at first, then
    /// the receiver.
    pub open spec fn spec_tx_from_proto(input: SigningInputView) -> Result<
        TransactionView,
        SigningError,
    > {
        if input.nonce.len() > 32 || input.gas_price.len() > 32 || input.gas_limit.len() > 32
            || input.amount.len() > 32 {
            Err(SigningError::InvalidParams)
        } else {
            match Self::spec_receiver(input.to_address) {
                Err(e) => Err(e),
                Ok(to) => Ok(
                    TransactionView {
                        nonce: be_value(input.nonce),
                        gas_price: be_value(input.gas_price),
                        gas_limit: be_value(input.gas_limit),
                        to,
                        amount: be_value(input.amount),
                        payload: input.data,
                    },
                ),
            }
        }
    }

    /// The chain id of an input.
    pub fn chain_id(input: &SigningInput) -> (res: Result<U256, SigningError>)
        ensures
            res is Ok <==> Self::spec_chain_id(input@) is Ok,
            res matches Ok(id) ==> Self::spec_chain_id(input@) == Ok::<nat, SigningError>(id@),
            res matches Err(e) ==> Self::spec_chain_id(input@) == Err::<nat, SigningError>(e),
    {
        number(input.chain_id.as_slice())
    }

    /// The receiver of an input.
    pub fn receiver(to_address: &str) -> (res: Result<Option<Address>, SigningError>)
        ensures
            res is Ok <==> Self::spec_receiver(to_address@) is Ok,
            res matches Ok(Some(addr)) ==> Self::spec_receiver(to_address@) == Ok::<
                Option<Seq<u8>>,
                SigningError,
            >(Some(addr@)),
            res matches Ok(None) ==> Self::spec_receiver(to_address@) == Ok::<
                Option<Seq<u8>>,
                SigningError,
            >(None),
            res matches Err(e) ==> Self::spec_receiver(to_address@) == Err::<
                Option<Seq<u8>>,
                SigningError,
            >(e),
    {
        if to_address.unicode_len() == 0 {
            return Ok(None);
        }
        match Address::from_str(to_address) {
            Ok(addr) => Ok(Some(addr)),
            Err(_) => Err(SigningError::InvalidAddress),
        }
    }

    /// The transaction of an input.
    pub fn tx_from_proto(input: &SigningInput) -> (res: Result<TransactionNonTyped, SigningError>)
        ensures
            res is Ok <==> Self::spec_tx_from_proto(input@) is Ok,
            res matches Ok(tx) ==> Self::spec_tx_from_proto(input@) == Ok::<
                TransactionView,
                SigningError,
            >(tx@),
            res matches Err(e) ==> Self::spec_tx_from_proto(input@) == Err::<
                TransactionView,
                SigningError,
            >(e),
    {
        let nonce = number(input.nonce.as_slice())?;
        let gas_price = number(input.gas_price.as_slice())?;
        let gas_limit = number(input.gas_limit.as_slice())?;
        let amount = number(input.amount.as_slice())?;
        let to = Self::receiver(input.to_address.as_str())?;
        Ok(
            TransactionNonTyped {
                nonce,
                gas_price,
                gas_limit,
                to,
                amount,
                payload: input.data.clone(),
            },
        )
    }
}

/// Signs with the private key that the input carries.
pub struct Signer;

impl Signer {
    /// The output that a transaction gives under a signature: the signed
    /// encoding, the components of the protected signature, the payload and
    /// the digest that was signed. A chain id too large to protect the
    /// signature is no parameter.
    pub open spec fn spec_apply_signature(
        tx: TransactionView,
        chain_id: nat,
        signature: Signature,
    ) -> SigningOutputView {
        let v = spec_replay_protection(chain_id, signature.v);
        if v <= u256_max() {
            SigningOutputView {
                encoded: spec_encode_transaction(tx, v, signature.r@, signature.s@),
                v: be_compact(v),
                r: be_compact(signature.r@),
                s: be_compact(signature.s@),
                data: tx.payload,
                error: SigningError::NoError,
                pre_hash: keccak256_digest(spec_encode_unsigned(tx, chain_id)),
            }
        } else {
            SigningOutput::spec_error(SigningError::InvalidParams)
        }
    }

    /// The output for each way in which making a signature can end.
    pub open spec fn spec_signed(
        tx: TransactionView,
        chain_id: nat,
        made: Option<Seq<u8>>,
    ) -> SigningOutputView {
        match PrivateKey::spec_sign_outcome(made) {
            Ok(signature) => Self::spec_apply_signature(tx, chain_id, signature),
            Err(_) => SigningOutput::spec_error(SigningError::Signing),
        }
    }

    /// The output of local signing. The chain id is looked at first, then
    /// the transaction, then the key.
    pub open spec fn spec_sign(input: SigningInputView) -> SigningOutputView {
        match TxBuilder::spec_chain_id(input) {
            Err(e) => SigningOutput::spec_error(e),
            Ok(chain_id) => match TxBuilder::spec_tx_from_proto(input) {
                Err(e) => SigningOutput::spec_error(e),
                Ok(tx) => if !PrivateKey::spec_valid_bytes(input.private_key) {
                    SigningOutput::spec_error(SigningError::InvalidPrivateKey)
                } else {
                    Self::spec_signed(
                        tx,
                        chain_id,
                        secp256k1_sign(
                            input.private_key,
                            keccak256_digest(spec_encode_unsigned(tx, chain_id)),
                        ),
                    )
                },
            },
        }
    }

    /// Applies a signature to a transaction: the one step through which
    /// every signed output comes.
    pub fn apply_signature(
        unsigned: TransactionNonTyped,
        chain_id: U256,
        signature: Signature,
    ) -> (output: SigningOutput)
        ensures
            output@ == Self::spec_apply_signature(unsigned@, chain_id@, signature),
    {
        if !fits_replay_protection(chain_id, signature.v) {
            return SigningOutput::error(SigningError::InvalidParams);
        }
        proof {
            lemma_u256_from_nat(spec_replay_protection(chain_id@, signature.v));
        }
        let pre_hash = unsigned.pre_hash(chain_id);
        let signed = unsigned.into_signed(signature, chain_id);
        let encoded = signed.encode();
        let protected = signed.signature();
        SigningOutput {
            encoded,
            v: protected.v().to_big_endian_compact(),
            r: protected.r().to_big_endian_compact(),
            s: protected.s().to_big_endian_compact(),
            data: signed.payload(),
            error: SigningError::NoError,
            pre_hash: pre_hash.to_vec(),
        }
    }

    /// Signs the transaction of an input with the key of the input. An
    /// output comes back on every input; where signing failed, it says why.
    pub fn sign_proto(input: SigningInput) -> (output: SigningOutput)
        ensures
            output@ == Self::spec_sign(input@),
    {
        let chain_id = match TxBuilder::chain_id(&input) {
            Ok(chain_id) => chain_id,
            Err(e) => {
                return SigningOutput::error(e);
            },
        };
        let unsigned = match TxBuilder::tx_from_proto(&input) {
            Ok(unsigned) => unsigned,
            Err(e) => {
                return SigningOutput::error(e);
            },
        };
        let private_key = match PrivateKey::from_slice(input.private_key.as_slice()) {
            Ok(key) => key,
            Err(_) => {
                return SigningOutput::error(SigningError::InvalidPrivateKey);
            },
        };
        let pre_hash = unsigned.pre_hash(chain_id);
        match private_key.sign(&pre_hash) {
            Ok(signature) => Self::apply_signature(unsigned, chain_id, signature),
            Err(_) => SigningOutput::error(SigningError::Signing),
        }
    }
}

/// Serves a signer outside the core: hands out the digest, and takes the
/// signature back.
pub struct Compiler;

impl Compiler {
    /// The digest of an input and the encoding whose digest it is.
    pub open spec fn spec_preimage_hashes(input: SigningInputView) -> PreSigningOutputView {
        match TxBuilder::spec_chain_id(input) {
            Err(e) => PreSigningOutput::spec_error(e),
            Ok(chain_id) => match TxBuilder::spec_tx_from_proto(input) {
                Err(e) => PreSigningOutput::spec_error(e),
                Ok(tx) => PreSigningOutputView {
                    error: SigningError::NoError,
                    data_hash: keccak256_digest(spec_encode_unsigned(tx, chain_id)),
                    data: spec_encode_unsigned(tx, chain_id),
                },
            },
        }
    }

    /// The output that an input gives with signatures from outside. The
    /// chain id is looked at first, then the transaction, then how many
    /// signatures and keys there are, then the signature.
    pub open spec fn spec_compile(
        input: SigningInputView,
        signatures: Seq<Seq<u8>>,
        public_keys: Seq<Seq<u8>>,
    ) -> SigningOutputView {
        match TxBuilder::spec_chain_id(input) {
            Err(e) => SigningOutput::spec_error(e),
            Ok(chain_id) => match TxBuilder::spec_tx_from_proto(input) {
                Err(e) => SigningOutput::spec_error(e),
                Ok(tx) => if signatures.len() != 1 || public_keys.len() != 1 {
                    SigningOutput::spec_error(SigningError::SignaturesCount)
                } else {
                    Signer::spec_signed(tx, chain_id, Some(signatures[0]))
                },
            },
        }
    }

    /// The digest that a signer outside the core is to sign. The private key
    /// of the input is not read.
    pub fn preimage_hashes(input: SigningInput) -> (output: PreSigningOutput)
        ensures
            output@ == Self::spec_preimage_hashes(input@),
    {
        let chain_id = match TxBuilder::chain_id(&input) {
            Ok(chain_id) => chain_id,
            Err(e) => {
                return PreSigningOutput::error(e);
            },
        };
        let unsigned = match TxBuilder::tx_from_proto(&input) {
            Ok(unsigned) => unsigned,
            Err(e) => {
                return PreSigningOutput::error(e);
            },
        };
        let data = unsigned.encode(chain_id);
        let data_hash = unsigned.pre_hash(chain_id).to_vec();
        PreSigningOutput { error: SigningError::NoError, data_hash, data }
    }

    /// Puts the transaction of an input together with a signature that was
    /// made outside the core. Exactly one signature and one public key are
    /// expected. The private key of the input is not read.
    pub fn compile(
        input: SigningInput,
        signatures: Vec<SignatureBytes>,
        public_keys: Vec<PublicKeyBytes>,
    ) -> (output: SigningOutput)
        ensures
            output@ == Self::spec_compile(
                input@,
                spec_byte_strings(signatures@),
                spec_byte_strings(public_keys@),
            ),
    {
        let chain_id = match TxBuilder::chain_id(&input) {
            Ok(chain_id) => chain_id,
            Err(e) => {
                return SigningOutput::error(e);
            },
        };
        let unsigned = match TxBuilder::tx_from_proto(&input) {
            Ok(unsigned) => unsigned,
            Err(e) => {
                return SigningOutput::error(e);
            },
        };
        if signatures.len() != 1 || public_keys.len() != 1 {
            return SigningOutput::error(SigningError::SignaturesCount);
        }
        match Signature::from_bytes(signatures[0].as_slice()) {
            Ok(signature) => Signer::apply_signature(unsigned, chain_id, signature),
            Err(_) => SigningOutput::error(SigningError::Signing),
        }
    }
}

/// Local signing and signing outside the core end in the same output: where
/// the signature handed to `compile` is the one that the key of the input
/// makes of the digest of the input, `compile` gives what `sign_proto`
/// gives, whatever the public key handed in with it.
pub proof fn lemma_compile_converges_with_sign(
    input: SigningInputView,
    signature: Seq<u8>,
    public_key: Seq<u8>,
)
    requires
        PrivateKey::spec_valid_bytes(input.private_key),
        Compiler::spec_preimage_hashes(input).error == SigningError::NoError ==> secp256k1_sign(
            input.private_key,
            Compiler::spec_preimage_hashes(input).data_hash,
        ) == Some(signature),
    ensures
        Compiler::spec_compile(input, seq![signature], seq![public_key]) == Signer::spec_sign(
            input,
        ),
{
}

/// Neither the digest to sign nor the output of `compile` depends on the
/// private key of the input: two inputs that differ in nothing else give
/// the same.
pub proof fn lemma_outside_signing_ignores_private_key(
    first: SigningInputView,
    second: SigningInputView,
    signatures: Seq<Seq<u8>>,
    public_keys: Seq<Seq<u8>>,
)
    requires
        second == (SigningInputView { private_key: second.private_key, ..first }),
    ensures
        Compiler::spec_preimage_hashes(first) == Compiler::spec_preimage_hashes(second),
        Compiler::spec_compile(first, signatures, public_keys) == Compiler::spec_compile(
            second,
            signatures,
            public_keys,
        ),
{
}

/// The digest that local signing reports is the digest that is handed to a
/// signer outside the core.
pub proof fn lemma_signed_digest_is_preimage(input: SigningInputView)
    requires
        Signer::spec_sign(input).error == SigningError::NoError,
    ensures
        Compiler::spec_preimage_hashes(input).error == SigningError::NoError,
        Signer::spec_sign(input).pre_hash == Compiler::spec_preimage_hashes(input).data_hash,
{
}

} // verus!
