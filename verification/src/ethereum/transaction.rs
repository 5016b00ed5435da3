//! The life of a transaction: unsigned, then signed, and never back. Each
//! state has a typed form, which knows the concrete transaction, and a form
//! that has forgotten it.

use vstd::prelude::*;
use crate::ethereum::signature::{
    replay_protection_fits, signature_view, EthSignature, SignatureView,
};
use crate::hash::{keccak256, keccak256_digest, H256};
use crate::number::U256;
use crate::secp256k1::Signature;

verus! {

/// What a transaction has in either state.
pub trait TransactionCommon {
    /// The payload of the transaction; signing does not change it.
    spec fn spec_payload(&self) -> Seq<u8>;

    fn payload(&self) -> (data: Vec<u8>)
        ensures
            data@ == self.spec_payload(),
    ;
}

/// A transaction that has not been signed.
pub trait UnsignedTransaction: TransactionCommon + Sized {
    type SignedTransaction: SignedTransaction;

    /// The canonical serialization that is signed. The chain id is part of
    /// what is signed, not of the transaction.
    spec fn spec_encode(&self, chain_id: U256) -> Seq<u8>;

    /// The signed transaction that this one becomes under a signature.
    spec fn spec_into_signed(self, signature: Signature, chain_id: U256) -> Self::SignedTransaction;

    /// The digest to sign: the hash of the chain-qualified encoding, a
    /// function of the transaction and the chain id alone.
    fn pre_hash(&self, chain_id: U256) -> (hash: H256)
        ensures
            hash@ == keccak256_digest(self.spec_encode(chain_id)),
    {
        let encoded = self.encode(chain_id);
        keccak256(encoded.as_slice())
    }

    fn encode(&self, chain_id: U256) -> (bytes: Vec<u8>)
        ensures
            bytes@ == self.spec_encode(chain_id),
    ;

    /// Signs the transaction. The unsigned value is used up: there is no
    /// way back from the signed one. The payload stays what it was.
    fn into_signed(self, signature: Signature, chain_id: U256) -> (signed: Self::SignedTransaction)
        requires
            replay_protection_fits(chain_id, signature.v),
        ensures
            signed == self.spec_into_signed(signature, chain_id),
            signed.spec_payload() == self.spec_payload(),
    ;
}

/// A transaction with its signature. Nothing changes it any more.
pub trait SignedTransaction: TransactionCommon {
    type Signature: EthSignature;

    /// The final serialization, signature included.
    spec fn spec_encode(&self) -> Seq<u8>;

    /// The signature that the transaction carries.
    spec fn spec_signature(&self) -> Self::Signature;

    /// The identifier of the transaction: the hash of its final encoding.
    fn hash(&self) -> (hash: H256)
        ensures
            hash@ == keccak256_digest(self.spec_encode()),
    {
        let encoded = self.encode();
        keccak256(encoded.as_slice())
    }

    fn encode(&self) -> (bytes: Vec<u8>)
        ensures
            bytes@ == self.spec_encode(),
    ;

    fn signature(&self) -> (signature: &Self::Signature)
        ensures
            *signature == self.spec_signature(),
    ;
}

/// The digest that an unsigned transaction is signed by.
pub open spec fn spec_pre_hash<T: UnsignedTransaction>(tx: &T, chain_id: U256) -> Seq<u8> {
    keccak256_digest(tx.spec_encode(chain_id))
}

/// The identifier of a signed transaction.
pub open spec fn spec_hash<T: SignedTransaction>(tx: &T) -> Seq<u8> {
    keccak256_digest(tx.spec_encode())
}

/// A signed transaction whose type is forgotten: what a signed transaction
/// shows, and nothing else. Signed transactions of any chain are values of
/// this one type.
#[derive(Clone, Debug, PartialEq, Eq)]
pub struct SignedTransactionBoxed {
    pub payload: Vec<u8>,
    pub encoded: Vec<u8>,
    pub hash: H256,
    pub signature: SignatureView,
}

pub ghost struct SignedTransactionBoxedView {
    pub payload: Seq<u8>,
    pub encoded: Seq<u8>,
    pub hash: Seq<u8>,
    pub signature: SignatureView,
}

impl View for SignedTransactionBoxed {
    type V = SignedTransactionBoxedView;

    open spec fn view(&self) -> SignedTransactionBoxedView {
        SignedTransactionBoxedView {
            payload: self.payload@,
            encoded: self.encoded@,
            hash: self.hash@,
            signature: self.signature,
        }
    }
}

/// What a signed transaction shows once its type is forgotten.
pub open spec fn spec_boxed<T: SignedTransaction>(tx: &T) -> SignedTransactionBoxedView {
    SignedTransactionBoxedView {
        payload: tx.spec_payload(),
        encoded: tx.spec_encode(),
        hash: spec_hash(tx),
        signature: SignatureView {
            v: tx.spec_signature().spec_v(),
            r: tx.spec_signature().spec_r(),
            s: tx.spec_signature().spec_s(),
        },
    }
}

impl SignedTransactionBoxed {
    /// The identifier is the hash of the encoding.
    pub open spec fn wf(&self) -> bool {
        self.hash@ == keccak256_digest(self.encoded@)
    }

    /// Forgets the type of a signed transaction.
    pub fn new<T: SignedTransaction>(tx: &T) -> (boxed: SignedTransactionBoxed)
        ensures
            boxed@ == spec_boxed(tx),
            boxed.wf(),
    {
        SignedTransactionBoxed {
            payload: tx.payload(),
            encoded: tx.encode(),
            hash: tx.hash(),
            signature: signature_view(tx.signature()),
        }
    }
}

impl TransactionCommon for SignedTransactionBoxed {
    open spec fn spec_payload(&self) -> Seq<u8> {
        self.payload@
    }

    fn payload(&self) -> (data: Vec<u8>)
        ensures
            data@ == self.payload@,
    {
        self.payload.clone()
    }
}

/// An unsigned transaction of a type that the holder need not know. Every
/// unsigned transaction has this form, and in it does what it does in its
/// own.
pub trait UnsignedTransactionBox: TransactionCommon {
    spec fn spec_boxed_pre_hash(&self, chain_id: U256) -> Seq<u8>;

    spec fn spec_boxed_encode(&self, chain_id: U256) -> Seq<u8>;

    spec fn spec_boxed_into_signed(
        &self,
        signature: Signature,
        chain_id: U256,
    ) -> SignedTransactionBoxedView;

    fn pre_hash(&self, chain_id: U256) -> (hash: H256)
        ensures
            hash@ == self.spec_boxed_pre_hash(chain_id),
    ;

    fn encode(&self, chain_id: U256) -> (bytes: Vec<u8>)
        ensures
            bytes@ == self.spec_boxed_encode(chain_id),
    ;

    /// Signs the transaction and forgets the type of the result. The
    /// unsigned value is used up. The payload stays what it was.
    fn into_signed(self: Box<Self>, signature: Signature, chain_id: U256) -> (signed:
        SignedTransactionBoxed)
        requires
            replay_protection_fits(chain_id, signature.v),
        ensures
            signed@ == self.spec_boxed_into_signed(signature, chain_id),
            signed.spec_payload() == self.spec_payload(),
            signed.wf(),
    ;
}

impl<T> UnsignedTransactionBox for T where T: UnsignedTransaction {
    open spec fn spec_boxed_pre_hash(&self, chain_id: U256) -> Seq<u8> {
        spec_pre_hash(self, chain_id)
    }

    open spec fn spec_boxed_encode(&self, chain_id: U256) -> Seq<u8> {
        <Self as UnsignedTransaction>::spec_encode(self, chain_id)
    }

    open spec fn spec_boxed_into_signed(
        &self,
        signature: Signature,
        chain_id: U256,
    ) -> SignedTransactionBoxedView {
        spec_boxed(&<Self as UnsignedTransaction>::spec_into_signed(*self, signature, chain_id))
    }

    fn pre_hash(&self, chain_id: U256) -> (hash: H256) {
        <Self as UnsignedTransaction>::pre_hash(self, chain_id)
    }

    fn encode(&self, chain_id: U256) -> (bytes: Vec<u8>) {
        <Self as UnsignedTransaction>::encode(self, chain_id)
    }

    /// What comes out has the identifier, the encoding, the payload and the
    /// signature of the transaction that typed signing gives.
    fn into_signed(self: Box<Self>, signature: Signature, chain_id: U256) -> (signed:
        SignedTransactionBoxed)
        ensures
            signed@ == spec_boxed(
                &<Self as UnsignedTransaction>::spec_into_signed(*self, signature, chain_id),
            ),
            signed.hash@ == spec_hash(
                &<Self as UnsignedTransaction>::spec_into_signed(*self, signature, chain_id),
            ),
            signed.encoded@ == SignedTransaction::spec_encode(
                &<Self as UnsignedTransaction>::spec_into_signed(*self, signature, chain_id),
            ),
    {
        let typed = <Self as UnsignedTransaction>::into_signed(*self, signature, chain_id);
        SignedTransactionBoxed::new(&typed)
    }
}

/// A signed transaction of a type that the holder need not know. Of the
/// signature it shows the components, not the concrete type.
pub trait SignedTransactionBox: TransactionCommon {
    spec fn spec_boxed_hash(&self) -> Seq<u8>;

    spec fn spec_boxed_encode(&self) -> Seq<u8>;

    spec fn spec_boxed_signature(&self) -> SignatureView;

    fn hash(&self) -> (hash: H256)
        ensures
            hash@ == self.spec_boxed_hash(),
    ;

    fn encode(&self) -> (bytes: Vec<u8>)
        ensures
            bytes@ == self.spec_boxed_encode(),
    ;

    fn signature(&self) -> (signature: SignatureView)
        ensures
            signature == self.spec_boxed_signature(),
    ;
}

impl SignedTransactionBox for SignedTransactionBoxed {
    open spec fn spec_boxed_hash(&self) -> Seq<u8> {
        self.hash@
    }

    open spec fn spec_boxed_encode(&self) -> Seq<u8> {
        self.encoded@
    }

    open spec fn spec_boxed_signature(&self) -> SignatureView {
        self.signature
    }

    /// The identifier that the value holds. Of a value made by `new` or by
    /// signing, and of any other that is well formed, it is the hash of the
    /// encoding.
    fn hash(&self) -> (hash: H256)
        ensures
            hash == self.hash,
            self.wf() ==> hash@ == keccak256_digest(self.encoded@),
    {
        self.hash
    }

    fn encode(&self) -> (bytes: Vec<u8>)
        ensures
            bytes@ == self.encoded@,
    {
        self.encoded.clone()
    }

    fn signature(&self) -> (signature: SignatureView)
        ensures
            signature == self.signature,
    {
        self.signature
    }
}

impl<T> SignedTransactionBox for T where T: SignedTransaction {
    open spec fn spec_boxed_hash(&self) -> Seq<u8> {
        spec_hash(self)
    }

    open spec fn spec_boxed_encode(&self) -> Seq<u8> {
        <Self as SignedTransaction>::spec_encode(self)
    }

    open spec fn spec_boxed_signature(&self) -> SignatureView {
        let signature = <Self as SignedTransaction>::spec_signature(self);
        SignatureView { v: signature.spec_v(), r: signature.spec_r(), s: signature.spec_s() }
    }

    fn hash(&self) -> (hash: H256) {
        <Self as SignedTransaction>::hash(self)
    }

    fn encode(&self) -> (bytes: Vec<u8>) {
        <Self as SignedTransaction>::encode(self)
    }

    fn signature(&self) -> (signature: SignatureView) {
        signature_view(<Self as SignedTransaction>::signature(self))
    }
}

/// The digest to sign depends on the content of the transaction and on the
/// chain id, and on nothing else: two digests taken of equal transactions
/// under equal chain ids are the same bytes.
pub proof fn lemma_pre_hash_deterministic<T: UnsignedTransaction>(
    first: T,
    second: T,
    first_chain: U256,
    second_chain: U256,
    first_hash: H256,
    second_hash: H256,
)
    requires
        first == second,
        first_chain == second_chain,
        first_hash@ == spec_pre_hash(&first, first_chain),
        second_hash@ == spec_pre_hash(&second, second_chain),
    ensures
        first_hash == second_hash,
{
    assert(first_hash.bytes =~= second_hash.bytes);
}

/// The identifier of a signed transaction depends on the transaction alone.
pub proof fn lemma_hash_deterministic<T: SignedTransaction>(
    first: T,
    second: T,
    first_hash: H256,
    second_hash: H256,
)
    requires
        first == second,
        first_hash@ == spec_hash(&first),
        second_hash@ == spec_hash(&second),
    ensures
        first_hash == second_hash,
{
    assert(first_hash.bytes =~= second_hash.bytes);
}

/// Forgetting the type of an unsigned transaction changes nothing: it
/// encodes to the same bytes and is signed by the same digest.
pub proof fn lemma_boxed_unsigned_fidelity<T: UnsignedTransaction>(tx: T, chain_id: U256)
    ensures
        UnsignedTransactionBox::spec_boxed_encode(&tx, chain_id) == UnsignedTransaction::spec_encode(
            &tx,
            chain_id,
        ),
        UnsignedTransactionBox::spec_boxed_pre_hash(&tx, chain_id) == keccak256_digest(
            UnsignedTransaction::spec_encode(&tx, chain_id),
        ),
{
}

/// Forgetting the type of a signed transaction changes nothing: the same
/// encoding, the same identifier, the same components of the signature.
pub proof fn lemma_boxed_signed_fidelity<T: SignedTransaction>(tx: T)
    ensures
        SignedTransactionBox::spec_boxed_encode(&tx) == SignedTransaction::spec_encode(&tx),
        SignedTransactionBox::spec_boxed_hash(&tx) == keccak256_digest(
            SignedTransaction::spec_encode(&tx),
        ),
        SignedTransactionBox::spec_boxed_signature(&tx).v == tx.spec_signature().spec_v(),
        SignedTransactionBox::spec_boxed_signature(&tx).r == tx.spec_signature().spec_r(),
        SignedTransactionBox::spec_boxed_signature(&tx).s == tx.spec_signature().spec_s(),
{
}

/// Signing a transaction whose type is forgotten gives what signing the
/// typed transaction gives: the same identifier, the same encoding, the same
/// payload and the same components of the signature.
pub proof fn lemma_boxed_signing_fidelity<T: UnsignedTransaction>(
    tx: T,
    signature: Signature,
    chain_id: U256,
)
    ensures
        ({
            let boxed = UnsignedTransactionBox::spec_boxed_into_signed(&tx, signature, chain_id);
            let typed = tx.spec_into_signed(signature, chain_id);
            &&& boxed.hash == spec_hash(&typed)
            &&& boxed.encoded == SignedTransaction::spec_encode(&typed)
            &&& boxed.payload == typed.spec_payload()
            &&& boxed.signature.v == typed.spec_signature().spec_v()
            &&& boxed.signature.r == typed.spec_signature().spec_r()
            &&& boxed.signature.s == typed.spec_signature().spec_s()
            &&& boxed == spec_boxed(&typed)
        }),
{
}

} // verus!
