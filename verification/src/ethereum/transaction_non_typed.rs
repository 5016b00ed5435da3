//! The transaction without a type byte: six fields, and after them room for
//! a signature.

use vstd::prelude::*;
use crate::bytes::{be_compact, lemma_be_compact_len, lemma_be_value_of_compact};
use crate::ethereum::address::Address;
use crate::ethereum::rlp::{
    lemma_list_payload_injective, lemma_short_items_prefix_free, spec_encode_bytes,
    spec_encode_list, spec_encode_number, RlpList,
};
use crate::ethereum::signature::{
    replay_protection_fits, spec_replay_protection, SignatureEip155,
};
use crate::ethereum::transaction::{
    spec_hash, spec_pre_hash, SignedTransaction, TransactionCommon, UnsignedTransaction,
};
use crate::hash::keccak256_digest;
use crate::number::{lemma_u256_below_pow256_32, U256};
use crate::secp256k1::Signature;

verus! {

/// A transaction that is not signed yet.
pub struct TransactionNonTyped {
    pub nonce: U256,
    pub gas_price: U256,
    pub gas_limit: U256,
    /// The receiver; none where the transaction creates a contract.
    pub to: Option<Address>,
    pub amount: U256,
    pub payload: Vec<u8>,
}

/// What a transaction holds, as mathematical values.
pub ghost struct TransactionView {
    pub nonce: nat,
    pub gas_price: nat,
    pub gas_limit: nat,
    pub to: Option<Seq<u8>>,
    pub amount: nat,
    pub payload: Seq<u8>,
}

impl View for TransactionNonTyped {
    type V = TransactionView;

    open spec fn view(&self) -> TransactionView {
        TransactionView {
            nonce: self.nonce@,
            gas_price: self.gas_price@,
            gas_limit: self.gas_limit@,
            to: match self.to {
                Some(addr) => Some(addr@),
                None => None,
            },
            amount: self.amount@,
            payload: self.payload@,
        }
    }
}

/// The six fields of a transaction, each encoded, one after the other.
pub open spec fn spec_encode_fields(tx: TransactionView) -> Seq<u8> {
    spec_encode_number(tx.nonce) + spec_encode_number(tx.gas_price) + spec_encode_number(
        tx.gas_limit,
    ) + spec_encode_bytes(
        match tx.to {
            Some(addr) => addr,
            None => Seq::empty(),
        },
    ) + spec_encode_number(tx.amount) + spec_encode_bytes(tx.payload)
}

/// The encoding of a transaction: the list of its six fields and of three
/// numbers `v`, `r` and `s`.
pub open spec fn spec_encode_transaction(tx: TransactionView, v: nat, r: nat, s: nat) -> Seq<u8> {
    spec_encode_list(
        spec_encode_fields(tx) + spec_encode_number(v) + spec_encode_number(r)
            + spec_encode_number(s),
    )
}

/// The encoding that is signed: the chain id stands where `v` will stand,
/// and zero where `r` and `s` will.
pub open spec fn spec_encode_unsigned(tx: TransactionView, chain_id: nat) -> Seq<u8> {
    spec_encode_transaction(tx, chain_id, 0, 0)
}

/// The encoding of a transaction.
fn encode_transaction(tx: &TransactionNonTyped, v: U256, r: U256, s: U256) -> (bytes: Vec<u8>)
    ensures
        bytes@ == spec_encode_transaction(tx@, v@, r@, s@),
{
    let mut list = RlpList::new();
    list.append_number(tx.nonce);
    list.append_number(tx.gas_price);
    list.append_number(tx.gas_limit);
    match &tx.to {
        Some(addr) => list.append_bytes(addr.bytes.as_slice()),
        None => {
            let none: Vec<u8> = Vec::new();
            list.append_bytes(none.as_slice());
        },
    }
    list.append_number(tx.amount);
    list.append_bytes(tx.payload.as_slice());
    assert(list@ =~= spec_encode_fields(tx@));
    list.append_number(v);
    list.append_number(r);
    list.append_number(s);
    list.finish()
}

impl TransactionCommon for TransactionNonTyped {
    open spec fn spec_payload(&self) -> Seq<u8> {
        self.payload@
    }

    fn payload(&self) -> (data: Vec<u8>)
        ensures
            data@ == self.payload@,
    {
        self.payload.clone()
    }
}

impl UnsignedTransaction for TransactionNonTyped {
    type SignedTransaction = SignedTransactionNonTyped;

    open spec fn spec_encode(&self, chain_id: U256) -> Seq<u8> {
        spec_encode_unsigned(self@, chain_id@)
    }

    open spec fn spec_into_signed(
        self,
        signature: Signature,
        chain_id: U256,
    ) -> SignedTransactionNonTyped {
        SignedTransactionNonTyped {
            unsigned: self,
            signature: SignatureEip155::spec_new(signature, chain_id),
            chain_id,
        }
    }

    fn encode(&self, chain_id: U256) -> (bytes: Vec<u8>)
        ensures
            bytes@ == spec_encode_unsigned(self@, chain_id@),
    {
        encode_transaction(self, chain_id, U256::zero(), U256::zero())
    }

    fn into_signed(self, signature: Signature, chain_id: U256) -> (signed:
        SignedTransactionNonTyped)
        ensures
            signed.unsigned == self,
            signed.chain_id == chain_id,
            signed.signature.v@ == spec_replay_protection(chain_id@, signature.v),
            signed.signature.r == signature.r,
            signed.signature.s == signature.s,
    {
        SignedTransactionNonTyped {
            unsigned: self,
            signature: SignatureEip155::new(signature, chain_id),
            chain_id,
        }
    }
}

/// A transaction with its signature.
pub struct SignedTransactionNonTyped {
    pub unsigned: TransactionNonTyped,
    pub signature: SignatureEip155,
    pub chain_id: U256,
}

impl TransactionCommon for SignedTransactionNonTyped {
    open spec fn spec_payload(&self) -> Seq<u8> {
        self.unsigned.payload@
    }

    fn payload(&self) -> (data: Vec<u8>)
        ensures
            data@ == self.unsigned.payload@,
    {
        self.unsigned.payload.clone()
    }
}

impl SignedTransaction for SignedTransactionNonTyped {
    type Signature = SignatureEip155;

    open spec fn spec_encode(&self) -> Seq<u8> {
        spec_encode_transaction(
            self.unsigned@,
            self.signature.v@,
            self.signature.r@,
            self.signature.s@,
        )
    }

    open spec fn spec_signature(&self) -> SignatureEip155 {
        self.signature
    }

    fn encode(&self) -> (bytes: Vec<u8>)
        ensures
            bytes@ == spec_encode_transaction(
                self.unsigned@,
                self.signature.v@,
                self.signature.r@,
                self.signature.s@,
            ),
    {
        encode_transaction(&self.unsigned, self.signature.v, self.signature.r, self.signature.s)
    }

    fn signature(&self) -> (signature: &SignatureEip155)
        ensures
            *signature == self.signature,
    {
        &self.signature
    }
}

/// Signing leaves the payload as it was.
pub proof fn lemma_signing_keeps_payload(tx: TransactionNonTyped, signature: Signature, chain_id: U256)
    ensures
        tx.spec_into_signed(signature, chain_id).spec_payload() == tx.spec_payload(),
{
}

/// Where two byte strings start alike and are the same, what follows the
/// start is the same.
proof fn lemma_same_after_fields(
    fields: Seq<u8>,
    a1: Seq<u8>,
    b1: Seq<u8>,
    c1: Seq<u8>,
    a2: Seq<u8>,
    b2: Seq<u8>,
    c2: Seq<u8>,
)
    requires
        fields + a1 + b1 + c1 == fields + a2 + b2 + c2,
    ensures
        a1 + (b1 + c1) == a2 + (b2 + c2),
{
    let whole1 = fields + a1 + b1 + c1;
    let whole2 = fields + a2 + b2 + c2;
    let rest1 = a1 + (b1 + c1);
    let rest2 = a2 + (b2 + c2);
    assert(whole1 =~= fields + rest1);
    assert(whole2 =~= fields + rest2);
    assert(rest1 =~= whole1.subrange(fields.len() as int, whole1.len() as int));
    assert(rest2 =~= whole2.subrange(fields.len() as int, whole2.len() as int));
}

/// Two transactions with the same six fields, whose encodings are the same,
/// carry the same `v`.
pub proof fn lemma_encoding_fixes_v(
    tx: TransactionView,
    v1: U256,
    r1: U256,
    s1: U256,
    v2: U256,
    r2: U256,
    s2: U256,
)
    requires
        spec_encode_transaction(tx, v1@, r1@, s1@) == spec_encode_transaction(tx, v2@, r2@, s2@),
    ensures
        v1@ == v2@,
{
    let fields = spec_encode_fields(tx);
    let d1 = be_compact(v1@);
    let d2 = be_compact(v2@);
    let a1 = spec_encode_bytes(d1);
    let a2 = spec_encode_bytes(d2);
    let b1 = spec_encode_number(r1@);
    let b2 = spec_encode_number(r2@);
    let c1 = spec_encode_number(s1@);
    let c2 = spec_encode_number(s2@);
    assert(fields + a1 + b1 + c1 == fields + a2 + b2 + c2) by {
        lemma_list_payload_injective(fields + a1 + b1 + c1, fields + a2 + b2 + c2);
    }
    lemma_same_after_fields(fields, a1, b1, c1, a2, b2, c2);
    assert(d1.len() <= 32 && d2.len() <= 32) by {
        lemma_u256_below_pow256_32(v1);
        lemma_u256_below_pow256_32(v2);
        lemma_be_compact_len(v1@, 32);
        lemma_be_compact_len(v2@, 32);
    }
    lemma_short_items_prefix_free(d1, d2, b1 + c1, b2 + c2);
    lemma_be_value_of_compact(v1@);
    lemma_be_value_of_compact(v2@);
}

/// The signed encoding is never the encoding that was signed: the signature
/// takes the place of the chain id and the two zeros, and its `v` is no
/// chain id.
pub proof fn lemma_signed_encoding_differs(
    tx: TransactionNonTyped,
    signature: Signature,
    chain_id: U256,
)
    requires
        replay_protection_fits(chain_id, signature.v),
    ensures
        SignedTransaction::spec_encode(&tx.spec_into_signed(signature, chain_id))
            != UnsignedTransaction::spec_encode(&tx, chain_id),
{
    let signed = tx.spec_into_signed(signature, chain_id);
    let protected = spec_replay_protection(chain_id@, signature.v);
    lemma_u256_below_pow256_32(chain_id);
    assert(signed.signature.v@ == protected);
    assert(protected != chain_id@);
    if SignedTransaction::spec_encode(&signed) == UnsignedTransaction::spec_encode(&tx, chain_id) {
        lemma_encoding_fixes_v(
            tx@,
            signed.signature.v,
            signed.signature.r,
            signed.signature.s,
            chain_id,
            U256 { hi: 0, lo: 0 },
            U256 { hi: 0, lo: 0 },
        );
    }
}

/// The identifier of a signed transaction is not the digest that was signed,
/// unless the hash function maps the two different encodings to one digest.
pub proof fn lemma_hash_differs_from_pre_hash(
    tx: TransactionNonTyped,
    signature: Signature,
    chain_id: U256,
)
    requires
        replay_protection_fits(chain_id, signature.v),
        keccak256_digest(SignedTransaction::spec_encode(&tx.spec_into_signed(signature, chain_id)))
            == keccak256_digest(UnsignedTransaction::spec_encode(&tx, chain_id))
            ==> SignedTransaction::spec_encode(&tx.spec_into_signed(signature, chain_id))
            == UnsignedTransaction::spec_encode(&tx, chain_id),
    ensures
        spec_hash(&tx.spec_into_signed(signature, chain_id)) != spec_pre_hash(&tx, chain_id),
{
    lemma_signed_encoding_differs(tx, signature, chain_id);
}

} // verus!
