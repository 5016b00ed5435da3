//! The messages that cross the boundary of the core when a transaction is
//! signed. Their wire format is not defined here: these are the values that
//! the format carries.

use vstd::prelude::*;

verus! {

/// How signing ended.
#[derive(Clone, Copy, Debug, PartialEq, Eq, Structural)]
pub enum SigningError {
    /// It did not fail.
    NoError,
    /// A parameter of the transaction is out of range.
    InvalidParams,
    /// The receiver is no address.
    InvalidAddress,
    /// The private key is none.
    InvalidPrivateKey,
    /// Not exactly one signature and one public key were handed in.
    SignaturesCount,
    /// No signature could be made, or the one handed in is none.
    Signing,
}

/// What is to be signed, and with what.
#[derive(Clone, Debug, PartialEq, Eq)]
pub struct SigningInput {
    /// The chain id, a big-endian number.
    pub chain_id: Vec<u8>,
    /// The nonce, a big-endian number.
    pub nonce: Vec<u8>,
    /// The gas price, a big-endian number.
    pub gas_price: Vec<u8>,
    /// The gas limit, a big-endian number.
    pub gas_limit: Vec<u8>,
    /// The receiver as text; empty where a contract is created.
    pub to_address: String,
    /// The private key; only local signing reads it.
    pub private_key: Vec<u8>,
    /// The amount to transfer, a big-endian number.
    pub amount: Vec<u8>,
    /// The payload of the transaction.
    pub data: Vec<u8>,
}

pub ghost struct SigningInputView {
    pub chain_id: Seq<u8>,
    pub nonce: Seq<u8>,
    pub gas_price: Seq<u8>,
    pub gas_limit: Seq<u8>,
    pub to_address: Seq<char>,
    pub private_key: Seq<u8>,
    pub amount: Seq<u8>,
    pub data: Seq<u8>,
}

impl View for SigningInput {
    type V = SigningInputView;

    open spec fn view(&self) -> SigningInputView {
        SigningInputView {
            chain_id: self.chain_id@,
            nonce: self.nonce@,
            gas_price: self.gas_price@,
            gas_limit: self.gas_limit@,
            to_address: self.to_address@,
            private_key: self.private_key@,
            amount: self.amount@,
            data: self.data@,
        }
    }
}

/// The signed transaction, or the error that stands in its place.
#[derive(Clone, Debug, PartialEq, Eq)]
pub struct SigningOutput {
    /// The signed transaction in its final encoding.
    pub encoded: Vec<u8>,
    /// The components of the signature, each in its shortest form.
    pub v: Vec<u8>,
    pub r: Vec<u8>,
    pub s: Vec<u8>,
    /// The payload of the transaction.
    pub data: Vec<u8>,
    /// `NoError`, or why the other fields are empty.
    pub error: SigningError,
    /// The digest that was signed.
    pub pre_hash: Vec<u8>,
}

pub ghost struct SigningOutputView {
    pub encoded: Seq<u8>,
    pub v: Seq<u8>,
    pub r: Seq<u8>,
    pub s: Seq<u8>,
    pub data: Seq<u8>,
    pub error: SigningError,
    pub pre_hash: Seq<u8>,
}

impl View for SigningOutput {
    type V = SigningOutputView;

    open spec fn view(&self) -> SigningOutputView {
        SigningOutputView {
            encoded: self.encoded@,
            v: self.v@,
            r: self.r@,
            s: self.s@,
            data: self.data@,
            error: self.error,
            pre_hash: self.pre_hash@,
        }
    }
}

impl SigningOutput {
    /// The output of a signing that failed.
    pub open spec fn spec_error(error: SigningError) -> SigningOutputView {
        SigningOutputView {
            encoded: Seq::empty(),
            v: Seq::empty(),
            r: Seq::empty(),
            s: Seq::empty(),
            data: Seq::empty(),
            error,
            pre_hash: Seq::empty(),
        }
    }

    /// The output of a signing that failed: the error, and nothing else.
    pub fn error(error: SigningError) -> (output: SigningOutput)
        ensures
            output@ == Self::spec_error(error),
    {
        SigningOutput {
            encoded: Vec::new(),
            v: Vec::new(),
            r: Vec::new(),
            s: Vec::new(),
            data: Vec::new(),
            error,
            pre_hash: Vec::new(),
        }
    }
}

/// What a signer outside the core is to sign, or the error that stands in
/// its place.
#[derive(Clone, Debug, PartialEq, Eq)]
pub struct PreSigningOutput {
    /// `NoError`, or why the other fields are empty.
    pub error: SigningError,
    /// The digest to sign.
    pub data_hash: Vec<u8>,
    /// The encoding whose digest it is.
    pub data: Vec<u8>,
}

pub ghost struct PreSigningOutputView {
    pub error: SigningError,
    pub data_hash: Seq<u8>,
    pub data: Seq<u8>,
}

impl View for PreSigningOutput {
    type V = PreSigningOutputView;

    open spec fn view(&self) -> PreSigningOutputView {
        PreSigningOutputView {
            error: self.error,
            data_hash: self.data_hash@,
            data: self.data@,
        }
    }
}

impl PreSigningOutput {
    /// The output of a digest computation that failed.
    pub open spec fn spec_error(error: SigningError) -> PreSigningOutputView {
        PreSigningOutputView { error, data_hash: Seq::empty(), data: Seq::empty() }
    }

    /// The output of a digest computation that failed: the error, and
    /// nothing else.
    pub fn error(error: SigningError) -> (output: PreSigningOutput)
        ensures
            output@ == Self::spec_error(error),
    {
        PreSigningOutput { error, data_hash: Vec::new(), data: Vec::new() }
    }
}

} // verus!
