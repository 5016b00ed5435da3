//! A plugin contract that lets one wallet core drive many blockchains, with
//! the transaction-signing state machine behind it and one chain entry that
//! implements the contract end to end.

pub mod derivation;
pub mod keypair;
pub mod registry;
pub mod coin_entry;
pub mod hash;
pub mod bytes;
pub mod number;
pub mod hex;
pub mod ascii;
pub mod secp256k1;
pub mod ethereum;
pub mod codegen;
