//! The chain entry of the Ethereum family: its addresses, its transactions
//! and how they are signed.

pub mod abi;
pub mod address;
pub mod entry;
pub mod messages;
pub mod rlp;
pub mod signature;
pub mod signer;
pub mod transaction;
pub mod transaction_non_typed;
