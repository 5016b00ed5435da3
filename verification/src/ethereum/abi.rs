//! The boundary to the library that encodes contract parameters. Values of
//! this chain are handed over in the library's own types, and whatever goes
//! wrong on the other side comes back as one kind of error.

use vstd::prelude::*;
use crate::bytes::be_value;
use crate::ethereum::address::Address;
use crate::number::U256;

verus! {

pub type AbiResult<T> = Result<T, AbiError>;

/// The one error of the boundary.
#[derive(Clone, Copy, Debug, PartialEq, Eq, Structural)]
pub enum AbiError {
    InvalidParams,
}

/// The number of the parameter-encoding library, `ethabi::Uint`.
#[verifier::external_type_specification]
#[verifier::external_body]
pub struct ExUint(ethabi::Uint);

/// The address of the parameter-encoding library: `ethabi::Address` is its
/// name for this hash of 20 bytes.
#[verifier::external_type_specification]
#[verifier::external_body]
pub struct ExAbiAddress(ethabi::ethereum_types::H160);

/// The error of the parameter-encoding library, `ethabi::Error`.
#[verifier::external_type_specification]
#[verifier::external_body]
pub struct ExAbiErrorSource(ethabi::Error);

/// The 32 bytes, in big-endian order, that a number of the
/// parameter-encoding library holds.
pub uninterp spec fn abi_uint_bytes(number: ethabi::Uint) -> Seq<u8>;

/// The 20 bytes that an address of the parameter-encoding library holds.
pub uninterp spec fn abi_address_bytes(address: ethabi::Address) -> Seq<u8>;

/// Calls `ethabi::Uint::from_big_endian` on 32 bytes.
///
/// Trusted: the number that comes back holds the 32 bytes in big-endian
/// order. Other lengths are left out: the call pads fewer bytes, and panics
/// on more.
#[verifier::external_body]
fn uint_from_big_endian(bytes: &[u8]) -> (number: ethabi::Uint)
    requires
        bytes@.len() == 32,
    ensures
        abi_uint_bytes(number) == bytes@,
{
    ethabi::Uint::from_big_endian(bytes)
}

/// Calls `ethabi::Address::from` on an array of 20 bytes.
///
/// Trusted: the address that comes back holds the bytes in their order.
#[verifier::external_body]
fn address_from_bytes(bytes: [u8; 20]) -> (address: ethabi::Address)
    ensures
        abi_address_bytes(address) == bytes@,
{
    ethabi::Address::from(bytes)
}

impl From<ethabi::Error> for AbiError {
    /// Whatever went wrong in the library, the parameters were invalid.
    fn from(_err: ethabi::Error) -> (error: AbiError) {
        AbiError::InvalidParams
    }
}

impl vstd::std_specs::convert::FromSpecImpl<ethabi::Error> for AbiError {
    open spec fn obeys_from_spec() -> bool {
        true
    }

    open spec fn from_spec(_err: ethabi::Error) -> AbiError {
        AbiError::InvalidParams
    }
}

/// The same number in the type of the parameter-encoding library.
pub fn convert_u256(num: U256) -> (number: ethabi::Uint)
    ensures
        abi_uint_bytes(number) == num.to_big_endian_spec(),
        be_value(abi_uint_bytes(number)) == num@,
{
    let bytes = num.to_big_endian();
    uint_from_big_endian(bytes.as_slice())
}

/// The same address in the type of the parameter-encoding library.
pub fn convert_address(addr: Address) -> (address: ethabi::Address)
    ensures
        abi_address_bytes(address) == addr@,
{
    address_from_bytes(addr.bytes)
}

} // verus!
