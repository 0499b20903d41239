//! The table of precompiled contracts of an execution environment, and the
//! one change this library makes to it.
//!
//! The table is the EVM crate's `PrecompilesMap`. Verified code sees it as a
//! map from addresses to the contracts registered there.

use crate::p256verify::{p256_verify, p256_verify_spec, PrecompileFailure};
use alloy_evm::precompiles::{PrecompileInput, PrecompilesMap};
use alloy_evm::revm::precompile::secp256r1::P256VERIFY;
use alloy_evm::revm::precompile::{EthPrecompileOutput, PrecompileHalt, PrecompileOutput};
use alloy_primitives::Address;
use vstd::prelude::*;

verus! {

/// Number of bytes of an address.
pub const ADDRESS_LEN: usize = 20;

/// A precompiled contract, as far as this library tells contracts apart.
pub enum Contract {
    /// The P-256 signature check as this library registers it: a call of it
    /// answers as [`p256_verify`] answers on the data and the gas limit of the
    /// call.
    P256Verify,
    /// Any other contract, known by the name of its identifier.
    Other(Seq<char>),
}

/// What a call of a contract returns on `input` under `gas_limit`, where this
/// library says so: the gas used and the output bytes, or the failure.
pub open spec fn answer(contract: Contract, input: Seq<u8>, gas_limit: u64) -> Option<
    Result<(u64, Seq<u8>), PrecompileFailure>,
> {
    match contract {
        Contract::P256Verify => Some(p256_verify_spec(input, gas_limit)),
        Contract::Other(_) => None,
    }
}

/// Declares the EVM crate's table of precompiled contracts. Verified code
/// reads nothing inside it; what it holds is [`installed`].
#[verifier::external_type_specification]
#[verifier::external_body]
pub struct ExPrecompilesMap(PrecompilesMap);

/// The contracts registered in a table, each under the 20 bytes of its
/// address. Contracts that a table resolves on demand through a lookup
/// function are not part of it.
pub uninterp spec fn installed(table: PrecompilesMap) -> Map<Seq<u8>, Contract>;

/// The address of the P-256 signature check, `0x0100`: eighteen zero bytes,
/// then `0x01` and `0x00`.
pub open spec fn p256verify_address() -> Seq<u8> {
    Seq::new(ADDRESS_LEN as nat, |i: int| if i == 18 { 1u8 } else { 0u8 })
}

/// Reads the address of the precompile crate's own P-256 contract,
/// `revm_precompile::secp256r1::P256VERIFY`, with `Precompile::address`.
///
/// The precompile crate defines it as the number 256 written big-endian into
/// the last eight bytes of an address.
#[verifier::external_body]
pub(crate) fn p256verify_address_bytes() -> (address: [u8; 20])
    ensures
        address@ == p256verify_address(),
{
    P256VERIFY.address().into_array()
}

/// Registers the P-256 signature check at `address`, through
/// `PrecompilesMap::apply_precompile`.
///
/// That method takes out the contract registered at the address, if there is
/// one, and puts in the one that its closure returns; no other address is
/// touched. The contract put in here is made from a closure that runs
/// [`p256_verify`] on the data and the gas limit of each call and hands the
/// result on in the EVM crate's types: gas used and bytes where the call went
/// through, the halt for lack of gas where it did not.
#[verifier::external_body]
pub(crate) fn install_p256verify(table: &mut PrecompilesMap, address: &[u8; 20])
    ensures
        installed(*final(table)) == installed(*old(table)).insert(address@, Contract::P256Verify),
{
    table.apply_precompile(&Address::from(*address), |_| {
        let precompile = |input: PrecompileInput<'_>| {
            let result = match p256_verify(input.data, input.gas) {
                Ok(output) => Ok(EthPrecompileOutput::new(output.gas_used, output.bytes.into())),
                Err(PrecompileFailure::OutOfGas) => Err(PrecompileHalt::OutOfGas),
            };
            Ok(PrecompileOutput::from_eth_result(result, input.reservoir))
        };
        Some(precompile.into())
    });
}

} // verus!
