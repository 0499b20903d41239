//! The factory of execution environments and the node types that use it.
//!
//! An environment is built by the base factory of the EVM crate. This library
//! then applies one customization step to its table of precompiled contracts:
//! from Prague on it registers the P-256 signature check at its address.

use crate::hardfork::{is_p256verify_active, p256verify_active};
use crate::p256verify::{
    p256_signature_valid, p256_verify_spec, success_word, PrecompileFailure, P256VERIFY_GAS,
};
use crate::precompiles::{
    answer, install_p256verify, installed, p256verify_address, p256verify_address_bytes, Contract,
};
use alloy_evm::precompiles::PrecompilesMap;
use alloy_evm::revm::primitives::hardfork::SpecId;
use vstd::prelude::*;

verus! {

/// A table after the customization step under the protocol version `spec`:
/// from the threshold version on, the P-256 signature check stands at its
/// address, in place of whatever stood there; before it, nothing changes.
pub open spec fn customized(table: Map<Seq<u8>, Contract>, spec: SpecId) -> Map<
    Seq<u8>,
    Contract,
> {
    if p256verify_active(spec) {
        table.insert(p256verify_address(), Contract::P256Verify)
    } else {
        table
    }
}

/// Builds execution environments that differ from the base factory's in one
/// precompiled contract.
#[derive(Debug, Clone, Copy)]
#[non_exhaustive]
pub struct CustomEvmFactory;

impl Default for CustomEvmFactory {
    fn default() -> (factory: Self)
        ensures
            factory == CustomEvmFactory,
    {
        CustomEvmFactory
    }
}

impl CustomEvmFactory {
    /// Applies the customization step to the table of a freshly built
    /// environment whose configuration holds the protocol version `spec`.
    ///
    /// From Prague on, the table afterwards holds the P-256 signature check at
    /// its address and every other contract as before. Under an earlier
    /// version the table is left as it is.
    pub fn customize_evm(&self, spec: SpecId, precompiles: &mut PrecompilesMap)
        ensures
            installed(*final(precompiles)) == customized(installed(*old(precompiles)), spec),
            !p256verify_active(spec) ==> *final(precompiles) == *old(precompiles),
    {
        if is_p256verify_active(spec) {
            let address = p256verify_address_bytes();
            install_p256verify(precompiles, &address);
        }
    }
}

/// Under a version before the threshold the customization step changes
/// nothing: a table without a contract at the address of the signature check
/// still has none there.
pub proof fn lemma_inactive_version_changes_nothing(table: Map<Seq<u8>, Contract>, spec: SpecId)
    requires
        !p256verify_active(spec),
    ensures
        customized(table, spec) == table,
        customized(table, spec).dom().contains(p256verify_address()) == table.dom().contains(
            p256verify_address(),
        ),
{
}

/// From the threshold version on the customized table holds the signature
/// check at its address, whatever stood there before, and its addresses are
/// those of the table before together with that one.
pub proof fn lemma_active_version_installs(table: Map<Seq<u8>, Contract>, spec: SpecId)
    requires
        p256verify_active(spec),
    ensures
        customized(table, spec).dom().contains(p256verify_address()),
        customized(table, spec)[p256verify_address()] == Contract::P256Verify,
        customized(table, spec).dom() == table.dom().insert(p256verify_address()),
{
    assert(customized(table, spec).dom() =~= table.dom().insert(p256verify_address()));
}

/// From the threshold version on, a call of the contract at the address of
/// the signature check with enough gas charges the fee, and on a signature
/// that verifies it answers with the success word.
pub proof fn lemma_installed_contract_verifies(
    table: Map<Seq<u8>, Contract>,
    spec: SpecId,
    input: Seq<u8>,
    gas_limit: u64,
)
    requires
        p256verify_active(spec),
        gas_limit >= P256VERIFY_GAS,
    ensures
        answer(customized(table, spec)[p256verify_address()], input, gas_limit) == Some(
            p256_verify_spec(input, gas_limit),
        ),
        p256_signature_valid(input) ==> p256_verify_spec(input, gas_limit) == Ok::<
            (u64, Seq<u8>),
            PrecompileFailure,
        >((P256VERIFY_GAS, success_word())),
        !p256_signature_valid(input) ==> p256_verify_spec(input, gas_limit) == Ok::<
            (u64, Seq<u8>),
            PrecompileFailure,
        >((P256VERIFY_GAS, Seq::<u8>::empty())),
{
}

/// The customization step disturbs no other contract: at every address but
/// that of the signature check the table holds what it held before.
pub proof fn lemma_other_contracts_stay(
    table: Map<Seq<u8>, Contract>,
    spec: SpecId,
    address: Seq<u8>,
)
    requires
        address != p256verify_address(),
    ensures
        customized(table, spec).dom().contains(address) == table.dom().contains(address),
        table.dom().contains(address) ==> customized(table, spec)[address] == table[address],
{
}

/// Applying the customization step twice gives the table that applying it
/// once gives.
pub proof fn lemma_customization_is_idempotent(table: Map<Seq<u8>, Contract>, spec: SpecId)
    ensures
        customized(customized(table, spec), spec) == customized(table, spec),
{
    assert(customized(customized(table, spec), spec) =~= customized(table, spec));
}

/// Builds the executor of a node.
#[derive(Debug, Clone, Copy)]
#[non_exhaustive]
pub struct CustomExecutorBuilder;

impl Default for CustomExecutorBuilder {
    fn default() -> (builder: Self)
        ensures
            builder == CustomExecutorBuilder,
    {
        CustomExecutorBuilder
    }
}

impl CustomExecutorBuilder {
    /// The factory with which the EVM configuration of the executor is built.
    pub fn evm_factory(&self) -> (factory: CustomEvmFactory)
        ensures
            factory == CustomEvmFactory,
    {
        CustomEvmFactory
    }
}

/// The node type: an Ethereum node whose executor comes from
/// [`CustomExecutorBuilder`].
#[derive(Debug, Clone, Copy)]
#[non_exhaustive]
pub struct CustomNode;

impl Default for CustomNode {
    fn default() -> (node: Self)
        ensures
            node == CustomNode,
    {
        CustomNode
    }
}

impl CustomNode {
    /// The builder that takes the place of the standard executor builder among
    /// the node's components.
    pub fn executor_builder(&self) -> (builder: CustomExecutorBuilder)
        ensures
            builder == CustomExecutorBuilder,
    {
        CustomExecutorBuilder
    }
}

} // verus!
