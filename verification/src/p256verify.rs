//! The P-256 signature check as a precompiled contract: what a call costs and
//! what it answers.
//!
//! The elliptic-curve arithmetic is done by the precompile crate of the EVM.
//! This module states what a call into it returns and gives that result in
//! plain values.

use alloy_evm::revm::precompile::secp256r1;
use alloy_evm::revm::precompile::PrecompileHalt;
use vstd::prelude::*;

verus! {

/// Gas that one signature check costs, whatever the input.
pub const P256VERIFY_GAS: u64 = 3450;

/// Length of a well-formed input: the message hash, the signature's `r` and
/// `s`, and the public key's `x` and `y`, 32 bytes each.
pub const P256VERIFY_INPUT_LEN: usize = 160;

/// Length of the answer to a signature that verifies.
pub const P256VERIFY_OUTPUT_LEN: usize = 32;

/// What a precompiled contract hands back when the call went through.
#[derive(Clone, Debug, PartialEq, Eq)]
pub struct PrecompileOutput {
    /// Gas that the call consumed.
    pub gas_used: u64,
    /// The bytes that the caller receives.
    pub bytes: Vec<u8>,
}

impl View for PrecompileOutput {
    type V = (u64, Seq<u8>);

    open spec fn view(&self) -> (u64, Seq<u8>) {
        (self.gas_used, self.bytes@)
    }
}

/// Why a call of the signature check did not go through.
#[derive(Clone, Copy, Debug, PartialEq, Eq, Structural)]
pub enum PrecompileFailure {
    /// The gas limit of the call is below the cost of the check.
    OutOfGas,
}

/// The answer to a signature that verifies: the number one as a 32-byte
/// big-endian word.
pub open spec fn success_word() -> Seq<u8> {
    Seq::new(P256VERIFY_OUTPUT_LEN as nat, |i: int| if i == 31 { 1u8 } else { 0u8 })
}

/// The bytes that answer a check: the success word, or nothing.
pub open spec fn verification_output(valid: bool) -> Seq<u8> {
    if valid {
        success_word()
    } else {
        Seq::empty()
    }
}

/// Whether the signature `signature` (`r`, then `s`) over the message hash
/// `hash` verifies under the public key `public_key` (`x`, then `y`) on the
/// curve P-256, as the signature check of the precompile crate decides it.
pub uninterp spec fn secp256r1_signature_verifies(
    hash: Seq<u8>,
    signature: Seq<u8>,
    public_key: Seq<u8>,
) -> bool;

/// Whether `input` is a message hash, a signature and a public key, in this
/// order and of 32, 64 and 64 bytes, such that the signature verifies.
pub open spec fn p256_signature_valid(input: Seq<u8>) -> bool {
    &&& input.len() == P256VERIFY_INPUT_LEN
    &&& secp256r1_signature_verifies(
        input.subrange(0, 32),
        input.subrange(32, 96),
        input.subrange(96, 160),
    )
}

/// What a call of the signature check returns, as a function of the input, of
/// the gas limit and of what the signature check decides.
pub open spec fn p256_verify_spec(input: Seq<u8>, gas_limit: u64) -> Result<
    (u64, Seq<u8>),
    PrecompileFailure,
> {
    if gas_limit < P256VERIFY_GAS {
        Err(PrecompileFailure::OutOfGas)
    } else {
        Ok((P256VERIFY_GAS, verification_output(p256_signature_valid(input))))
    }
}

/// The view of a call's result.
pub open spec fn result_view(result: Result<PrecompileOutput, PrecompileFailure>) -> Result<
    (u64, Seq<u8>),
    PrecompileFailure,
> {
    match result {
        Ok(output) => Ok(output@),
        Err(failure) => Err(failure),
    }
}

/// Declares the precompile crate's type of the reasons for which a
/// precompiled contract halts. Nothing of its contents is used.
#[verifier::external_type_specification]
#[verifier::external_body]
pub struct ExPrecompileHalt(PrecompileHalt);

/// Calls `revm_precompile::secp256r1::p256_verify` and hands back the gas used
/// and the output bytes.
///
/// The contract repeats what that function's source shows. It fails only when
/// the gas limit is below the fee of 3450. Otherwise it charges exactly the
/// fee. It returns the 32-byte word one where the input is 160 bytes long and
/// its signature check accepts the first 32 bytes as the message hash, the
/// next 64 as the signature and the last 64 as the public key; it returns no
/// bytes on every other input. The signature check goes through the crate's
/// crypto provider, which is the built-in P-256 implementation unless the
/// program installs another one; this library installs none.
#[verifier::external_body]
fn revm_p256_verify(input: &[u8], gas_limit: u64) -> (r: Result<(u64, Vec<u8>), PrecompileHalt>)
    ensures
        r is Err <==> gas_limit < P256VERIFY_GAS,
        r matches Ok((gas_used, bytes)) ==> gas_used == P256VERIFY_GAS && bytes@
            == verification_output(
            input@.len() == P256VERIFY_INPUT_LEN && secp256r1_signature_verifies(
                input@.subrange(0, 32),
                input@.subrange(32, 96),
                input@.subrange(96, 160),
            ),
        ),
{
    match secp256r1::p256_verify(input, gas_limit) {
        Ok(output) => Ok((output.gas_used, output.bytes.to_vec())),
        Err(halt) => Err(halt),
    }
}

/// Verifies a P-256 signature as a precompiled contract does.
///
/// `input` is the message hash, the signature's `r` and `s`, and the public
/// key's `x` and `y`, 32 bytes each. With too little gas the call fails.
/// Otherwise it consumes exactly [`P256VERIFY_GAS`] and answers with the
/// success word where the signature verifies and with no bytes where it does
/// not. An input of another length, a point off the curve or a wrong signature
/// is answered with no bytes: it is a result, not a failure of the call.
pub fn p256_verify(input: &[u8], gas_limit: u64) -> (result: Result<
    PrecompileOutput,
    PrecompileFailure,
>)
    ensures
        result_view(result) == p256_verify_spec(input@, gas_limit),
        result is Err <==> gas_limit < P256VERIFY_GAS,
        result matches Ok(output) ==> output.gas_used == P256VERIFY_GAS && (output.bytes@
            == success_word() || output.bytes@ == Seq::<u8>::empty()),
        result matches Ok(output) ==> (input@.len() != P256VERIFY_INPUT_LEN ==> output.bytes@
            == Seq::<u8>::empty()),
{
    match revm_p256_verify(input, gas_limit) {
        Ok((gas_used, bytes)) => Ok(PrecompileOutput { gas_used, bytes }),
        Err(_) => Err(PrecompileFailure::OutOfGas),
    }
}

/// With enough gas every input gets an answer: the call charges exactly the
/// fee, and its bytes are the success word where the signature verifies and
/// empty where it does not.
pub proof fn lemma_every_input_is_answered(input: Seq<u8>, gas_limit: u64)
    requires
        gas_limit >= P256VERIFY_GAS,
    ensures
        p256_verify_spec(input, gas_limit) matches Ok((gas_used, bytes)) && gas_used
            == P256VERIFY_GAS && (p256_signature_valid(input) ==> bytes == success_word())
            && (!p256_signature_valid(input) ==> bytes == Seq::<u8>::empty()),
{
}

/// The gas limit decides alone whether a call goes through: the input never
/// makes it fail.
pub proof fn lemma_failure_is_out_of_gas(input: Seq<u8>, gas_limit: u64)
    ensures
        p256_verify_spec(input, gas_limit) is Err <==> gas_limit < P256VERIFY_GAS,
        p256_verify_spec(input, gas_limit) is Err ==> p256_verify_spec(input, gas_limit) == Err::<
            (u64, Seq<u8>),
            PrecompileFailure,
        >(PrecompileFailure::OutOfGas),
{
}

/// An input of another length than 160 bytes never verifies.
pub proof fn lemma_wrong_length_is_rejected(input: Seq<u8>, gas_limit: u64)
    requires
        input.len() != P256VERIFY_INPUT_LEN,
        gas_limit >= P256VERIFY_GAS,
    ensures
        !p256_signature_valid(input),
        p256_verify_spec(input, gas_limit) == Ok::<(u64, Seq<u8>), PrecompileFailure>(
            (P256VERIFY_GAS, Seq::<u8>::empty()),
        ),
{
}

/// The success word is 31 zero bytes followed by a one, so it differs from the
/// empty answer.
pub proof fn lemma_success_word(i: int)
    requires
        0 <= i < 32,
    ensures
        success_word().len() == 32,
        success_word()[i] == (if i == 31 { 1u8 } else { 0u8 }),
        success_word() != Seq::<u8>::empty(),
{
    assert(success_word().len() != Seq::<u8>::empty().len());
}

} // verus!
