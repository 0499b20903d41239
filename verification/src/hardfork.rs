//! The order of protocol versions and the activation threshold on it.
//!
//! A protocol version is the EVM crate's `SpecId`. Its variants are declared
//! in the order in which the versions came into force, so a version's
//! discriminant is its place in that order.

use alloy_evm::revm::primitives::hardfork::SpecId;
use vstd::prelude::*;

verus! {

/// Declares the EVM crate's protocol-version tag. Its variants and their
/// discriminants are read from the crate itself; nothing is assumed of them.
#[verifier::external_type_specification]
pub struct ExSpecId(SpecId);

/// The place of a version in the order of protocol versions.
pub open spec fn spec_rank(spec: SpecId) -> int {
    spec as u8 as int
}

/// Whether `spec` is `threshold` or a later version.
pub open spec fn at_or_after(spec: SpecId, threshold: SpecId) -> bool {
    spec_rank(spec) >= spec_rank(threshold)
}

/// Whether the P-256 signature check is part of the protocol version `spec`:
/// from Prague on.
pub open spec fn p256verify_active(spec: SpecId) -> bool {
    at_or_after(spec, SpecId::PRAGUE)
}

/// Compares two protocol versions: `true` where `spec` is `threshold` or came
/// after it.
pub fn is_at_or_after(spec: SpecId, threshold: SpecId) -> (r: bool)
    ensures
        r == at_or_after(spec, threshold),
{
    spec as u8 >= threshold as u8
}

/// Decides whether an environment under the protocol version `spec` gets the
/// P-256 signature check. This is the one place where a version is compared
/// with the threshold.
pub fn is_p256verify_active(spec: SpecId) -> (active: bool)
    ensures
        active == p256verify_active(spec),
{
    is_at_or_after(spec, SpecId::PRAGUE)
}

/// The comparison of versions is a total order: every version is at or after
/// itself, of two versions one is at or after the other, two versions that are
/// each at or after the other are the same, and the relation is transitive.
pub proof fn lemma_version_order_is_total(a: SpecId, b: SpecId, c: SpecId)
    ensures
        at_or_after(a, a),
        at_or_after(a, b) || at_or_after(b, a),
        at_or_after(a, b) && at_or_after(b, a) ==> a == b,
        at_or_after(a, b) && at_or_after(b, c) ==> at_or_after(a, c),
{
}

/// A version after an active one is active, and a version before an inactive
/// one is inactive: there is one threshold.
pub proof fn lemma_activation_is_monotonic(earlier: SpecId, later: SpecId)
    requires
        at_or_after(later, earlier),
    ensures
        p256verify_active(earlier) ==> p256verify_active(later),
        !p256verify_active(later) ==> !p256verify_active(earlier),
{
}

/// The threshold is inclusive: Prague itself is active, and Cancun, the
/// version before it, is not.
pub proof fn lemma_threshold_is_inclusive()
    ensures
        p256verify_active(SpecId::PRAGUE),
        !p256verify_active(SpecId::CANCUN),
        spec_rank(SpecId::CANCUN) + 1 == spec_rank(SpecId::PRAGUE),
{
}

} // verus!
