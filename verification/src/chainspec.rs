//! The facade over a chain configuration.
//!
//! The facade wraps one authoritative configuration. Every query about the
//! chain is answered by that configuration itself, which the facade hands
//! out; the one answer the facade gives on its own is the base fee of the next
//! block, which on this chain is always zero.

use vstd::prelude::*;

verus! {

/// A chain configuration behind the facade.
#[derive(Debug, Clone)]
pub struct CustomChainSpec<C> {
    inner: C,
}

impl<C> View for CustomChainSpec<C> {
    type V = C;

    /// The configuration that the facade wraps.
    closed spec fn view(&self) -> C {
        self.inner
    }
}

impl<C> CustomChainSpec<C> {
    /// Wraps the authoritative configuration.
    pub fn new(inner: C) -> (facade: Self)
        ensures
            facade@ == inner,
    {
        CustomChainSpec { inner }
    }

    /// The wrapped configuration, to which every query but the one for the
    /// next block's base fee goes.
    pub fn inner(&self) -> (inner: &C)
        ensures
            *inner == self@,
    {
        &self.inner
    }

    /// The base fee of the block that follows the parent header and carries
    /// the target timestamp: zero, whatever the two are and whatever the
    /// wrapped configuration would compute.
    pub fn next_block_base_fee<H>(&self, _parent: &H, _target_timestamp: u64) -> (fee: Option<
        u64,
    >)
        ensures
            fee == Some(0u64),
    {
        Some(0)
    }
}

/// Turns the outcome of the authoritative parser into a configuration behind
/// the facade.
#[derive(Debug, Clone, Copy)]
#[non_exhaustive]
pub struct CustomChainSpecParser;

impl Default for CustomChainSpecParser {
    fn default() -> (parser: Self)
        ensures
            parser == CustomChainSpecParser,
    {
        CustomChainSpecParser
    }
}

impl CustomChainSpecParser {
    /// Finishes a parse: the configuration that the authoritative parser made
    /// of the input is put behind the facade, and its error is handed on
    /// unchanged.
    pub fn parse<C, E>(parsed: Result<C, E>) -> (result: Result<CustomChainSpec<C>, E>)
        ensures
            match parsed {
                Ok(inner) => result matches Ok(facade) && facade@ == inner,
                Err(error) => result == Err::<CustomChainSpec<C>, E>(error),
            },
    {
        match parsed {
            Ok(inner) => Ok(CustomChainSpec::new(inner)),
            Err(error) => Err(error),
        }
    }
}

} // verus!
