//! An Ethereum node with one more precompiled contract: the verification of
//! P-256 signatures, part of every execution environment from Prague on.
//!
//! `node` holds the factory's customization step, `precompiles` the table it
//! works on, `p256verify` the contract itself, `hardfork` the order of
//! protocol versions, and `chainspec` the facade over a chain configuration.

pub mod chainspec;
pub mod hardfork;
pub mod node;
pub mod p256verify;
pub mod precompiles;
