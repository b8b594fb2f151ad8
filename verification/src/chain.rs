//! The chain interface: the capability through which blocks are obtained.

use vstd::prelude::*;
use crate::action::Block;

verus! {

/// A failure of the chain interface: a transient transport failure, a
/// malformed response, or a block that the chain does not have.
#[derive(Clone, Copy, Debug, PartialEq, Eq)]
pub enum ChainError {
    NetworkError,
    DecodeError,
    NotFound,
}

/// The capability that supplies the current head block number and arbitrary
/// blocks by number. Both operations are read-only and idempotent from the
/// reader's point of view; no ordering is assumed between successive calls.
///
/// Implementations live outside the library: an HTTP client against a chain
/// node, or a scripted chain in tests. The reader assumes nothing of an
/// implementation's answers — every fetched block is validated before it is
/// adopted — so the trait's methods carry no contract.
pub trait ChainInterface {
    /// The chain's current head block number; when `only_irreversible` is
    /// set, the most recent irreversible block number instead.
    fn get_head_block_number(&self, only_irreversible: bool) -> Result<i64, ChainError>;

    /// The block that the chain currently reports at `block_number`.
    fn get_block(&self, block_number: i64) -> Result<Block, ChainError>;
}

} // verus!
