//! A reorg-aware reader for a blockchain's sequential blocks.
//!
//! The reader polls a chain interface for blocks, validates each fetched
//! block against the hash chain it has already delivered, rolls back through
//! a bounded history window when the chain reorganizes, and hands every
//! delivered block to the caller together with rollback information.

pub mod action;
pub mod chain;
pub mod eosio;
pub mod reader;
