//! Chain-level summary data as reported by an EOSIO node's `get_info` call.

use vstd::prelude::*;

verus! {

/// A node's answer to a chain-info query. Identifiers are carried as the
/// hex strings the node reports; times are seconds since the epoch. The
/// reader does not consume this record; callers use it to learn about the
/// node they are about to stream from.
#[derive(Debug, PartialEq, Eq)]
pub struct ChainInfo {
    pub server_version: String,
    pub chain_id: String,
    pub head_block_num: i64,
    pub last_irreversible_block_num: i64,
    pub last_irreversible_block_id: String,
    pub head_block_id: String,
    pub head_block_time: i64,
    pub head_block_producer: String,
    pub virtual_block_cpu_limit: i64,
    pub virtual_block_net_limit: i64,
    pub block_cpu_limit: i64,
    pub block_net_limit: i64,
    pub server_version_string: String,
}

} // verus!
