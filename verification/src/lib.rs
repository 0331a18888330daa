//! Hash computation, hash memoization and execution metrics for Starknet
//! transaction execution, with their behaviour stated and proved.

pub mod abi_utils;
pub mod clock;
pub mod counters;
pub mod felt;
pub mod core_types;
pub mod hardcoded_constants;
pub mod hash;
pub mod hash_cache;
pub mod hash_metrics;
pub mod primitives;
pub mod timing;
pub mod storage_agg;
pub mod storage_agg_log;
pub mod hash_agg_log;
