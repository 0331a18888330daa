//! The per-transaction hash report: hash figures of the execution, those
//! of a native executor where one runs, and the state cache's figures.

use vstd::prelude::*;

use crate::core_types::TransactionHash;
use crate::counters::{capped, saturated_sum};

verus! {

/// Hash figures of one transaction: calls, cache hits and misses, and
/// distinct inputs, per hash kind.
#[derive(Clone, Copy, Debug, PartialEq, Eq, Structural)]
pub struct HashAggTotals {
    pub pedersen_calls: u64,
    pub pedersen_hits: u64,
    pub pedersen_misses: u64,
    pub pedersen_inputs: u64,
    pub poseidon_calls: u64,
    pub poseidon_inputs: u64,
    pub sn_keccak_calls: u64,
    pub sn_keccak_hits: u64,
    pub sn_keccak_misses: u64,
    pub sn_keccak_inputs: u64,
}

/// Figures of the state cache over one transaction.
#[derive(Clone, Copy, Debug, PartialEq, Eq, Structural)]
pub struct CacheStatsSnapshot {
    pub reads_total: u64,
    pub cache_hits: u64,
    pub cache_misses: u64,
}

/// Two sets of hash figures added field by field, each held at
/// `u64::MAX`.
pub open spec fn totals_sum(a: HashAggTotals, b: HashAggTotals) -> HashAggTotals {
    HashAggTotals {
        pedersen_calls: saturated_sum(a.pedersen_calls, b.pedersen_calls),
        pedersen_hits: saturated_sum(a.pedersen_hits, b.pedersen_hits),
        pedersen_misses: saturated_sum(a.pedersen_misses, b.pedersen_misses),
        pedersen_inputs: saturated_sum(a.pedersen_inputs, b.pedersen_inputs),
        poseidon_calls: saturated_sum(a.poseidon_calls, b.poseidon_calls),
        poseidon_inputs: saturated_sum(a.poseidon_inputs, b.poseidon_inputs),
        sn_keccak_calls: saturated_sum(a.sn_keccak_calls, b.sn_keccak_calls),
        sn_keccak_hits: saturated_sum(a.sn_keccak_hits, b.sn_keccak_hits),
        sn_keccak_misses: saturated_sum(a.sn_keccak_misses, b.sn_keccak_misses),
        sn_keccak_inputs: saturated_sum(a.sn_keccak_inputs, b.sn_keccak_inputs),
    }
}

/// The hash figures of a transaction: those of the execution, with those
/// of the native executor added where one runs.
pub open spec fn combined_spec(api: HashAggTotals, native: Option<HashAggTotals>) -> HashAggTotals {
    match native {
        Some(n) => totals_sum(api, n),
        None => api,
    }
}

/// The distinct inputs of all three hash kinds, added and held at
/// `u64::MAX`.
pub open spec fn total_unique_of(t: HashAggTotals) -> u64 {
    saturated_sum(saturated_sum(t.pedersen_inputs, t.poseidon_inputs), t.sn_keccak_inputs)
}

/// Combines the execution's hash figures with those of a native executor,
/// where one ran.
pub fn combined_hash_stats(api: HashAggTotals, native: Option<HashAggTotals>) -> (totals:
    HashAggTotals)
    ensures
        totals == combined_spec(api, native),
        match native {
            Some(n) => {
                &&& totals.pedersen_calls == capped((api.pedersen_calls + n.pedersen_calls) as nat)
                &&& totals.pedersen_hits == capped((api.pedersen_hits + n.pedersen_hits) as nat)
                &&& totals.pedersen_misses == capped((api.pedersen_misses + n.pedersen_misses) as nat)
                &&& totals.pedersen_inputs == capped((api.pedersen_inputs + n.pedersen_inputs) as nat)
                &&& totals.poseidon_calls == capped((api.poseidon_calls + n.poseidon_calls) as nat)
                &&& totals.poseidon_inputs == capped((api.poseidon_inputs + n.poseidon_inputs) as nat)
                &&& totals.sn_keccak_calls == capped((api.sn_keccak_calls + n.sn_keccak_calls) as nat)
                &&& totals.sn_keccak_hits == capped((api.sn_keccak_hits + n.sn_keccak_hits) as nat)
                &&& totals.sn_keccak_misses == capped((api.sn_keccak_misses + n.sn_keccak_misses) as nat)
                &&& totals.sn_keccak_inputs == capped((api.sn_keccak_inputs + n.sn_keccak_inputs) as nat)
            },
            None => totals == api,
        },
{
    let mut totals = api;
    match native {
        Some(n) => {
            totals.pedersen_calls = totals.pedersen_calls.saturating_add(n.pedersen_calls);
            totals.pedersen_hits = totals.pedersen_hits.saturating_add(n.pedersen_hits);
            totals.pedersen_misses = totals.pedersen_misses.saturating_add(n.pedersen_misses);
            totals.pedersen_inputs = totals.pedersen_inputs.saturating_add(n.pedersen_inputs);
            totals.poseidon_calls = totals.poseidon_calls.saturating_add(n.poseidon_calls);
            totals.poseidon_inputs = totals.poseidon_inputs.saturating_add(n.poseidon_inputs);
            totals.sn_keccak_calls = totals.sn_keccak_calls.saturating_add(n.sn_keccak_calls);
            totals.sn_keccak_hits = totals.sn_keccak_hits.saturating_add(n.sn_keccak_hits);
            totals.sn_keccak_misses = totals.sn_keccak_misses.saturating_add(n.sn_keccak_misses);
            totals.sn_keccak_inputs = totals.sn_keccak_inputs.saturating_add(n.sn_keccak_inputs);
        },
        None => {},
    }
    totals
}

/// What is reported of one transaction's hashes.
#[derive(Debug)]
pub struct HashTxLog {
    pub tx_hash: TransactionHash,
    pub outcome: String,
    pub hash_stats: HashAggTotals,
    pub cache_stats: CacheStatsSnapshot,
    /// Distinct hash inputs of all kinds, held at `u64::MAX`.
    pub total_unique: u64,
}

/// The report of the transaction `tx_hash` that ended with `outcome`:
/// nothing while hash aggregation is off (`on` false), else the combined
/// hash figures, the state cache's figures and the distinct-input total.
pub fn log_for_tx(
    on: bool,
    tx_hash: TransactionHash,
    outcome: &str,
    api: HashAggTotals,
    native: Option<HashAggTotals>,
    cache_stats: CacheStatsSnapshot,
) -> (log: Option<HashTxLog>)
    ensures
        !on ==> log.is_none(),
        on ==> (log matches Some(l) && {
            &&& l.tx_hash == tx_hash
            &&& l.outcome@ == outcome@
            &&& l.hash_stats == combined_spec(api, native)
            &&& l.cache_stats == cache_stats
            &&& l.total_unique == total_unique_of(l.hash_stats)
            &&& l.total_unique == capped(
                (l.hash_stats.pedersen_inputs + l.hash_stats.poseidon_inputs
                    + l.hash_stats.sn_keccak_inputs) as nat,
            )
        }),
{
    if !on {
        return None;
    }
    let hash_stats = combined_hash_stats(api, native);
    let total_unique = hash_stats.pedersen_inputs.saturating_add(
        hash_stats.poseidon_inputs,
    ).saturating_add(hash_stats.sn_keccak_inputs);
    Some(HashTxLog { tx_hash, outcome: outcome.to_owned(), hash_stats, cache_stats, total_unique })
}

} // verus!
