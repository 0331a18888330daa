//! The per-transaction storage report: the aggregated figures of one
//! transaction and the totals of distinct cells it touched.

use vstd::prelude::*;

use crate::core_types::TransactionHash;
use crate::counters::{capped, saturated_sum};
use crate::storage_agg::{self, StorageAgg, StorageAggSnapshot};

verus! {

/// What is reported of one transaction's storage accesses.
#[derive(Debug)]
pub struct StorageTxLog {
    pub tx_hash: TransactionHash,
    pub outcome: String,
    pub stats: StorageAggSnapshot,
    /// Distinct cells read through all three layers, held at `u64::MAX`.
    pub total_unique_reads: u64,
    /// Distinct cells written.
    pub total_unique_writes: u64,
}

/// The distinct cells read through all three layers, added and held at
/// `u64::MAX`.
pub open spec fn total_unique_reads_of(stats: StorageAggSnapshot) -> u64 {
    saturated_sum(
        saturated_sum(stats.cached_state_unique_reads, stats.layered_unique_reads),
        stats.backend_unique_reads,
    )
}

/// Whether storage aggregation is switched on.
pub fn enabled(agg: &StorageAgg) -> (on: bool)
    ensures
        on == agg.on,
{
    storage_agg::enabled(agg)
}

/// Starts the figures of a new transaction; nothing happens while
/// aggregation is off.
pub fn reset_for_tx(agg: &mut StorageAgg)
    requires
        old(agg).stats.wf(),
    ensures
        final(agg).on == old(agg).on,
        final(agg).stats.wf(),
        old(agg).on ==> final(agg).stats.is_empty(),
        !old(agg).on ==> final(agg).stats == old(agg).stats,
{
    if !enabled(agg) {
        return ;
    }
    storage_agg::reset(agg);
}

/// The report of the transaction `tx_hash` that ended with `outcome`:
/// nothing while aggregation is off, else its figures and totals.
pub fn log_for_tx(agg: &StorageAgg, tx_hash: TransactionHash, outcome: &str) -> (log: Option<
    StorageTxLog,
>)
    requires
        agg.stats.wf(),
    ensures
        !agg.on ==> log.is_none(),
        agg.on ==> (log matches Some(l) && {
            &&& l.tx_hash == tx_hash
            &&& l.outcome@ == outcome@
            &&& l.stats == agg.stats.snapshot_spec()
            &&& l.total_unique_reads == total_unique_reads_of(l.stats)
            &&& l.total_unique_reads == capped(
                (agg.stats.cached_state_read_keys@.len() + agg.stats.layered_read_keys@.len()
                    + agg.stats.backend_read_keys@.len()) as nat,
            )
            &&& l.total_unique_writes == agg.stats.cached_state_write_keys@.len()
            &&& l.total_unique_writes == l.stats.cached_state_unique_writes
        }),
{
    if !enabled(agg) {
        return None;
    }
    let stats = storage_agg::snapshot(agg);
    let total_unique_reads = stats.cached_state_unique_reads.saturating_add(
        stats.layered_unique_reads,
    ).saturating_add(stats.backend_unique_reads);
    let total_unique_writes = stats.cached_state_unique_writes;
    Some(
        StorageTxLog {
            tx_hash,
            outcome: outcome.to_owned(),
            stats,
            total_unique_reads,
            total_unique_writes,
        },
    )
}

} // verus!
