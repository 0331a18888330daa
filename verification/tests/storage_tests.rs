use starknet_hashing::core_types::{ContractAddress, PatriciaKey, StorageKey, TransactionHash};
use starknet_hashing::felt::Felt;
use starknet_hashing::hash_agg_log::{self, combined_hash_stats, CacheStatsSnapshot, HashAggTotals};
use starknet_hashing::storage_agg::{
    enabled, record_backend_read, record_cached_state_read, record_cached_state_write,
    record_layered_read, reset, snapshot, switch_turns_on, StorageAgg, StorageAggSnapshot,
};
use starknet_hashing::storage_agg_log::{self, reset_for_tx};

fn address(v: u128) -> ContractAddress {
    ContractAddress(PatriciaKey(Felt::from_u128(v)))
}

fn key(v: u128) -> StorageKey {
    StorageKey(PatriciaKey(Felt::from_u128(v)))
}

#[test]
fn storage_aggregation_counts_reads_writes_and_cells() {
    let mut agg = StorageAgg::new(true);
    assert!(enabled(&agg));
    record_cached_state_read(&mut agg, address(1), key(1), true, 5);
    record_cached_state_read(&mut agg, address(1), key(1), false, 6);
    record_cached_state_read(&mut agg, address(1), key(2), false, 7);
    record_cached_state_write(&mut agg, address(2), key(1), 3);
    record_cached_state_write(&mut agg, address(2), key(1), 3);
    record_layered_read(&mut agg, address(3), key(3), true, 1);
    record_backend_read(&mut agg, address(4), key(4), 2);
    record_backend_read(&mut agg, address(5), key(4), 2);
    let s = snapshot(&agg);
    assert_eq!(
        s,
        StorageAggSnapshot {
            cached_state_reads_total: 3,
            cached_state_cache_hits: 1,
            cached_state_cache_misses: 2,
            cached_state_unique_reads: 2,
            cached_state_writes_total: 2,
            cached_state_unique_writes: 1,
            cached_state_read_us: 18,
            cached_state_write_us: 6,
            layered_reads_total: 1,
            layered_cache_hits: 1,
            layered_cache_misses: 0,
            layered_unique_reads: 1,
            layered_read_us: 1,
            backend_reads_total: 2,
            backend_unique_reads: 2,
            backend_read_us: 4,
        }
    );
    reset(&mut agg);
    assert_eq!(snapshot(&agg), StorageAggSnapshot::default());
}

#[test]
fn storage_aggregation_off_records_nothing() {
    let mut agg = StorageAgg::new(false);
    assert!(!enabled(&agg));
    record_cached_state_read(&mut agg, address(1), key(1), true, 5);
    record_backend_read(&mut agg, address(1), key(1), 5);
    assert_eq!(snapshot(&agg), StorageAggSnapshot::default());
    assert_eq!(agg.stats.cached_state_reads_total, 0);
    assert!(storage_agg_log::log_for_tx(&agg, TransactionHash(Felt::from_u128(1)), "ok").is_none());
}

#[test]
fn storage_times_are_held_at_the_maximum() {
    let mut agg = StorageAgg::new(true);
    record_layered_read(&mut agg, address(1), key(1), false, u64::MAX);
    record_layered_read(&mut agg, address(1), key(1), false, 10);
    let s = snapshot(&agg);
    assert_eq!(s.layered_read_us, u64::MAX);
    assert_eq!(s.layered_cache_misses, 2);
    assert_eq!(s.layered_unique_reads, 1);
}

#[test]
fn storage_switch_text() {
    assert!(switch_turns_on(Some("1")));
    assert!(switch_turns_on(Some("true")));
    assert!(switch_turns_on(Some("TRUE")));
    assert!(switch_turns_on(Some("TrUe")));
    assert!(!switch_turns_on(Some("0")));
    assert!(!switch_turns_on(Some("yes")));
    assert!(!switch_turns_on(Some("true ")));
    assert!(!switch_turns_on(Some("11")));
    assert!(!switch_turns_on(Some("")));
    assert!(!switch_turns_on(None));
}

#[test]
fn storage_log_reports_totals() {
    let mut agg = StorageAgg::new(true);
    record_cached_state_read(&mut agg, address(1), key(1), true, 1);
    record_layered_read(&mut agg, address(1), key(2), true, 1);
    record_layered_read(&mut agg, address(1), key(3), true, 1);
    record_backend_read(&mut agg, address(1), key(4), 1);
    record_cached_state_write(&mut agg, address(1), key(5), 1);
    let tx = TransactionHash(Felt::from_u128(9));
    let log = storage_agg_log::log_for_tx(&agg, tx, "reverted").unwrap();
    assert_eq!(log.tx_hash, tx);
    assert_eq!(log.outcome, "reverted");
    assert_eq!(log.total_unique_reads, 4);
    assert_eq!(log.total_unique_writes, 1);
    assert_eq!(log.stats.layered_unique_reads, 2);
    reset_for_tx(&mut agg);
    assert_eq!(snapshot(&agg), StorageAggSnapshot::default());
    assert!(storage_agg_log::enabled(&agg));
}

fn totals(v: u64) -> HashAggTotals {
    HashAggTotals {
        pedersen_calls: v,
        pedersen_hits: v,
        pedersen_misses: v,
        pedersen_inputs: v,
        poseidon_calls: v,
        poseidon_inputs: v,
        sn_keccak_calls: v,
        sn_keccak_hits: v,
        sn_keccak_misses: v,
        sn_keccak_inputs: v,
    }
}

#[test]
fn hash_totals_combine_with_saturation() {
    assert_eq!(combined_hash_stats(totals(3), None), totals(3));
    assert_eq!(combined_hash_stats(totals(3), Some(totals(4))), totals(7));
    assert_eq!(combined_hash_stats(totals(u64::MAX), Some(totals(1))), totals(u64::MAX));
}

#[test]
fn hash_log_reports_totals() {
    let tx = TransactionHash(Felt::from_u128(2));
    let cache = CacheStatsSnapshot { reads_total: 5, cache_hits: 3, cache_misses: 2 };
    assert!(hash_agg_log::log_for_tx(false, tx, "ok", totals(1), None, cache).is_none());
    let log = hash_agg_log::log_for_tx(true, tx, "ok", totals(1), Some(totals(2)), cache).unwrap();
    assert_eq!(log.hash_stats, totals(3));
    assert_eq!(log.total_unique, 9);
    assert_eq!(log.cache_stats, cache);
    assert_eq!(log.outcome, "ok");
    let big = hash_agg_log::log_for_tx(true, tx, "ok", totals(u64::MAX), None, cache).unwrap();
    assert_eq!(big.total_unique, u64::MAX);
}
