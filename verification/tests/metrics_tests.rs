use starknet_hashing::hash_metrics::{
    hash_timing_enabled, record_pedersen, record_sn_keccak, start_hash_timing, stop_hash_timing,
    HashMetrics, HashTimingState,
};
use starknet_hashing::timing::{
    record_cairo_keccak, record_state_read, record_state_write, start_timing, stop_timing,
    timing_enabled, timing_logs_enabled, NativeHashTiming, TimingState,
};

#[test]
fn hash_timing_counts_between_start_and_stop() {
    let mut m = HashTimingState::new();
    assert!(!hash_timing_enabled(&m));
    record_sn_keccak(&mut m, 10);
    start_hash_timing(&mut m);
    assert!(hash_timing_enabled(&m));
    record_sn_keccak(&mut m, 10);
    record_sn_keccak(&mut m, 5);
    record_pedersen(&mut m, 7);
    let got = stop_hash_timing(&mut m);
    assert_eq!(
        got,
        HashMetrics { sn_keccak_us: 15, sn_keccak_calls: 2, pedersen_us: 7, pedersen_calls: 1 }
    );
    assert!(!hash_timing_enabled(&m));
    record_pedersen(&mut m, 7);
    assert_eq!(stop_hash_timing(&mut m), HashMetrics::default());
}

#[test]
fn hash_timing_counters_wrap() {
    let mut m = HashTimingState::new();
    start_hash_timing(&mut m);
    record_pedersen(&mut m, u64::MAX);
    record_pedersen(&mut m, 3);
    let got = stop_hash_timing(&mut m);
    assert_eq!(got.pedersen_us, 2);
    assert_eq!(got.pedersen_calls, 2);
}

#[test]
fn a_start_clears_earlier_figures() {
    let mut m = HashTimingState::new();
    start_hash_timing(&mut m);
    record_sn_keccak(&mut m, 9);
    start_hash_timing(&mut m);
    assert_eq!(stop_hash_timing(&mut m), HashMetrics::default());
}

#[test]
fn timing_reports_all_figures() {
    let mut t = TimingState::new();
    let mut h = HashTimingState::new();
    record_state_read(&mut t, 100);
    start_timing(&mut t, &mut h);
    assert!(timing_enabled(&t));
    assert!(hash_timing_enabled(&h));
    record_state_read(&mut t, 3);
    record_state_read(&mut t, 4);
    record_state_write(&mut t, 5);
    record_cairo_keccak(&mut t, (1u128 << 64) + 6);
    record_sn_keccak(&mut h, 8);
    record_pedersen(&mut h, 9);
    let native = NativeHashTiming {
        pedersen_hash_us: u64::MAX,
        pedersen_calls: 4,
        poseidon_hash_us: 11,
        poseidon_calls: 12,
    };
    let r = stop_timing(&mut t, &mut h, Some(native));
    assert_eq!(r.state_read_us, 7);
    assert_eq!(r.state_read_calls, 2);
    assert_eq!(r.state_write_us, 5);
    assert_eq!(r.state_write_calls, 1);
    assert_eq!(r.hash_cairo_keccak_us, 6);
    assert_eq!(r.hash_cairo_keccak_calls, 1);
    assert_eq!(r.hash_sn_keccak_us, 8);
    assert_eq!(r.hash_sn_keccak_calls, 1);
    assert_eq!(r.hash_pedersen_us, u64::MAX);
    assert_eq!(r.hash_pedersen_calls, 5);
    assert_eq!(r.hash_poseidon_us, 11);
    assert_eq!(r.hash_poseidon_calls, 12);
    assert!(!timing_enabled(&t));
    assert!(!hash_timing_enabled(&h));
}

#[test]
fn timing_without_native_reports_zero_poseidon() {
    let mut t = TimingState::new();
    let mut h = HashTimingState::new();
    start_timing(&mut t, &mut h);
    record_pedersen(&mut h, 2);
    let r = stop_timing(&mut t, &mut h, None);
    assert_eq!(r.hash_pedersen_us, 2);
    assert_eq!(r.hash_pedersen_calls, 1);
    assert_eq!(r.hash_poseidon_us, 0);
    assert_eq!(r.hash_poseidon_calls, 0);
    assert_eq!(r.state_read_calls, 0);
    let again = stop_timing(&mut t, &mut h, None);
    assert_eq!(again.hash_pedersen_calls, 0);
}

#[test]
fn timing_logs_are_off() {
    assert!(!timing_logs_enabled());
}
