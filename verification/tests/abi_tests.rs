use starknet_hashing::abi_utils::{
    get_fee_token_var_address, get_storage_var_address, selector_from_name, starknet_keccak,
};
use starknet_hashing::core_types::{ContractAddress, PatriciaKey};
use starknet_hashing::felt::Felt;
use starknet_hashing::hash::starknet_keccak_hash;
use starknet_hashing::hash_cache::{
    pedersen_pair_get, set_hash_cache_enabled, sn_keccak_get, sn_keccak_insert, HashCache,
};
use starknet_hashing::hash_metrics::{start_hash_timing, stop_hash_timing, HashTimingState};

fn transfer_selector() -> Felt {
    Felt::from_hex_unchecked("0x83afd3f4caedc6eebf44246fe54e38c95e3179a5ec9ea81740eca5b482d12e")
}

#[test]
fn starknet_keccak_of_an_entry_point_name() {
    let mut cache = HashCache::new();
    let mut metrics = HashTimingState::new();
    assert_eq!(starknet_keccak(&mut cache, &mut metrics, b"transfer"), transfer_selector());
    assert_eq!(starknet_keccak_hash(&mut cache, &mut metrics, b"transfer"), transfer_selector());
}

#[test]
fn starknet_keccak_keeps_250_bits() {
    let mut cache = HashCache::new();
    let mut metrics = HashTimingState::new();
    for data in [&b""[..], b"a", b"ERC20_balances", b"some longer input that is hashed"] {
        let h = starknet_keccak(&mut cache, &mut metrics, data);
        assert!(h.bytes[0] < 4);
    }
}

#[test]
fn starknet_keccak_is_memoized_and_timed() {
    let mut cache = HashCache::new();
    let mut metrics = HashTimingState::new();
    set_hash_cache_enabled(&mut cache, true);
    start_hash_timing(&mut metrics);
    let first = starknet_keccak(&mut cache, &mut metrics, b"transfer");
    assert_eq!(sn_keccak_get(&cache, b"transfer"), Some(first));
    let second = starknet_keccak(&mut cache, &mut metrics, b"transfer");
    assert_eq!(first, second);
    let m = stop_hash_timing(&mut metrics);
    assert_eq!(m.sn_keccak_calls, 2);
    assert_eq!(m.pedersen_calls, 0);
}

#[test]
fn a_cached_hash_is_returned_as_cached() {
    let mut cache = HashCache::new();
    let mut metrics = HashTimingState::new();
    set_hash_cache_enabled(&mut cache, true);
    sn_keccak_insert(&mut cache, b"transfer", Felt::from_u128(5));
    assert_eq!(starknet_keccak(&mut cache, &mut metrics, b"transfer"), Felt::from_u128(5));
    set_hash_cache_enabled(&mut cache, false);
    assert_eq!(starknet_keccak(&mut cache, &mut metrics, b"transfer"), transfer_selector());
}

#[test]
fn selectors_of_names() {
    let mut cache = HashCache::new();
    let mut metrics = HashTimingState::new();
    assert_eq!(selector_from_name(&mut cache, &mut metrics, "__default__").0, Felt::from_u128(0));
    assert_eq!(selector_from_name(&mut cache, &mut metrics, "__l1_default__").0, Felt::from_u128(0));
    assert_eq!(selector_from_name(&mut cache, &mut metrics, "transfer").0, transfer_selector());
    assert_ne!(selector_from_name(&mut cache, &mut metrics, "__default").0, Felt::from_u128(0));
}

#[test]
fn storage_address_without_arguments_is_the_name_hash_reduced() {
    let mut cache = HashCache::new();
    let mut metrics = HashTimingState::new();
    let h = starknet_keccak(&mut cache, &mut metrics, b"ERC20_name");
    let key = get_storage_var_address(&mut cache, &mut metrics, "ERC20_name", &[]);
    // The hash lies below 2^250, hence below the bound.
    assert_eq!(key.0 .0, h);
}

#[test]
fn storage_address_hashes_arguments_with_pedersen() {
    let mut cache = HashCache::new();
    let mut metrics = HashTimingState::new();
    set_hash_cache_enabled(&mut cache, true);
    let x = Felt::from_hex_unchecked(
        "0x03d937c035c878245caf64531a5756109c53068da139362728feb561405371cb",
    );
    let y = Felt::from_hex_unchecked(
        "0x0208a0a10250e382e1e4bbe2880906c2791bf6275695e02fbbc6aeff9cd8b31a",
    );
    let expected = Felt::from_hex_unchecked(
        "0x030e480bed5fe53fa909cc0f8c4d99b8f9f2c016be4c41e13a4848797979c662",
    );
    sn_keccak_insert(&mut cache, b"var", x);
    start_hash_timing(&mut metrics);
    let key = get_storage_var_address(&mut cache, &mut metrics, "var", &[y]);
    assert_eq!(key.0 .0, expected);
    assert_eq!(pedersen_pair_get(&cache, x, y), Some(expected));
    let again = get_storage_var_address(&mut cache, &mut metrics, "var", &[y]);
    assert_eq!(again, key);
    let m = stop_hash_timing(&mut metrics);
    assert_eq!(m.pedersen_calls, 2);
    assert_eq!(m.sn_keccak_calls, 2);
}

#[test]
fn storage_address_is_the_same_with_and_without_memoization() {
    let mut cache = HashCache::new();
    let mut metrics = HashTimingState::new();
    let args = [Felt::from_u128(1), Felt::from_u128(2), Felt::from_u128(3)];
    let plain = get_storage_var_address(&mut cache, &mut metrics, "balances", &args);
    set_hash_cache_enabled(&mut cache, true);
    let first = get_storage_var_address(&mut cache, &mut metrics, "balances", &args);
    let second = get_storage_var_address(&mut cache, &mut metrics, "balances", &args);
    assert_eq!(plain, first);
    assert_eq!(plain, second);
    let name_only = get_storage_var_address(&mut cache, &mut metrics, "balances", &[]);
    assert_ne!(plain, name_only);
}

#[test]
fn fee_token_balance_address() {
    let mut cache = HashCache::new();
    let mut metrics = HashTimingState::new();
    let account = ContractAddress(PatriciaKey(Felt::from_u128(0x1234)));
    let key = get_fee_token_var_address(&mut cache, &mut metrics, account);
    let direct = get_storage_var_address(
        &mut cache,
        &mut metrics,
        "ERC20_balances",
        &[Felt::from_u128(0x1234)],
    );
    assert_eq!(key, direct);
    let mut bound = [0xffu8; 32];
    bound[0] = 0x07;
    bound[31] = 0x00;
    assert!(key.0 .0.bytes < bound);
}
