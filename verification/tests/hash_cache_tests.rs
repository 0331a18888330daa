use starknet_hashing::felt::Felt;
use starknet_hashing::hash_cache::{
    enabled, pedersen_array_get, pedersen_array_insert, pedersen_pair_get, pedersen_pair_insert,
    poseidon_array_get, poseidon_array_insert, set_hash_cache_enabled, sn_keccak_get,
    sn_keccak_insert, HashCache, PEDERSEN_PAIR_CACHE_CAPACITY,
};

#[test]
fn cache_is_bypassed_when_disabled_and_reused_when_enabled() {
    let mut cache = HashCache::new();
    let key = Felt::from_u128(1);
    let value = Felt::from_u128(2);

    set_hash_cache_enabled(&mut cache, false);
    pedersen_pair_insert(&mut cache, key, key, value);
    assert_eq!(pedersen_pair_get(&cache, key, key), None);

    set_hash_cache_enabled(&mut cache, true);
    pedersen_pair_insert(&mut cache, key, key, value);
    assert_eq!(pedersen_pair_get(&cache, key, key), Some(value));

    set_hash_cache_enabled(&mut cache, false);
}

#[test]
fn new_cache_is_off() {
    let cache = HashCache::new();
    assert!(!enabled(&cache));
    assert_eq!(sn_keccak_get(&cache, b"abc"), None);
}

#[test]
fn switching_off_empties_every_cache() {
    let mut cache = HashCache::new();
    set_hash_cache_enabled(&mut cache, true);
    let a = Felt::from_u128(7);
    let b = Felt::from_u128(8);
    sn_keccak_insert(&mut cache, b"data", a);
    pedersen_pair_insert(&mut cache, a, b, b);
    pedersen_array_insert(&mut cache, &[a, b], a);
    poseidon_array_insert(&mut cache, &[b, a], b);
    assert_eq!(sn_keccak_get(&cache, b"data"), Some(a));
    assert_eq!(pedersen_array_get(&cache, &[a, b]), Some(a));
    assert_eq!(poseidon_array_get(&cache, &[b, a]), Some(b));
    set_hash_cache_enabled(&mut cache, false);
    set_hash_cache_enabled(&mut cache, true);
    assert_eq!(sn_keccak_get(&cache, b"data"), None);
    assert_eq!(pedersen_pair_get(&cache, a, b), None);
    assert_eq!(pedersen_array_get(&cache, &[a, b]), None);
    assert_eq!(poseidon_array_get(&cache, &[b, a]), None);
}

#[test]
fn caches_are_keyed_apart() {
    let mut cache = HashCache::new();
    set_hash_cache_enabled(&mut cache, true);
    let a = Felt::from_u128(1);
    let b = Felt::from_u128(2);
    pedersen_pair_insert(&mut cache, a, b, a);
    assert_eq!(pedersen_pair_get(&cache, b, a), None);
    assert_eq!(pedersen_array_get(&cache, &[a, b]), None);
    pedersen_array_insert(&mut cache, &[a, b], b);
    assert_eq!(pedersen_array_get(&cache, &[a]), None);
    assert_eq!(pedersen_array_get(&cache, &[a, b]), Some(b));
    assert_eq!(poseidon_array_get(&cache, &[a, b]), None);
}

#[test]
fn a_store_replaces_the_value_of_its_key() {
    let mut cache = HashCache::new();
    set_hash_cache_enabled(&mut cache, true);
    let a = Felt::from_u128(3);
    sn_keccak_insert(&mut cache, b"x", a);
    sn_keccak_insert(&mut cache, b"x", Felt::from_u128(4));
    assert_eq!(sn_keccak_get(&cache, b"x"), Some(Felt::from_u128(4)));
}

#[test]
fn a_full_cache_is_emptied_before_the_next_store() {
    let mut cache = HashCache::new();
    set_hash_cache_enabled(&mut cache, true);
    let zero = Felt::from_u128(0);
    for i in 0..PEDERSEN_PAIR_CACHE_CAPACITY as u128 {
        pedersen_pair_insert(&mut cache, zero, Felt::from_u128(i), zero);
    }
    assert_eq!(cache.pedersen_pair.len(), PEDERSEN_PAIR_CACHE_CAPACITY);
    assert_eq!(pedersen_pair_get(&cache, zero, Felt::from_u128(5)), Some(zero));
    let one = Felt::from_u128(1);
    pedersen_pair_insert(&mut cache, one, one, one);
    assert_eq!(cache.pedersen_pair.len(), 1);
    assert_eq!(pedersen_pair_get(&cache, zero, Felt::from_u128(5)), None);
    assert_eq!(pedersen_pair_get(&cache, one, one), Some(one));
}
