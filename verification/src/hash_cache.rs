//! Process-wide memoization of Starknet hashes: one bounded cache per
//! hash kind, each emptied when full, all emptied and bypassed while
//! memoization is switched off.

use vstd::prelude::*;

use dashmap::DashMap;

use crate::felt::Felt;

verus! {

/// A concurrent map of `dashmap`, here always from byte strings to
/// 32-byte element encodings.
#[verifier::external_type_specification]
#[verifier::external_body]
#[verifier::reject_recursive_types(K)]
#[verifier::reject_recursive_types(V)]
#[verifier::reject_recursive_types(S)]
pub struct ExDashMap<K, V, S>(DashMap<K, V, S>);

/// A cache map: from byte strings to 32-byte element encodings.
pub type CacheMap = DashMap<Vec<u8>, [u8; 32]>;

/// The entries of a cache map: each key's bytes to its value's bytes.
pub uninterp spec fn cache_entries(m: CacheMap) -> Map<Seq<u8>, Seq<u8>>;

/// A cache with no entry.
pub open spec fn no_entries() -> Map<Seq<u8>, Seq<u8>> {
    Map::empty()
}

/// `dashmap::DashMap::new`. Claimed: the map has no entry.
#[verifier::external_body]
fn cache_map_new() -> (m: CacheMap)
    ensures
        cache_entries(m) == no_entries(),
{
    DashMap::new()
}

/// `dashmap::DashMap::len`. Claimed: the number of entries.
#[verifier::external_body]
fn cache_map_len(m: &CacheMap) -> (n: usize)
    ensures
        n == cache_entries(*m).len(),
{
    m.len()
}

/// `dashmap::DashMap::clear`. Claimed: no entry is left.
#[verifier::external_body]
fn cache_map_clear(m: &mut CacheMap)
    ensures
        cache_entries(*final(m)) == no_entries(),
{
    m.clear();
}

/// `dashmap::DashMap::insert`. Claimed: `key` maps to `value` afterwards
/// and every other entry is kept. The value that was replaced, if any,
/// is dropped.
#[verifier::external_body]
fn cache_map_insert(m: &mut CacheMap, key: Vec<u8>, value: [u8; 32])
    ensures
        cache_entries(*final(m)) == cache_entries(*old(m)).insert(key@, value@),
{
    m.insert(key, value);
}

/// `dashmap::DashMap::get`, with the entry's value copied out of the
/// guard. Claimed: the value of `key` where it has an entry, nothing
/// otherwise.
#[verifier::external_body]
fn cache_map_get(m: &CacheMap, key: &[u8]) -> (value: Option<[u8; 32]>)
    ensures
        match value {
            Some(v) => cache_entries(*m).contains_key(key@) && cache_entries(*m)[key@] == v@,
            None => !cache_entries(*m).contains_key(key@),
        },
{
    m.get(key).map(|entry| *entry)
}

/// Capacity of the Starknet-Keccak cache.
pub const SN_KECCAK_CACHE_CAPACITY: usize = 8192;

/// Capacity of the cache of Pedersen hashes of pairs.
pub const PEDERSEN_PAIR_CACHE_CAPACITY: usize = 8192;

/// Capacity of the cache of Pedersen hashes of arrays.
pub const PEDERSEN_ARRAY_CACHE_CAPACITY: usize = 2048;

/// Capacity of the cache of Poseidon hashes of arrays.
pub const POSEIDON_ARRAY_CACHE_CAPACITY: usize = 2048;

/// The entries of a cache after `key` is stored with `value`: where the
/// cache already held `capacity` entries or more, it is emptied first.
pub open spec fn entries_after_insert(
    entries: Map<Seq<u8>, Seq<u8>>,
    capacity: nat,
    key: Seq<u8>,
    value: Seq<u8>,
) -> Map<Seq<u8>, Seq<u8>> {
    if entries.len() >= capacity {
        Map::<Seq<u8>, Seq<u8>>::empty().insert(key, value)
    } else {
        entries.insert(key, value)
    }
}

/// What a lookup of `key` finds: nothing while memoization is off.
pub open spec fn lookup(on: bool, entries: Map<Seq<u8>, Seq<u8>>, key: Seq<u8>) -> Option<
    Seq<u8>,
> {
    if on && entries.contains_key(key) {
        Some(entries[key])
    } else {
        None
    }
}

/// What a cache holds after `key` is stored with `value`: nothing
/// changes while memoization is off.
pub open spec fn stored(
    on: bool,
    entries: Map<Seq<u8>, Seq<u8>>,
    capacity: nat,
    key: Seq<u8>,
    value: Seq<u8>,
) -> Map<Seq<u8>, Seq<u8>> {
    if on {
        entries_after_insert(entries, capacity, key, value)
    } else {
        entries
    }
}

/// While memoization is off, a lookup finds nothing and a store changes
/// nothing.
pub proof fn lemma_off_cache_is_bypassed(
    entries: Map<Seq<u8>, Seq<u8>>,
    capacity: nat,
    key: Seq<u8>,
    value: Seq<u8>,
)
    ensures
        lookup(false, entries, key) is None,
        stored(false, entries, capacity, key, value) == entries,
{
}

/// While memoization is on, a lookup right after a store of `key` finds
/// the stored value, whether or not the cache had to be emptied first.
pub proof fn lemma_lookup_after_store(
    entries: Map<Seq<u8>, Seq<u8>>,
    capacity: nat,
    key: Seq<u8>,
    value: Seq<u8>,
)
    ensures
        lookup(true, stored(true, entries, capacity, key, value), key) == Some(value),
{
}

/// A store into a cache that is not full keeps every other entry; a
/// store into a full one keeps none but the stored entry.
pub proof fn lemma_store_and_other_keys(
    entries: Map<Seq<u8>, Seq<u8>>,
    capacity: nat,
    key: Seq<u8>,
    value: Seq<u8>,
    other: Seq<u8>,
)
    requires
        other != key,
    ensures
        entries.len() < capacity ==> lookup(true, stored(true, entries, capacity, key, value), other)
            == lookup(true, entries, other),
        entries.len() >= capacity ==> lookup(
            true,
            stored(true, entries, capacity, key, value),
            other,
        ) is None,
{
}

/// A store into a cache that holds at most `capacity` entries (at least
/// one): where it was full it holds the stored entry alone, else every
/// old entry with the stored one added or replaced; either way the key
/// maps to the stored value, and the cache still holds at most
/// `capacity` entries.
pub proof fn lemma_store_within_capacity(
    entries: Map<Seq<u8>, Seq<u8>>,
    capacity: nat,
    key: Seq<u8>,
    value: Seq<u8>,
)
    requires
        entries.dom().finite(),
        entries.len() <= capacity,
        capacity >= 1,
    ensures
        entries.len() >= capacity ==> entries_after_insert(entries, capacity, key, value)
            == Map::<Seq<u8>, Seq<u8>>::empty().insert(key, value),
        entries.len() < capacity ==> entries_after_insert(entries, capacity, key, value)
            == entries.insert(key, value),
        entries_after_insert(entries, capacity, key, value).contains_key(key),
        entries_after_insert(entries, capacity, key, value)[key] == value,
        entries_after_insert(entries, capacity, key, value).dom().finite(),
        entries_after_insert(entries, capacity, key, value).len() <= capacity,
{
    let after = entries_after_insert(entries, capacity, key, value);
    if entries.len() >= capacity {
        assert(after.dom() =~= set![key]);
    }
}

/// The key under which the Pedersen hash of a pair is cached: the two
/// encodings one after the other.
pub open spec fn pair_key(left: Seq<u8>, right: Seq<u8>) -> Seq<u8> {
    left + right
}

/// The key under which a hash of an array of elements is cached: their
/// encodings one after the other.
pub open spec fn felts_key(values: Seq<Felt>) -> Seq<u8>
    decreases values.len(),
{
    if values.len() == 0 {
        Seq::empty()
    } else {
        felts_key(values.drop_last()) + values.last()@
    }
}

/// The four hash caches of a process and whether memoization is on.
pub struct HashCache {
    pub on: bool,
    pub sn_keccak: CacheMap,
    pub pedersen_pair: CacheMap,
    pub pedersen_array: CacheMap,
    pub poseidon_array: CacheMap,
}

/// A cache whose entries are finitely many, at most `capacity`, and none
/// while memoization is off.
pub open spec fn bounded(on: bool, entries: Map<Seq<u8>, Seq<u8>>, capacity: nat) -> bool {
    &&& entries.dom().finite()
    &&& entries.len() <= capacity
    &&& !on ==> entries == Map::<Seq<u8>, Seq<u8>>::empty()
}

impl HashCache {
    /// The Starknet-Keccak entries: input bytes to hash.
    pub open spec fn sn_keccak_entries(&self) -> Map<Seq<u8>, Seq<u8>> {
        cache_entries(self.sn_keccak)
    }

    /// The Pedersen pair entries: `pair_key` of the pair to hash.
    pub open spec fn pedersen_pair_entries(&self) -> Map<Seq<u8>, Seq<u8>> {
        cache_entries(self.pedersen_pair)
    }

    /// The Pedersen array entries: `felts_key` of the array to hash.
    pub open spec fn pedersen_array_entries(&self) -> Map<Seq<u8>, Seq<u8>> {
        cache_entries(self.pedersen_array)
    }

    /// The Poseidon array entries: `felts_key` of the array to hash.
    pub open spec fn poseidon_array_entries(&self) -> Map<Seq<u8>, Seq<u8>> {
        cache_entries(self.poseidon_array)
    }

    /// Every cache is within its capacity, and all are empty while
    /// memoization is off.
    pub open spec fn wf(&self) -> bool {
        &&& bounded(self.on, self.sn_keccak_entries(), SN_KECCAK_CACHE_CAPACITY as nat)
        &&& bounded(self.on, self.pedersen_pair_entries(), PEDERSEN_PAIR_CACHE_CAPACITY as nat)
        &&& bounded(self.on, self.pedersen_array_entries(), PEDERSEN_ARRAY_CACHE_CAPACITY as nat)
        &&& bounded(self.on, self.poseidon_array_entries(), POSEIDON_ARRAY_CACHE_CAPACITY as nat)
    }

    /// Memoization off, every cache empty: the state of a process that
    /// has not switched memoization on.
    pub fn new() -> (c: HashCache)
        ensures
            c.wf(),
            !c.on,
    {
        HashCache {
            on: false,
            sn_keccak: cache_map_new(),
            pedersen_pair: cache_map_new(),
            pedersen_array: cache_map_new(),
            poseidon_array: cache_map_new(),
        }
    }
}

/// Stores `key` with `value` in one cache, emptying it first where it
/// holds `capacity` entries or more.
fn insert(map: &mut CacheMap, capacity: usize, key: Vec<u8>, value: [u8; 32])
    requires
        cache_entries(*old(map)).dom().finite(),
        cache_entries(*old(map)).len() <= capacity,
        capacity >= 1,
    ensures
        cache_entries(*final(map)) == entries_after_insert(
            cache_entries(*old(map)),
            capacity as nat,
            key@,
            value@,
        ),
        cache_entries(*final(map)).dom().finite(),
        cache_entries(*final(map)).len() <= capacity,
{
    let ghost k = key@;
    if cache_map_len(map) >= capacity {
        cache_map_clear(map);
        cache_map_insert(map, key, value);
        proof {
            assert(Map::<Seq<u8>, Seq<u8>>::empty().insert(k, value@).dom() =~= set![k]);
        }
    } else {
        cache_map_insert(map, key, value);
    }
}

/// Switches memoization on or off; switching it off empties every cache.
pub fn set_hash_cache_enabled(cache: &mut HashCache, enabled: bool)
    requires
        old(cache).wf(),
    ensures
        final(cache).wf(),
        final(cache).on == enabled,
        enabled ==> final(cache).sn_keccak_entries() == old(cache).sn_keccak_entries()
            && final(cache).pedersen_pair_entries() == old(cache).pedersen_pair_entries()
            && final(cache).pedersen_array_entries() == old(cache).pedersen_array_entries()
            && final(cache).poseidon_array_entries() == old(cache).poseidon_array_entries(),
        !enabled ==> final(cache).sn_keccak_entries() == Map::<Seq<u8>, Seq<u8>>::empty()
            && final(cache).pedersen_pair_entries() == Map::<Seq<u8>, Seq<u8>>::empty()
            && final(cache).pedersen_array_entries() == Map::<Seq<u8>, Seq<u8>>::empty()
            && final(cache).poseidon_array_entries() == Map::<Seq<u8>, Seq<u8>>::empty(),
{
    cache.on = enabled;
    if !enabled {
        cache_map_clear(&mut cache.sn_keccak);
        cache_map_clear(&mut cache.pedersen_pair);
        cache_map_clear(&mut cache.pedersen_array);
        cache_map_clear(&mut cache.poseidon_array);
    }
}

/// Whether memoization is on.
pub fn enabled(cache: &HashCache) -> (on: bool)
    ensures
        on == cache.on,
{
    cache.on
}

fn as_felt(value: Option<[u8; 32]>) -> (f: Option<Felt>)
    ensures
        match value {
            Some(v) => f matches Some(g) && g@ == v@,
            None => f is None,
        },
{
    match value {
        Some(bytes) => Some(Felt { bytes }),
        None => None,
    }
}

/// The value of a lookup as the bytes of the element found.
pub open spec fn found_bytes(f: Option<Felt>) -> Option<Seq<u8>> {
    match f {
        Some(g) => Some(g@),
        None => None,
    }
}

/// The cached Starknet-Keccak hash of `data`, if memoization is on and
/// one is cached.
pub fn sn_keccak_get(cache: &HashCache, data: &[u8]) -> (hash: Option<Felt>)
    ensures
        found_bytes(hash) == lookup(cache.on, cache.sn_keccak_entries(), data@),
{
    if !enabled(cache) {
        return None;
    }
    as_felt(cache_map_get(&cache.sn_keccak, data))
}

/// Caches `value` as the Starknet-Keccak hash of `data`; nothing happens
/// while memoization is off.
pub fn sn_keccak_insert(cache: &mut HashCache, data: &[u8], value: Felt)
    requires
        old(cache).wf(),
    ensures
        final(cache).wf(),
        final(cache).on == old(cache).on,
        final(cache).sn_keccak_entries() == stored(
            old(cache).on,
            old(cache).sn_keccak_entries(),
            SN_KECCAK_CACHE_CAPACITY as nat,
            data@,
            value@,
        ),
        final(cache).pedersen_pair_entries() == old(cache).pedersen_pair_entries(),
        final(cache).pedersen_array_entries() == old(cache).pedersen_array_entries(),
        final(cache).poseidon_array_entries() == old(cache).poseidon_array_entries(),
{
    if !enabled(cache) {
        return ;
    }
    let key = vstd::slice::slice_to_vec(data);
    insert(&mut cache.sn_keccak, SN_KECCAK_CACHE_CAPACITY, key, value.bytes);
}

fn push_felt(v: &mut Vec<u8>, f: &Felt)
    ensures
        final(v)@ == old(v)@ + f@,
{
    let mut i: usize = 0;
    while i < 32
        invariant
            i <= 32,
            v@ == old(v)@ + f@.take(i as int),
        decreases 32 - i,
    {
        v.push(f.bytes[i]);
        i = i + 1;
        assert(f@.take(i as int) == f@.take(i - 1).push(f@[i - 1]));
    }
    assert(f@.take(32) == f@);
}

fn pair_key_bytes(left: &Felt, right: &Felt) -> (key: Vec<u8>)
    ensures
        key@ == pair_key(left@, right@),
{
    let mut key = Vec::new();
    push_felt(&mut key, left);
    push_felt(&mut key, right);
    key
}

fn felts_key_bytes(values: &[Felt]) -> (key: Vec<u8>)
    ensures
        key@ == felts_key(values@),
{
    let mut key = Vec::new();
    let mut i: usize = 0;
    while i < values.len()
        invariant
            i <= values@.len(),
            key@ == felts_key(values@.take(i as int)),
        decreases values@.len() - i,
    {
        push_felt(&mut key, &values[i]);
        i = i + 1;
        assert(values@.take(i as int).drop_last() == values@.take(i - 1));
    }
    assert(values@.take(values@.len() as int) == values@);
    key
}

/// The cached Pedersen hash of the pair (`left`, `right`), if memoization
/// is on and one is cached.
pub fn pedersen_pair_get(cache: &HashCache, left: Felt, right: Felt) -> (hash: Option<Felt>)
    ensures
        found_bytes(hash) == lookup(
            cache.on,
            cache.pedersen_pair_entries(),
            pair_key(left@, right@),
        ),
{
    if !enabled(cache) {
        return None;
    }
    let key = pair_key_bytes(&left, &right);
    as_felt(cache_map_get(&cache.pedersen_pair, key.as_slice()))
}

/// Caches `value` as the Pedersen hash of the pair (`left`, `right`);
/// nothing happens while memoization is off.
pub fn pedersen_pair_insert(cache: &mut HashCache, left: Felt, right: Felt, value: Felt)
    requires
        old(cache).wf(),
    ensures
        final(cache).wf(),
        final(cache).on == old(cache).on,
        final(cache).pedersen_pair_entries() == stored(
            old(cache).on,
            old(cache).pedersen_pair_entries(),
            PEDERSEN_PAIR_CACHE_CAPACITY as nat,
            pair_key(left@, right@),
            value@,
        ),
        final(cache).sn_keccak_entries() == old(cache).sn_keccak_entries(),
        final(cache).pedersen_array_entries() == old(cache).pedersen_array_entries(),
        final(cache).poseidon_array_entries() == old(cache).poseidon_array_entries(),
{
    if !enabled(cache) {
        return ;
    }
    let key = pair_key_bytes(&left, &right);
    insert(&mut cache.pedersen_pair, PEDERSEN_PAIR_CACHE_CAPACITY, key, value.bytes);
}

/// The cached Pedersen hash of the array `values`, if memoization is on
/// and one is cached.
pub fn pedersen_array_get(cache: &HashCache, values: &[Felt]) -> (hash: Option<Felt>)
    ensures
        found_bytes(hash) == lookup(
            cache.on,
            cache.pedersen_array_entries(),
            felts_key(values@),
        ),
{
    if !enabled(cache) {
        return None;
    }
    let key = felts_key_bytes(values);
    as_felt(cache_map_get(&cache.pedersen_array, key.as_slice()))
}

/// Caches `value` as the Pedersen hash of the array `values`; nothing
/// happens while memoization is off.
pub fn pedersen_array_insert(cache: &mut HashCache, values: &[Felt], value: Felt)
    requires
        old(cache).wf(),
    ensures
        final(cache).wf(),
        final(cache).on == old(cache).on,
        final(cache).pedersen_array_entries() == stored(
            old(cache).on,
            old(cache).pedersen_array_entries(),
            PEDERSEN_ARRAY_CACHE_CAPACITY as nat,
            felts_key(values@),
            value@,
        ),
        final(cache).sn_keccak_entries() == old(cache).sn_keccak_entries(),
        final(cache).pedersen_pair_entries() == old(cache).pedersen_pair_entries(),
        final(cache).poseidon_array_entries() == old(cache).poseidon_array_entries(),
{
    if !enabled(cache) {
        return ;
    }
    let key = felts_key_bytes(values);
    insert(&mut cache.pedersen_array, PEDERSEN_ARRAY_CACHE_CAPACITY, key, value.bytes);
}

/// The cached Poseidon hash of the array `values`, if memoization is on
/// and one is cached.
pub fn poseidon_array_get(cache: &HashCache, values: &[Felt]) -> (hash: Option<Felt>)
    ensures
        found_bytes(hash) == lookup(
            cache.on,
            cache.poseidon_array_entries(),
            felts_key(values@),
        ),
{
    if !enabled(cache) {
        return None;
    }
    let key = felts_key_bytes(values);
    as_felt(cache_map_get(&cache.poseidon_array, key.as_slice()))
}

/// Caches `value` as the Poseidon hash of the array `values`; nothing
/// happens while memoization is off.
pub fn poseidon_array_insert(cache: &mut HashCache, values: &[Felt], value: Felt)
    requires
        old(cache).wf(),
    ensures
        final(cache).wf(),
        final(cache).on == old(cache).on,
        final(cache).poseidon_array_entries() == stored(
            old(cache).on,
            old(cache).poseidon_array_entries(),
            POSEIDON_ARRAY_CACHE_CAPACITY as nat,
            felts_key(values@),
            value@,
        ),
        final(cache).sn_keccak_entries() == old(cache).sn_keccak_entries(),
        final(cache).pedersen_pair_entries() == old(cache).pedersen_pair_entries(),
        final(cache).pedersen_array_entries() == old(cache).pedersen_array_entries(),
{
    if !enabled(cache) {
        return ;
    }
    let key = felts_key_bytes(values);
    insert(&mut cache.poseidon_array, POSEIDON_ARRAY_CACHE_CAPACITY, key, value.bytes);
}

} // verus!
