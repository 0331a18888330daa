//! Names to selectors and storage variables to storage addresses, as the
//! Starknet ABI defines them.

use vstd::prelude::*;

use crate::clock::{elapsed_us, start_if};
use crate::core_types::{
    l2_address_upper_bound_felt, ContractAddress, EntryPointSelector, PatriciaKey, StorageKey,
};
use crate::counters::{lemma_wrapped_count_step, wrapped_count, wrapped_sum};
use crate::felt::{
    be_value, field_prime, l2_address_upper_bound, lemma_be_encode_of_value,
    patricia_key_upper_bound, Felt,
};
use crate::hash::{
    lemma_sn_keccak_bound, memoized_sn_keccak, sn_keccak, sn_keccak_entries_after, sn_keccak_entries_hold_hashes,
    starknet_keccak_hash,
};
use crate::hash_cache::{
    lookup, pair_key, pedersen_pair_get, pedersen_pair_insert, stored, HashCache,
    PEDERSEN_PAIR_CACHE_CAPACITY,
};
use crate::hash_metrics::{hash_timing_enabled, record_pedersen, HashTimingState};
use crate::primitives::{pedersen, pedersen_hash};
use vstd::string::StringSliceAdditionalSpecFns;

verus! {

/// Starknet-Keccak of `data`: the first 250 bits of its Keccak-256
/// digest, as a field element. Where memoization is on, a cached hash is
/// returned and a computed one is cached; where hash timing is on, the
/// call is counted and timed.
pub fn starknet_keccak(cache: &mut HashCache, metrics: &mut HashTimingState, data: &[u8]) -> (h:
    Felt)
    requires
        old(cache).wf(),
    ensures
        h@ == memoized_sn_keccak(old(cache).on, old(cache).sn_keccak_entries(), data@),
        final(cache).wf(),
        final(cache).on == old(cache).on,
        final(cache).sn_keccak_entries() == sn_keccak_entries_after(
            old(cache).on,
            old(cache).sn_keccak_entries(),
            data@,
        ),
        final(cache).pedersen_pair_entries() == old(cache).pedersen_pair_entries(),
        final(cache).pedersen_array_entries() == old(cache).pedersen_array_entries(),
        final(cache).poseidon_array_entries() == old(cache).poseidon_array_entries(),
        final(metrics).enabled == old(metrics).enabled,
        !old(metrics).enabled ==> final(metrics).counters == old(metrics).counters,
        old(metrics).enabled ==> final(metrics).counters.sn_keccak_calls == wrapped_sum(
            old(metrics).counters.sn_keccak_calls,
            1,
        ),
        final(metrics).counters.pedersen_us == old(metrics).counters.pedersen_us,
        final(metrics).counters.pedersen_calls == old(metrics).counters.pedersen_calls,
        sn_keccak_entries_hold_hashes(old(cache).sn_keccak_entries()) ==> h@ == sn_keccak(data@)
            && sn_keccak_entries_hold_hashes(final(cache).sn_keccak_entries()),
        old(cache).on && old(cache).sn_keccak_entries().contains_key(data@) ==> {
            &&& h@ == old(cache).sn_keccak_entries()[data@]
            &&& final(cache).sn_keccak_entries() == old(cache).sn_keccak_entries()
        },
        !(old(cache).on && old(cache).sn_keccak_entries().contains_key(data@)) ==> h@
            == sn_keccak(data@),
        old(cache).on ==> {
            &&& final(cache).sn_keccak_entries().contains_key(data@)
            &&& final(cache).sn_keccak_entries()[data@] == h@
        },
        !old(cache).on ==> final(cache).sn_keccak_entries() == old(cache).sn_keccak_entries(),
{
    starknet_keccak_hash(cache, metrics, data)
}

/// The name of the default entry point.
pub const DEFAULT_ENTRY_POINT_NAME: &'static str = "__default__";

/// The name of the default L1 handler entry point.
pub const DEFAULT_L1_ENTRY_POINT_NAME: &'static str = "__l1_default__";

/// The selector of both default entry points.
pub const DEFAULT_ENTRY_POINT_SELECTOR: u128 = 0;

/// Whether a name, given by its UTF-8 bytes, is that of a default entry
/// point.
pub open spec fn is_default_entry_point_name(name: Seq<u8>) -> bool {
    name == DEFAULT_ENTRY_POINT_NAME.spec_bytes() || name
        == DEFAULT_L1_ENTRY_POINT_NAME.spec_bytes()
}

/// Whether two byte strings are equal.
pub fn bytes_equal(a: &[u8], b: &[u8]) -> (same: bool)
    ensures
        same == (a@ == b@),
{
    if a.len() != b.len() {
        return false;
    }
    let mut i: usize = 0;
    while i < a.len()
        invariant
            a@.len() == b@.len(),
            i <= a@.len(),
            forall|j: int| 0 <= j < i ==> a@[j] == b@[j],
        decreases a@.len() - i,
    {
        if a[i] != b[i] {
            return false;
        }
        i = i + 1;
    }
    assert(a@ =~= b@);
    true
}

/// The selector of the entry point `entry_point_name`: 0 for the two
/// default entry points, else the Starknet-Keccak of the name.
pub fn selector_from_name(
    cache: &mut HashCache,
    metrics: &mut HashTimingState,
    entry_point_name: &str,
) -> (selector: EntryPointSelector)
    requires
        old(cache).wf(),
    ensures
        is_default_entry_point_name(entry_point_name.spec_bytes()) ==> selector.0.value() == 0
            && selector.0.is_canonical() && *final(cache) == *old(cache) && *final(metrics)
            == *old(metrics),
        !is_default_entry_point_name(entry_point_name.spec_bytes()) ==> {
            &&& selector.0@ == memoized_sn_keccak(
                old(cache).on,
                old(cache).sn_keccak_entries(),
                entry_point_name.spec_bytes(),
            )
            &&& final(cache).sn_keccak_entries() == sn_keccak_entries_after(
                old(cache).on,
                old(cache).sn_keccak_entries(),
                entry_point_name.spec_bytes(),
            )
            &&& final(metrics).enabled == old(metrics).enabled
            &&& !old(metrics).enabled ==> final(metrics).counters == old(metrics).counters
            &&& old(metrics).enabled ==> final(metrics).counters.sn_keccak_calls == wrapped_sum(
                old(metrics).counters.sn_keccak_calls,
                1,
            )
            &&& sn_keccak_entries_hold_hashes(old(cache).sn_keccak_entries()) ==> selector.0@
                == sn_keccak(entry_point_name.spec_bytes()) && sn_keccak_entries_hold_hashes(
                final(cache).sn_keccak_entries(),
            )
        },
        entry_point_name.spec_bytes() == "__default__".spec_bytes()
            || entry_point_name.spec_bytes() == "__l1_default__".spec_bytes() ==> selector.0.value()
            == 0 && selector.0.is_canonical(),
        entry_point_name.spec_bytes() != "__default__".spec_bytes()
            && entry_point_name.spec_bytes() != "__l1_default__".spec_bytes() ==> {
            &&& selector.0@ == memoized_sn_keccak(
                old(cache).on,
                old(cache).sn_keccak_entries(),
                entry_point_name.spec_bytes(),
            )
            &&& sn_keccak_entries_hold_hashes(old(cache).sn_keccak_entries()) ==> selector.0@
                == sn_keccak(entry_point_name.spec_bytes())
        },
        final(cache).wf(),
        final(cache).on == old(cache).on,
        final(cache).pedersen_pair_entries() == old(cache).pedersen_pair_entries(),
        final(cache).pedersen_array_entries() == old(cache).pedersen_array_entries(),
        final(cache).poseidon_array_entries() == old(cache).poseidon_array_entries(),
{
    let name = entry_point_name.as_bytes();
    if bytes_equal(name, DEFAULT_ENTRY_POINT_NAME.as_bytes()) || bytes_equal(
        name,
        DEFAULT_L1_ENTRY_POINT_NAME.as_bytes(),
    ) {
        EntryPointSelector(Felt::from_u128(DEFAULT_ENTRY_POINT_SELECTOR))
    } else {
        EntryPointSelector(starknet_keccak(cache, metrics, name))
    }
}

/// The Pedersen hashes of a running hash with each argument in turn.
pub open spec fn pedersen_fold(start: Seq<u8>, args: Seq<Felt>) -> Seq<u8>
    decreases args.len(),
{
    if args.len() == 0 {
        start
    } else {
        pedersen_hash(pedersen_fold(start, args.drop_last()), args.last()@)@
    }
}

/// One step of the running hash, through the pair cache: the hash found
/// there, or the computed one, stored where none was found. Gives the
/// new running hash and the pair entries after the step.
pub open spec fn pedersen_step(
    on: bool,
    entries: Map<Seq<u8>, Seq<u8>>,
    left: Seq<u8>,
    right: Seq<u8>,
) -> (Seq<u8>, Map<Seq<u8>, Seq<u8>>) {
    match lookup(on, entries, pair_key(left, right)) {
        Some(v) => (v, entries),
        None => (
            pedersen_hash(left, right)@,
            stored(
                on,
                entries,
                PEDERSEN_PAIR_CACHE_CAPACITY as nat,
                pair_key(left, right),
                pedersen_hash(left, right)@,
            ),
        ),
    }
}

/// The running hash over all arguments, through the pair cache, and the
/// pair entries at the end.
pub open spec fn pedersen_chain(
    on: bool,
    entries: Map<Seq<u8>, Seq<u8>>,
    start: Seq<u8>,
    args: Seq<Felt>,
) -> (Seq<u8>, Map<Seq<u8>, Seq<u8>>)
    decreases args.len(),
{
    if args.len() == 0 {
        (start, entries)
    } else {
        let (h, e) = pedersen_chain(on, entries, start, args.drop_last());
        pedersen_step(on, e, h, args.last()@)
    }
}

/// Each argument extends the running hash on the right: the hash after
/// one more argument is the Pedersen hash of the running hash so far
/// (left) with that argument (right).
pub proof fn lemma_pedersen_fold_extends_right(start: Seq<u8>, args: Seq<Felt>, arg: Felt)
    ensures
        pedersen_fold(start, args.push(arg)) == pedersen_hash(pedersen_fold(start, args), arg@)@,
        pedersen_fold(start, Seq::empty()) == start,
{
    assert(args.push(arg).drop_last() =~= args);
}

/// Every cached pair entry is the Pedersen hash of the two 32-byte
/// halves of its key.
pub open spec fn pair_entries_hold_hashes(entries: Map<Seq<u8>, Seq<u8>>) -> bool {
    forall|k: Seq<u8>| #[trigger]
        entries.contains_key(k) ==> k.len() == 64 && entries[k] == pedersen_hash(
            k.take(32),
            k.skip(32),
        )@
}

/// Memoization never changes a running hash: where every cached pair
/// entry is the Pedersen hash of its halves, the running hash through
/// the cache is the plain one, and every entry afterwards is still the
/// hash of its halves.
pub proof fn lemma_pedersen_chain_is_fold(
    on: bool,
    entries: Map<Seq<u8>, Seq<u8>>,
    start: Seq<u8>,
    args: Seq<Felt>,
)
    requires
        pair_entries_hold_hashes(entries),
        start.len() == 32,
    ensures
        pedersen_chain(on, entries, start, args).0 == pedersen_fold(start, args),
        pair_entries_hold_hashes(pedersen_chain(on, entries, start, args).1),
    decreases args.len(),
{
    if args.len() > 0 {
        lemma_pedersen_chain_is_fold(on, entries, start, args.drop_last());
        let (h, e) = pedersen_chain(on, entries, start, args.drop_last());
        let a = args.last()@;
        assert(h.len() == 32) by {
            if args.drop_last().len() > 0 {
                assert(h == pedersen_hash(
                    pedersen_fold(start, args.drop_last().drop_last()),
                    args.drop_last().last()@,
                )@);
            }
        }
        lemma_pair_key_halves(h, a);
        let after = pedersen_step(on, e, h, a).1;
        assert forall|k: Seq<u8>| #[trigger] after.contains_key(k) implies k.len() == 64
            && after[k] == pedersen_hash(k.take(32), k.skip(32))@ by {
            if k != pair_key(h, a) {
                assert(e.contains_key(k));
            }
        }
    }
}

/// The storage address a running hash is reduced to.
pub open spec fn storage_address_of(h: Seq<u8>) -> nat {
    (be_value(h) % field_prime()) % l2_address_upper_bound()
}

proof fn lemma_pair_key_halves(left: Seq<u8>, right: Seq<u8>)
    requires
        left.len() == 32,
        right.len() == 32,
    ensures
        pair_key(left, right).len() == 64,
        pair_key(left, right).take(32) == left,
        pair_key(left, right).skip(32) == right,
{
    assert(pair_key(left, right).take(32) =~= left);
    assert(pair_key(left, right).skip(32) =~= right);
}

/// With no arguments, the storage address of a name is the Starknet-Keccak
/// of the name itself: the hash lies below 2^250, so neither reduction
/// changes it.
pub proof fn lemma_storage_address_of_name_alone(name: Seq<u8>)
    ensures
        storage_address_of(pedersen_fold(sn_keccak(name), Seq::empty())) == be_value(
            sn_keccak(name),
        ),
{
    lemma_sn_keccak_bound(name);
    let v = be_value(sn_keccak(name));
    assert(v % field_prime() == v);
    assert(v % l2_address_upper_bound() == v);
}

/// The storage address of the storage variable `storage_var_name` with
/// the arguments `args`: the Starknet-Keccak of the name, hashed with
/// each argument in turn by Pedersen, reduced modulo 2^251 - 256. The
/// hashes go through the caches where memoization is on, and are counted
/// and timed where hash timing is on.
pub fn get_storage_var_address(
    cache: &mut HashCache,
    metrics: &mut HashTimingState,
    storage_var_name: &str,
    args: &[Felt],
) -> (key: StorageKey)
    requires
        old(cache).wf(),
    ensures
        ({
            let on = old(cache).on;
            let name = storage_var_name.spec_bytes();
            let start = memoized_sn_keccak(on, old(cache).sn_keccak_entries(), name);
            let (h, pairs) = pedersen_chain(on, old(cache).pedersen_pair_entries(), start, args@);
            &&& key.0.0.value() == storage_address_of(h)
            &&& final(cache).sn_keccak_entries() == sn_keccak_entries_after(
                on,
                old(cache).sn_keccak_entries(),
                name,
            )
            &&& final(cache).pedersen_pair_entries() == pairs
        }),
        key.0.0.value() < l2_address_upper_bound(),
        key.0.is_valid(),
        key.0.0.is_canonical(),
        args@.len() == 0 && sn_keccak_entries_hold_hashes(old(cache).sn_keccak_entries())
            ==> key.0.0@ == sn_keccak(storage_var_name.spec_bytes()),
        args@.len() == 1 && sn_keccak_entries_hold_hashes(old(cache).sn_keccak_entries())
            && pair_entries_hold_hashes(old(cache).pedersen_pair_entries()) ==> key.0.0.value()
            == (be_value(pedersen_hash(sn_keccak(storage_var_name.spec_bytes()), args@[0]@)@)
            % field_prime()) % l2_address_upper_bound(),
        final(cache).wf(),
        final(cache).on == old(cache).on,
        final(cache).pedersen_array_entries() == old(cache).pedersen_array_entries(),
        final(cache).poseidon_array_entries() == old(cache).poseidon_array_entries(),
        final(metrics).enabled == old(metrics).enabled,
        !old(metrics).enabled ==> final(metrics).counters == old(metrics).counters,
        old(metrics).enabled ==> final(metrics).counters.sn_keccak_calls == wrapped_sum(
            old(metrics).counters.sn_keccak_calls,
            1,
        ) && final(metrics).counters.pedersen_calls == wrapped_count(
            old(metrics).counters.pedersen_calls,
            args@.len(),
        ),
        sn_keccak_entries_hold_hashes(old(cache).sn_keccak_entries()) && pair_entries_hold_hashes(
            old(cache).pedersen_pair_entries(),
        ) ==> key.0.0.value() == storage_address_of(
            pedersen_fold(sn_keccak(storage_var_name.spec_bytes()), args@),
        ) && sn_keccak_entries_hold_hashes(final(cache).sn_keccak_entries())
            && pair_entries_hold_hashes(final(cache).pedersen_pair_entries()),
{
    let ghost on = cache.on;
    let ghost pairs0 = cache.pedersen_pair_entries();
    let ghost keccak_consistent0 = sn_keccak_entries_hold_hashes(cache.sn_keccak_entries());
    let ghost consistent0 = keccak_consistent0 && pair_entries_hold_hashes(pairs0);
    let storage_var_name_hash = starknet_keccak(cache, metrics, storage_var_name.as_bytes());
    let ghost start = storage_var_name_hash@;
    let ghost keccak_entries = cache.sn_keccak_entries();
    let ghost array_entries = cache.pedersen_array_entries();
    let ghost poseidon_entries = cache.poseidon_array_entries();
    let ghost calls0 = metrics.counters.pedersen_calls;
    let ghost keccak_calls = metrics.counters.sn_keccak_calls;
    let ghost counters1 = metrics.counters;
    let mut storage_key_hash = storage_var_name_hash;
    let mut i: usize = 0;
    while i < args.len()
        invariant
            i <= args@.len(),
            cache.wf(),
            cache.on == on,
            cache.sn_keccak_entries() == keccak_entries,
            cache.pedersen_array_entries() == array_entries,
            cache.poseidon_array_entries() == poseidon_entries,
            (storage_key_hash@, cache.pedersen_pair_entries()) == pedersen_chain(
                on,
                pairs0,
                start,
                args@.take(i as int),
            ),
            consistent0 ==> storage_key_hash@ == pedersen_fold(start, args@.take(i as int))
                && pair_entries_hold_hashes(cache.pedersen_pair_entries()),
            metrics.enabled == old(metrics).enabled,
            !metrics.enabled ==> metrics.counters == counters1,
            metrics.enabled ==> metrics.counters.pedersen_calls == wrapped_count(
                calls0,
                i as nat,
            ),
            metrics.counters.sn_keccak_calls == keccak_calls,
        decreases args@.len() - i,
    {
        let ghost pairs_before = cache.pedersen_pair_entries();
        let ghost hash_before = storage_key_hash@;
        let timing_start = start_if(hash_timing_enabled(metrics));
        let left = storage_key_hash;
        let right = args[i];
        match pedersen_pair_get(cache, left, right) {
            Some(cached) => {
                storage_key_hash = cached;
                proof {
                    if consistent0 {
                        lemma_pair_key_halves(left@, right@);
                    }
                }
            },
            None => {
                storage_key_hash = pedersen(&left, &right);
                pedersen_pair_insert(cache, left, right, storage_key_hash);
                proof {
                    lemma_pair_key_halves(left@, right@);
                }
            },
        }
        match &timing_start {
            Some(start) => record_pedersen(metrics, elapsed_us(start)),
            None => {},
        }
        proof {
            lemma_wrapped_count_step(calls0, i as nat);
            assert(args@.take(i + 1).drop_last() == args@.take(i as int));
            assert(args@.take(i + 1).last() == right);
        }
        i = i + 1;
    }
    proof {
        assert(args@.take(args@.len() as int) == args@);
    }
    let bound = l2_address_upper_bound_felt();
    let storage_key = storage_key_hash.mod_floor(&bound);
    proof {
        if args@.len() == 0 && keccak_consistent0 {
            let name = storage_var_name.spec_bytes();
            assert(args@.take(0) =~= Seq::<Felt>::empty());
            assert(pedersen_chain(on, pairs0, start, args@.take(0)).0 == start);
            assert(storage_key_hash@ == start);
            assert(start == sn_keccak(name));
            lemma_storage_address_of_name_alone(name);
            lemma_be_encode_of_value(sn_keccak(name));
        }
        if args@.len() == 1 && consistent0 {
            lemma_pedersen_fold_extends_right(start, Seq::empty(), args@[0]);
            assert(Seq::<Felt>::empty().push(args@[0]) =~= args@);
        }
    }
    proof {
        assert(l2_address_upper_bound() < patricia_key_upper_bound());
    }
    StorageKey(
        PatriciaKey::try_from(storage_key).expect(
            "Should be within bounds as retrieved mod L2_ADDRESS_UPPER_BOUND.",
        ),
    )
}

/// The storage address, in a fee token contract, of the first of the two
/// cells that hold the balance of `contract_address`: the storage
/// variable `ERC20_balances` with the address as its argument.
pub fn get_fee_token_var_address(
    cache: &mut HashCache,
    metrics: &mut HashTimingState,
    contract_address: ContractAddress,
) -> (key: StorageKey)
    requires
        old(cache).wf(),
    ensures
        ({
            let on = old(cache).on;
            let name = "ERC20_balances".spec_bytes();
            let start = memoized_sn_keccak(on, old(cache).sn_keccak_entries(), name);
            let (h, pairs) = pedersen_chain(
                on,
                old(cache).pedersen_pair_entries(),
                start,
                seq![contract_address.0.0],
            );
            &&& key.0.0.value() == storage_address_of(h)
            &&& final(cache).sn_keccak_entries() == sn_keccak_entries_after(
                on,
                old(cache).sn_keccak_entries(),
                name,
            )
            &&& final(cache).pedersen_pair_entries() == pairs
        }),
        key.0.0.value() < l2_address_upper_bound(),
        key.0.is_valid(),
        final(cache).wf(),
        final(cache).on == old(cache).on,
        final(cache).pedersen_array_entries() == old(cache).pedersen_array_entries(),
        final(cache).poseidon_array_entries() == old(cache).poseidon_array_entries(),
        final(metrics).enabled == old(metrics).enabled,
        !old(metrics).enabled ==> final(metrics).counters == old(metrics).counters,
        old(metrics).enabled ==> final(metrics).counters.sn_keccak_calls == wrapped_sum(
            old(metrics).counters.sn_keccak_calls,
            1,
        ) && final(metrics).counters.pedersen_calls == wrapped_count(
            old(metrics).counters.pedersen_calls,
            1,
        ),
        sn_keccak_entries_hold_hashes(old(cache).sn_keccak_entries()) && pair_entries_hold_hashes(
            old(cache).pedersen_pair_entries(),
        ) ==> key.0.0.value() == storage_address_of(
            pedersen_hash(sn_keccak("ERC20_balances".spec_bytes()), contract_address.0.0@)@,
        ) && sn_keccak_entries_hold_hashes(final(cache).sn_keccak_entries())
            && pair_entries_hold_hashes(final(cache).pedersen_pair_entries()),
{
    let args = [*contract_address.0.key()];
    let key = get_storage_var_address(cache, metrics, "ERC20_balances", args.as_slice());
    proof {
        assert(args@ == seq![contract_address.0.0]);
        let s = seq![contract_address.0.0];
        assert(s.drop_last() =~= Seq::<Felt>::empty());
        assert(s.last() == contract_address.0.0);
        assert(pedersen_fold(sn_keccak("ERC20_balances".spec_bytes()), s.drop_last()) == sn_keccak(
            "ERC20_balances".spec_bytes(),
        ));
        assert(pedersen_fold(sn_keccak("ERC20_balances".spec_bytes()), s) == pedersen_hash(
            sn_keccak("ERC20_balances".spec_bytes()),
            contract_address.0.0@,
        )@);
    }
    key
}

} // verus!
