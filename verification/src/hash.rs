//! The Starknet-Keccak hash, memoized and timed, and the hex rendering
//! of byte strings.

use vstd::prelude::*;

use crate::clock::{elapsed_us, start_if};
use crate::counters::wrapped_sum;
use crate::felt::{
    be_value, field_prime, hex_literal_digits, hex_value, is_felt_hex_literal,
    lemma_be_encode_of_value, lemma_first_byte_below_four, Felt,
};
use crate::hash_cache::{
    lookup, sn_keccak_get, sn_keccak_insert, stored, HashCache, SN_KECCAK_CACHE_CAPACITY,
};
use crate::hash_metrics::{hash_timing_enabled, record_sn_keccak, HashTimingState};
use crate::primitives::{keccak256, keccak256_digest};
use vstd::string::StringSliceAdditionalSpecFns;

verus! {

/// The hashes of Starknet are field elements.
pub type StarkHash = Felt;

/// A Poseidon hash.
#[derive(Clone, Copy, Debug, PartialEq, Eq, Hash, PartialOrd, Ord)]
pub struct PoseidonHash(pub Felt);

impl Default for PoseidonHash {
    /// The hash that is the zero element.
    fn default() -> (h: PoseidonHash)
        ensures
            h.0.value() == 0,
            h.0@ == Seq::new(32, |i: int| 0u8),
    {
        let h = PoseidonHash(Felt { bytes: [0u8; 32] });
        proof {
            assert(h.0@ =~= Seq::new(32, |i: int| 0u8));
            crate::felt::lemma_zero_bytes_value(h.0@);
        }
        h
    }
}

/// Makes elements of integers and of hex literals, for tests.
pub struct FeltConverter;

/// A conversion of `V` values to elements.
pub trait TryIntoFelt<V> {
    /// Whether `v` can be converted.
    spec fn convertible(v: V) -> bool;

    /// The element that `v` stands for.
    fn to_felt_unchecked(v: V) -> (f: Felt)
        requires
            Self::convertible(v),
    ;
}

impl TryIntoFelt<u128> for FeltConverter {
    open spec fn convertible(v: u128) -> bool {
        true
    }

    fn to_felt_unchecked(v: u128) -> (f: Felt)
        ensures
            f.value() == v,
    {
        Felt::from_u128(v)
    }
}

impl TryIntoFelt<u64> for FeltConverter {
    open spec fn convertible(v: u64) -> bool {
        true
    }

    fn to_felt_unchecked(v: u64) -> (f: Felt)
        ensures
            f.value() == v,
    {
        Felt::from_u128(v as u128)
    }
}

impl TryIntoFelt<u32> for FeltConverter {
    open spec fn convertible(v: u32) -> bool {
        true
    }

    fn to_felt_unchecked(v: u32) -> (f: Felt)
        ensures
            f.value() == v,
    {
        Felt::from_u128(v as u128)
    }
}

impl TryIntoFelt<u16> for FeltConverter {
    open spec fn convertible(v: u16) -> bool {
        true
    }

    fn to_felt_unchecked(v: u16) -> (f: Felt)
        ensures
            f.value() == v,
    {
        Felt::from_u128(v as u128)
    }
}

impl TryIntoFelt<u8> for FeltConverter {
    open spec fn convertible(v: u8) -> bool {
        true
    }

    fn to_felt_unchecked(v: u8) -> (f: Felt)
        ensures
            f.value() == v,
    {
        Felt::from_u128(v as u128)
    }
}

impl<'a> TryIntoFelt<&'a str> for FeltConverter {
    open spec fn convertible(v: &'a str) -> bool {
        is_felt_hex_literal(v.spec_bytes())
    }

    fn to_felt_unchecked(v: &'a str) -> (f: Felt)
        ensures
            f.value() == hex_value(hex_literal_digits(v.spec_bytes())) % field_prime(),
    {
        Felt::from_hex_unchecked(v)
    }
}

/// Starknet-Keccak: the Keccak-256 digest with its six most significant
/// bits cleared, so that it fits in a field element.
pub open spec fn sn_keccak(data: Seq<u8>) -> Seq<u8> {
    let d = keccak256(data)@;
    d.update(0, d[0] & 3)
}

/// 2^250: Starknet-Keccak hashes lie below it.
pub open spec fn sn_keccak_upper_bound() -> nat {
    0x400000000000000000000000000000000000000000000000000000000000000nat
}

/// Every cached Starknet-Keccak entry is the hash of its key.
pub open spec fn sn_keccak_entries_hold_hashes(entries: Map<Seq<u8>, Seq<u8>>) -> bool {
    forall|k: Seq<u8>| #[trigger] entries.contains_key(k) ==> entries[k] == sn_keccak(k)
}

/// What a memoized Starknet-Keccak of `data` returns: the cached hash
/// where memoization is on and one is cached, the computed one otherwise.
pub open spec fn memoized_sn_keccak(on: bool, entries: Map<Seq<u8>, Seq<u8>>, data: Seq<u8>) -> Seq<
    u8,
> {
    match lookup(on, entries, data) {
        Some(v) => v,
        None => sn_keccak(data),
    }
}

/// The Starknet-Keccak entries after a memoized hash of `data`: the
/// computed hash is stored where none was found.
pub open spec fn sn_keccak_entries_after(
    on: bool,
    entries: Map<Seq<u8>, Seq<u8>>,
    data: Seq<u8>,
) -> Map<Seq<u8>, Seq<u8>> {
    match lookup(on, entries, data) {
        Some(_) => entries,
        None => stored(on, entries, SN_KECCAK_CACHE_CAPACITY as nat, data, sn_keccak(data)),
    }
}

/// Memoization never changes a Starknet-Keccak hash: where every cached
/// entry is the hash of its key, a memoized hash is the hash itself, and
/// every entry afterwards is still the hash of its key.
pub proof fn lemma_memoized_sn_keccak_is_sn_keccak(
    on: bool,
    entries: Map<Seq<u8>, Seq<u8>>,
    data: Seq<u8>,
)
    requires
        sn_keccak_entries_hold_hashes(entries),
    ensures
        memoized_sn_keccak(on, entries, data) == sn_keccak(data),
        sn_keccak_entries_hold_hashes(sn_keccak_entries_after(on, entries, data)),
{
    let after = sn_keccak_entries_after(on, entries, data);
    assert forall|k: Seq<u8>| #[trigger] after.contains_key(k) implies after[k] == sn_keccak(k) by {
        if k != data {
            assert(entries.contains_key(k));
        }
    }
}

/// Starknet-Keccak of `data`, computed.
pub fn compute_sn_keccak(data: &[u8]) -> (h: Felt)
    ensures
        h@ == sn_keccak(data@),
        h.value() < sn_keccak_upper_bound(),
        h.is_canonical(),
{
    sn_keccak_of_digest(keccak256_digest(data))
}

/// The Starknet-Keccak hash made of a Keccak-256 digest: the digest with
/// its six most significant bits cleared, as a field element.
pub fn sn_keccak_of_digest(digest: [u8; 32]) -> (h: Felt)
    ensures
        h@ == digest@.update(0, digest@[0] & 3),
        h.value() < sn_keccak_upper_bound(),
        h.is_canonical(),
{
    let mut hashed_bytes = digest;
    let b0 = hashed_bytes[0];
    let first = b0 & 3u8;
    assert(first < 4) by (bit_vector)
        requires
            first == b0 & 3u8,
    ;
    hashed_bytes[0] = first;
    proof {
        assert(hashed_bytes@ == digest@.update(0, digest@[0] & 3));
        lemma_first_byte_below_four(hashed_bytes@);
        lemma_be_encode_of_value(hashed_bytes@);
        assert(be_value(hashed_bytes@) % field_prime() == be_value(hashed_bytes@));
    }
    Felt::from_bytes_be(&hashed_bytes)
}

/// A Starknet-Keccak hash is 32 bytes long and lies below 2^250.
pub proof fn lemma_sn_keccak_bound(data: Seq<u8>)
    ensures
        sn_keccak(data).len() == 32,
        be_value(sn_keccak(data)) < sn_keccak_upper_bound(),
{
    let d = keccak256(data)@;
    let b = d[0];
    assert(b & 3u8 < 4u8) by (bit_vector);
    assert(sn_keccak(data)[0] == b & 3u8);
    lemma_first_byte_below_four(sn_keccak(data));
}

/// Starknet-Keccak of `input`: the first 250 bits of its Keccak-256
/// digest, as a field element. Where memoization is on, a cached hash is
/// returned and a computed one is cached; where hash timing is on, the
/// call is counted and timed.
pub fn starknet_keccak_hash(
    cache: &mut HashCache,
    metrics: &mut HashTimingState,
    input: &[u8],
) -> (h: Felt)
    requires
        old(cache).wf(),
    ensures
        h@ == memoized_sn_keccak(old(cache).on, old(cache).sn_keccak_entries(), input@),
        final(cache).wf(),
        final(cache).on == old(cache).on,
        final(cache).sn_keccak_entries() == sn_keccak_entries_after(
            old(cache).on,
            old(cache).sn_keccak_entries(),
            input@,
        ),
        final(cache).pedersen_pair_entries() == old(cache).pedersen_pair_entries(),
        final(cache).pedersen_array_entries() == old(cache).pedersen_array_entries(),
        final(cache).poseidon_array_entries() == old(cache).poseidon_array_entries(),
        final(metrics).enabled == old(metrics).enabled,
        !old(metrics).enabled ==> final(metrics).counters == old(metrics).counters,
        old(metrics).enabled ==> final(metrics).counters.sn_keccak_calls == wrapped_sum(
            old(metrics).counters.sn_keccak_calls,
            1,
        ),
        final(metrics).counters.pedersen_us == old(metrics).counters.pedersen_us,
        final(metrics).counters.pedersen_calls == old(metrics).counters.pedersen_calls,
        sn_keccak_entries_hold_hashes(old(cache).sn_keccak_entries()) ==> h@ == sn_keccak(input@)
            && h.value() < sn_keccak_upper_bound() && sn_keccak_entries_hold_hashes(
            final(cache).sn_keccak_entries(),
        ),
        old(cache).on && old(cache).sn_keccak_entries().contains_key(input@) ==> {
            &&& h@ == old(cache).sn_keccak_entries()[input@]
            &&& final(cache).sn_keccak_entries() == old(cache).sn_keccak_entries()
        },
        !(old(cache).on && old(cache).sn_keccak_entries().contains_key(input@)) ==> h@
            == sn_keccak(input@),
        old(cache).on ==> {
            &&& final(cache).sn_keccak_entries().contains_key(input@)
            &&& final(cache).sn_keccak_entries()[input@] == h@
        },
        !old(cache).on ==> final(cache).sn_keccak_entries() == old(cache).sn_keccak_entries(),
{
    let timing_start = start_if(hash_timing_enabled(metrics));
    match sn_keccak_get(cache, input) {
        Some(cached) => {
            match &timing_start {
                Some(start) => record_sn_keccak(metrics, elapsed_us(start)),
                None => {},
            }
            proof {
                if sn_keccak_entries_hold_hashes(cache.sn_keccak_entries()) {
                    lemma_sn_keccak_bound(input@);
                }
            }
            return cached;
        },
        None => {},
    }
    let felt = compute_sn_keccak(input);
    sn_keccak_insert(cache, input, felt);
    match &timing_start {
        Some(start) => record_sn_keccak(metrics, elapsed_us(start)),
        None => {},
    }
    felt
}

/// The lower-case hex digit of a number below 16.
pub open spec fn hex_digit(n: nat) -> char {
    if n < 10 {
        (48 + n) as char
    } else {
        (87 + n) as char
    }
}

/// The lower-case hex digits of a byte string, two per byte, most
/// significant first.
pub open spec fn hex_digits(data: Seq<u8>) -> Seq<char>
    decreases data.len(),
{
    if data.len() == 0 {
        Seq::empty()
    } else {
        hex_digits(data.drop_last()) + seq![
            hex_digit((data.last() / 16) as nat),
            hex_digit((data.last() % 16) as nat),
        ]
    }
}

/// The hex rendering has two digits per byte, each a lower-case hex
/// digit.
pub proof fn lemma_hex_digits_shape(data: Seq<u8>)
    ensures
        hex_digits(data).len() == 2 * data.len(),
        forall|i: int|
            0 <= i < hex_digits(data).len() ==> {
                let c = #[trigger] hex_digits(data)[i];
                ('0' <= c <= '9') || ('a' <= c <= 'f')
            },
    decreases data.len(),
{
    if data.len() > 0 {
        lemma_hex_digits_shape(data.drop_last());
        let last = data.last();
        assert(last / 16 < 16);
        assert(last % 16 < 16);
    }
}

/// `std::string::String::push`. Claimed: `c` is appended.
#[verifier::external_body]
fn string_push(s: &mut String, c: char)
    ensures
        final(s)@ == old(s)@.push(c),
{
    s.push(c);
}

fn hex_digit_char(n: u8) -> (c: char)
    requires
        n < 16,
    ensures
        c == hex_digit(n as nat),
{
    if n < 10 {
        (48u8 + n) as char
    } else {
        (87u8 + n) as char
    }
}

/// `0x` followed by two lower-case hex digits per byte of `data`.
pub fn bytes_to_hex(data: &[u8]) -> (hex: String)
    ensures
        hex@ == seq!['0', 'x'] + hex_digits(data@),
{
    let mut out = String::new();
    string_push(&mut out, '0');
    string_push(&mut out, 'x');
    let mut i: usize = 0;
    while i < data.len()
        invariant
            i <= data@.len(),
            out@ == seq!['0', 'x'] + hex_digits(data@.take(i as int)),
        decreases data@.len() - i,
    {
        let b = data[i];
        string_push(&mut out, hex_digit_char(b / 16));
        string_push(&mut out, hex_digit_char(b % 16));
        i = i + 1;
        assert(data@.take(i as int).drop_last() == data@.take(i - 1));
        assert(out@ == seq!['0', 'x'] + hex_digits(data@.take(i as int)));
    }
    assert(data@.take(data@.len() as int) == data@);
    out
}

} // verus!
