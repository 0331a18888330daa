use starknet_hashing::core_types::{l2_address_upper_bound_felt, PatriciaKey, StarknetApiError};
use starknet_hashing::felt::Felt;
use starknet_hashing::hardcoded_constants::{
    hardcoded_bouncer_gas, hardcoded_da_gas_vector, hardcoded_fee, hardcoded_gas_vector,
};
use starknet_hashing::core_types::{Fee, GasAmount, GasVector};
use starknet_hashing::hash::{
    bytes_to_hex, compute_sn_keccak, sn_keccak_of_digest, FeltConverter, PoseidonHash, TryIntoFelt,
};
use starknet_hashing::timing::BlockifierTiming;

fn bytes_of(last: &[u8]) -> [u8; 32] {
    let mut b = [0u8; 32];
    b[32 - last.len()..].copy_from_slice(last);
    b
}

#[test]
fn felt_from_integers() {
    assert_eq!(Felt::from_u128(0).bytes, [0u8; 32]);
    assert_eq!(Felt::from_u128(0x0102).bytes, bytes_of(&[1, 2]));
    assert_eq!(Felt::from_u128(u128::MAX).bytes, bytes_of(&[0xff; 16]));
    assert_eq!(<FeltConverter as TryIntoFelt<u8>>::to_felt_unchecked(5), Felt::from_u128(5));
    assert_eq!(<FeltConverter as TryIntoFelt<u16>>::to_felt_unchecked(500), Felt::from_u128(500));
    assert_eq!(<FeltConverter as TryIntoFelt<u32>>::to_felt_unchecked(7), Felt::from_u128(7));
    assert_eq!(<FeltConverter as TryIntoFelt<u64>>::to_felt_unchecked(u64::MAX), Felt::from_u128(u64::MAX as u128));
    assert_eq!(<FeltConverter as TryIntoFelt<u128>>::to_felt_unchecked(9), Felt::from_u128(9));
}

#[test]
fn felt_from_hex() {
    assert_eq!(Felt::from_hex_unchecked("0x1a"), Felt::from_u128(26));
    assert_eq!(Felt::from_hex_unchecked("1A"), Felt::from_u128(26));
    assert_eq!(Felt::from_hex_unchecked(""), Felt::from_u128(0));
    assert_eq!(<FeltConverter as TryIntoFelt<&str>>::to_felt_unchecked("0xff"), Felt::from_u128(255));
    // The prime itself is zero.
    assert_eq!(
        Felt::from_hex_unchecked("0x800000000000011000000000000000000000000000000000000000000000001"),
        Felt::from_u128(0)
    );
}

#[test]
fn felt_from_bytes_reduces_modulo_the_prime() {
    let p_minus_one =
        Felt::from_hex_unchecked("0x800000000000011000000000000000000000000000000000000000000000000");
    let mut p_plus_one = p_minus_one.bytes;
    p_plus_one[31] = 2; // the prime plus one
    assert_eq!(Felt::from_bytes_be(&p_plus_one), Felt::from_u128(1));
    assert_eq!(Felt::from_bytes_be(&bytes_of(&[3, 4])), Felt::from_u128(0x0304));
    assert_eq!(Felt::from_u128(77).to_bytes_be(), bytes_of(&[77]));
}

#[test]
fn felt_mod_floor() {
    let a = Felt::from_u128(100);
    assert_eq!(a.mod_floor(&Felt::from_u128(7)), Felt::from_u128(2));
    assert_eq!(a.mod_floor(&Felt::from_u128(101)), a);
}

#[test]
fn patricia_keys_lie_below_two_to_251() {
    let mut below = [0xffu8; 32];
    below[0] = 0x07;
    let just_below = Felt { bytes: below };
    assert_eq!(PatriciaKey::try_from(just_below), Ok(PatriciaKey(just_below)));
    let mut at_bound = [0u8; 32];
    at_bound[0] = 0x08;
    let bound = Felt { bytes: at_bound };
    assert_eq!(PatriciaKey::try_from(bound), Err(StarknetApiError::OutOfRange));
    assert_eq!(PatriciaKey::try_from(Felt::from_u128(0)), Ok(PatriciaKey(Felt::from_u128(0))));
    let k = PatriciaKey(Felt::from_u128(3));
    assert_eq!(*k.key(), Felt::from_u128(3));
}

#[test]
fn l2_address_bound_is_two_to_251_minus_256() {
    let b = l2_address_upper_bound_felt();
    assert_eq!(
        b,
        Felt::from_hex_unchecked("0x7ffffffffffffffffffffffffffffffffffffffffffffffffffffffffffff00")
    );
}

#[test]
fn hex_rendering() {
    assert_eq!(bytes_to_hex(&[]), "0x");
    assert_eq!(bytes_to_hex(&[0x00, 0xab, 0x10, 0xff]), "0x00ab10ff");
    assert_eq!(bytes_to_hex(b"A"), "0x41");
}

#[test]
fn hardcoded_figures() {
    assert_eq!(hardcoded_fee(), Fee(0x2639_288b_e94));
    assert_eq!(
        hardcoded_gas_vector(),
        GasVector { l1_gas: GasAmount(0), l1_data_gas: GasAmount(576), l2_gas: GasAmount(25_696_375) }
    );
    assert_eq!(
        hardcoded_da_gas_vector(),
        GasVector { l1_gas: GasAmount(0), l1_data_gas: GasAmount(576), l2_gas: GasAmount(0) }
    );
    assert_eq!(hardcoded_bouncer_gas(true), (GasAmount(600_124_824), GasAmount(606_943_554)));
    assert_eq!(hardcoded_bouncer_gas(false), (GasAmount(37_282_620), GasAmount(41_409_414)));
}

#[test]
fn sn_keccak_keeps_the_low_250_bits_of_the_digest() {
    let mut digest = [0xffu8; 32];
    let mut expected = [0xffu8; 32];
    expected[0] = 0x03;
    assert_eq!(sn_keccak_of_digest(digest).bytes, expected);
    digest[0] = 0xc5;
    expected[0] = 0x01;
    assert_eq!(sn_keccak_of_digest(digest).bytes, expected);
}

#[test]
fn sn_keccak_of_the_empty_input() {
    // Keccak-256 of nothing is c5d2460186f7233c...; its top six bits are dropped.
    let h = compute_sn_keccak(b"");
    assert_eq!(
        bytes_to_hex(&h.bytes),
        "0x01d2460186f7233c927e7db2dcc703c0e500b653ca82273b7bfad8045d85a470"
    );
}

#[test]
fn defaults_are_zero() {
    assert_eq!(PoseidonHash::default(), PoseidonHash(Felt::from_u128(0)));
    let t = BlockifierTiming::default();
    assert_eq!(t.state_read_us, 0);
    assert_eq!(t.hash_poseidon_calls, 0);
    assert_eq!(t.hash_pedersen_us, 0);
    assert!(PoseidonHash(Felt::from_u128(1)) < PoseidonHash(Felt::from_u128(2)));
}
