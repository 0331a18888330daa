//! Field elements of the Starknet prime field, held as their 32-byte
//! big-endian encoding, and the arithmetic facts about that encoding
//! that the rest of the library relies on.

use vstd::prelude::*;
use vstd::string::StringSliceAdditionalSpecFns;

verus! {

/// The Starknet field prime, 2^251 + 17 * 2^192 + 1.
pub open spec fn field_prime() -> nat {
    0x800000000000011000000000000000000000000000000000000000000000001nat
}

/// A field element, held as the 32-byte big-endian encoding of its
/// canonical representative.
#[derive(Clone, Copy, Debug, PartialEq, Eq, Hash, PartialOrd, Ord)]
pub struct Felt {
    pub bytes: [u8; 32],
}

impl View for Felt {
    type V = Seq<u8>;

    open spec fn view(&self) -> Seq<u8> {
        self.bytes@
    }
}

/// The number that a big-endian byte string denotes.
pub open spec fn be_value(s: Seq<u8>) -> nat
    decreases s.len(),
{
    if s.len() == 0 {
        0
    } else {
        be_value(s.drop_last()) * 256 + s.last() as nat
    }
}

/// The `n`-byte big-endian encoding of `v` modulo 256^n.
pub open spec fn be_encode(v: nat, n: nat) -> Seq<u8>
    decreases n,
{
    if n == 0 {
        Seq::empty()
    } else {
        be_encode(v / 256, (n - 1) as nat).push((v % 256) as u8)
    }
}

/// 256 to the power `n`.
pub open spec fn pow256(n: nat) -> nat
    decreases n,
{
    if n == 0 {
        1
    } else {
        256 * pow256((n - 1) as nat)
    }
}

/// 2^251: Patricia keys, and so contract addresses and storage keys,
/// lie below it.
pub open spec fn patricia_key_upper_bound() -> nat {
    0x800000000000000000000000000000000000000000000000000000000000000nat
}

/// 2^251 - 256: storage addresses are reduced modulo it.
pub open spec fn l2_address_upper_bound() -> nat {
    0x7ffffffffffffffffffffffffffffffffffffffffffffffffffffffffffff00nat
}

impl Felt {
    /// The element that this encoding denotes.
    pub open spec fn value(self) -> nat {
        be_value(self.bytes@)
    }

    /// The encoding is that of a field element: its value lies below the prime.
    pub open spec fn is_canonical(self) -> bool {
        self.value() < field_prime()
    }
}

/// The first byte of a non-empty big-endian string fixes its value up to
/// one unit of 256 to the power of the remaining length.
pub proof fn lemma_be_value_first_byte(s: Seq<u8>)
    requires
        s.len() >= 1,
    ensures
        s[0] * pow256((s.len() - 1) as nat) <= be_value(s),
        be_value(s) < (s[0] + 1) * pow256((s.len() - 1) as nat),
    decreases s.len(),
{
    let t = s.drop_last();
    if s.len() == 1 {
        assert(be_value(t) == 0);
        assert(s.last() == s[0]);
        assert(pow256(0) == 1);
        assert(be_value(s) == s[0]);
    } else {
        lemma_be_value_first_byte(t);
        assert(t[0] == s[0]);
        let a = be_value(t);
        let p = pow256((t.len() - 1) as nat);
        let b = s[0] as nat;
        let l = s.last() as nat;
        assert(pow256((s.len() - 1) as nat) == 256 * p);
        assert(b * (256 * p) <= a * 256 + l && a * 256 + l < (b + 1) * (256 * p))
            by (nonlinear_arith)
            requires
                b * p <= a,
                a < (b + 1) * p,
                l < 256,
        ;
        assert(be_value(s) == a * 256 + l);
    }
}

/// A string of zero bytes denotes zero.
pub proof fn lemma_zero_bytes_value(s: Seq<u8>)
    requires
        forall|i: int| 0 <= i < s.len() ==> s[i] == 0,
    ensures
        be_value(s) == 0,
    decreases s.len(),
{
    if s.len() > 0 {
        lemma_zero_bytes_value(s.drop_last());
    }
}

/// Encoding `v` in `n` bytes gives `n` bytes.
pub proof fn lemma_be_encode_len(v: nat, n: nat)
    ensures
        be_encode(v, n).len() == n,
    decreases n,
{
    if n > 0 {
        lemma_be_encode_len(v / 256, (n - 1) as nat);
    }
}

/// Decoding the `n`-byte encoding of `v` gives `v` modulo 256^n.
pub proof fn lemma_be_value_of_encode(v: nat, n: nat)
    ensures
        be_value(be_encode(v, n)) == v % pow256(n),
    decreases n,
{
    if n > 0 {
        let e = be_encode(v, n);
        lemma_be_encode_len(v, n);
        lemma_be_value_of_encode(v / 256, (n - 1) as nat);
        assert(e.drop_last() =~= be_encode(v / 256, (n - 1) as nat));
        let p = pow256((n - 1) as nat);
        assert(p > 0) by {
            lemma_pow256_positive((n - 1) as nat);
        }
        assert(((v / 256) % p) * 256 + v % 256 == v % (256 * p)) by (nonlinear_arith)
            requires
                p > 0,
        {
            vstd::arithmetic::div_mod::lemma_breakdown(v as int, 256, p as int);
        }
    }
}

/// 256 to any power is positive.
pub proof fn lemma_pow256_positive(n: nat)
    ensures
        pow256(n) > 0,
    decreases n,
{
    if n > 0 {
        lemma_pow256_positive((n - 1) as nat);
    }
}

/// Encoding the value of a byte string in as many bytes gives it back.
pub proof fn lemma_be_encode_of_value(s: Seq<u8>)
    ensures
        be_encode(be_value(s), s.len()) == s,
    decreases s.len(),
{
    if s.len() > 0 {
        let t = s.drop_last();
        lemma_be_encode_of_value(t);
        let v = be_value(s);
        assert(v / 256 == be_value(t) && v % 256 == s.last() as nat) by (nonlinear_arith)
            requires
                v == be_value(t) * 256 + s.last() as nat,
                s.last() < 256,
        ;
        assert(be_encode(v, s.len()) =~= t.push(s.last()));
        assert(t.push(s.last()) =~= s);
    }
}

/// The powers of 256 that the bounds of the library are made of.
pub proof fn lemma_pow256_values()
    ensures
        pow256(24) == 0x1000000000000000000000000000000000000000000000000nat,
        pow256(31) == 0x100000000000000000000000000000000000000000000000000000000000000nat,
        pow256(32) == 0x10000000000000000000000000000000000000000000000000000000000000000nat,
{
    reveal_with_fuel(pow256, 33);
}

/// A 32-byte string denotes a number below 2^251 exactly when its first
/// byte is below 8.
pub proof fn lemma_below_patricia_bound(s: Seq<u8>)
    requires
        s.len() == 32,
    ensures
        be_value(s) < patricia_key_upper_bound() <==> s[0] < 8,
{
    lemma_be_value_first_byte(s);
    lemma_pow256_values();
    let p = pow256(31);
    let b = s[0] as nat;
    if b < 8 {
        assert((b + 1) * p <= 8 * p) by (nonlinear_arith)
            requires
                b < 8,
        ;
    } else {
        assert(8 * p <= b * p) by (nonlinear_arith)
            requires
                b >= 8,
        ;
    }
}

/// A 32-byte string whose first byte is below 4 denotes a number below
/// 2^250, and so below the field prime.
pub proof fn lemma_first_byte_below_four(s: Seq<u8>)
    requires
        s.len() == 32,
        s[0] < 4,
    ensures
        be_value(s) < 0x400000000000000000000000000000000000000000000000000000000000000nat,
        be_value(s) < field_prime(),
{
    lemma_be_value_first_byte(s);
    lemma_pow256_values();
    let p = pow256(31);
    let b = s[0] as nat;
    assert((b + 1) * p <= 4 * p) by (nonlinear_arith)
        requires
            b < 4,
    ;
}

/// `starknet_types_core::felt::Felt::from_bytes_be`, read back with
/// `to_bytes_be`. Claimed: the element is the big-endian number of the
/// bytes reduced modulo the field prime, and it is read back as the
/// 32-byte big-endian encoding of that canonical representative.
#[verifier::external_body]
fn felt_from_bytes_be(bytes: &[u8; 32]) -> (f: Felt)
    ensures
        f@ == be_encode(be_value(bytes@) % field_prime(), 32),
{
    Felt { bytes: starknet_types_core::felt::Felt::from_bytes_be(bytes).to_bytes_be() }
}

/// `starknet_types_core::felt::Felt::from(u128)`, read back with
/// `to_bytes_be`. Claimed: the element is `v` itself.
#[verifier::external_body]
fn felt_from_u128(v: u128) -> (f: Felt)
    ensures
        f@ == be_encode(v as nat, 32),
{
    Felt { bytes: starknet_types_core::felt::Felt::from(v).to_bytes_be() }
}

/// `starknet_types_core::felt::Felt::mod_floor`, with the modulus made a
/// `NonZeroFelt` from its raw limbs as `NonZeroFelt::from_raw` takes
/// them, read back with `to_bytes_be`. Claimed: the remainder of the
/// canonical representative of `a` divided by that of `n`, as integers.
/// `NonZeroFelt::from_raw` panics on zero, which `requires` leaves out.
#[verifier::external_body]
fn felt_mod_floor(a: &Felt, n: &Felt) -> (r: Felt)
    requires
        be_value(n@) % field_prime() != 0,
    ensures
        r@ == be_encode(
            (be_value(a@) % field_prime()) % (be_value(n@) % field_prime()),
            32,
        ),
{
    let a = starknet_types_core::felt::Felt::from_bytes_be(&a.bytes);
    let n = starknet_types_core::felt::Felt::from_bytes_be(&n.bytes);
    let n = starknet_types_core::felt::NonZeroFelt::from_raw(n.to_raw());
    Felt { bytes: a.mod_floor(&n).to_bytes_be() }
}

/// Whether a byte is an ASCII hex digit, in either case.
pub open spec fn is_hex_digit(b: u8) -> bool {
    (0x30 <= b <= 0x39) || (0x61 <= b <= 0x66) || (0x41 <= b <= 0x46)
}

/// The number an ASCII hex digit stands for.
pub open spec fn hex_digit_value(b: u8) -> nat {
    if 0x30 <= b <= 0x39 {
        (b - 0x30) as nat
    } else if 0x61 <= b <= 0x66 {
        (b - 0x61 + 10) as nat
    } else {
        (b - 0x41 + 10) as nat
    }
}

/// The number that a string of hex digits stands for, most significant
/// first.
pub open spec fn hex_value(digits: Seq<u8>) -> nat
    decreases digits.len(),
{
    if digits.len() == 0 {
        0
    } else {
        hex_value(digits.drop_last()) * 16 + hex_digit_value(digits.last())
    }
}

/// The digits of a hex literal: what follows a leading `0x`, where the
/// literal is longer than that prefix; the whole literal otherwise.
pub open spec fn hex_literal_digits(text: Seq<u8>) -> Seq<u8> {
    if text.len() > 2 && text[0] == 0x30 && text[1] == 0x78 {
        text.skip(2)
    } else {
        text
    }
}

/// A hex literal that `Felt::from_hex_unchecked` takes: at most 64
/// digits, each a hex digit.
pub open spec fn is_felt_hex_literal(text: Seq<u8>) -> bool {
    let digits = hex_literal_digits(text);
    &&& digits.len() <= 64
    &&& forall|i: int| 0 <= i < digits.len() ==> is_hex_digit(#[trigger] digits[i])
}

/// `starknet_types_core::felt::Felt::from_hex_unchecked`, read back with
/// `to_bytes_be`. Claimed: the element is the number the hex digits
/// stand for, reduced modulo the field prime. The function panics on a
/// character that is not a hex digit and overflows on more than 64
/// digits, which `requires` leaves out.
#[verifier::external_body]
fn felt_from_hex_unchecked(text: &str) -> (f: Felt)
    requires
        is_felt_hex_literal(text.spec_bytes()),
    ensures
        f@ == be_encode(hex_value(hex_literal_digits(text.spec_bytes())) % field_prime(), 32),
{
    Felt { bytes: starknet_types_core::felt::Felt::from_hex_unchecked(text).to_bytes_be() }
}

impl Felt {
    /// The element that the hex literal `text` stands for, reduced
    /// modulo the field prime; the literal may start with `0x`.
    pub fn from_hex_unchecked(text: &str) -> (f: Felt)
        requires
            is_felt_hex_literal(text.spec_bytes()),
        ensures
            f.value() == hex_value(hex_literal_digits(text.spec_bytes())) % field_prime(),
            f.is_canonical(),
    {
        let f = felt_from_hex_unchecked(text);
        proof {
            lemma_encoded_element(hex_value(hex_literal_digits(text.spec_bytes())) % field_prime());
        }
        f
    }

    /// The element whose canonical representative has the big-endian
    /// encoding `bytes`, reduced modulo the field prime.
    pub fn from_bytes_be(bytes: &[u8; 32]) -> (f: Felt)
        ensures
            f@ == be_encode(be_value(bytes@) % field_prime(), 32),
            f.value() == be_value(bytes@) % field_prime(),
            f.is_canonical(),
    {
        let f = felt_from_bytes_be(bytes);
        proof {
            lemma_encoded_element(be_value(bytes@) % field_prime());
        }
        f
    }

    /// The element `v`.
    pub fn from_u128(v: u128) -> (f: Felt)
        ensures
            f.value() == v,
            f.is_canonical(),
    {
        let f = felt_from_u128(v);
        proof {
            lemma_pow256_values();
            lemma_encoded_element(v as nat);
        }
        f
    }

    /// The big-endian encoding of the canonical representative.
    pub fn to_bytes_be(&self) -> (bytes: [u8; 32])
        ensures
            bytes@ == self@,
    {
        self.bytes
    }

    /// The remainder of this element divided by `n`, as integers (an
    /// encoding beyond the prime stands for its reduction).
    pub fn mod_floor(&self, n: &Felt) -> (r: Felt)
        requires
            n.is_canonical(),
            n.value() != 0,
        ensures
            r.value() == (self.value() % field_prime()) % n.value(),
            r@ == be_encode(r.value(), 32),
            r.value() < n.value(),
            r.is_canonical(),
    {
        let r = felt_mod_floor(self, n);
        proof {
            let v = (self.value() % field_prime()) % n.value();
            assert(v < n.value()) by (nonlinear_arith)
                requires
                    v == (self.value() % field_prime()) % n.value(),
                    n.value() > 0,
            ;
            lemma_encoded_element(v);
        }
        r
    }
}

/// A number below the field prime, encoded in 32 bytes, is read back as
/// itself.
pub proof fn lemma_encoded_element(v: nat)
    requires
        v < field_prime(),
    ensures
        be_value(be_encode(v, 32)) == v,
        be_encode(v, 32).len() == 32,
{
    lemma_pow256_values();
    lemma_be_value_of_encode(v, 32);
    lemma_be_encode_len(v, 32);
}

} // verus!
