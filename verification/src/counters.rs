//! The two kinds of 64-bit counter arithmetic that the metrics use.

use vstd::prelude::*;

verus! {

/// 2^64, the modulus of wrapping counter arithmetic.
pub open spec fn u64_modulus() -> int {
    0x1_0000_0000_0000_0000
}

/// What a counter holds after `amount` is added to `counter` with
/// wrapping arithmetic.
pub open spec fn wrapped_sum(counter: u64, amount: u64) -> u64 {
    ((counter + amount) % u64_modulus()) as u64
}

/// What a counter holds after `n` increments with wrapping arithmetic.
pub open spec fn wrapped_count(counter: u64, n: nat) -> u64 {
    ((counter + n) % u64_modulus()) as u64
}

/// One more wrapping increment after `n` of them.
pub proof fn lemma_wrapped_count_step(counter: u64, n: nat)
    ensures
        wrapped_sum(wrapped_count(counter, n), 1) == wrapped_count(counter, n + 1),
{
    vstd::arithmetic::div_mod::lemma_add_mod_noop(counter + n, 1, u64_modulus());
    vstd::arithmetic::div_mod::lemma_mod_twice(counter + n, u64_modulus());
    assert(1int % u64_modulus() == 1);
}

/// A running total kept modulo 2^64: adding `amount` to the kept total
/// keeps the new total.
pub proof fn lemma_wrapped_total_step(total: nat, amount: u64)
    ensures
        wrapped_sum((total as int % u64_modulus()) as u64, amount) == ((total + amount)
            % u64_modulus()) as u64,
{
    vstd::arithmetic::div_mod::lemma_add_mod_noop(total as int, amount as int, u64_modulus());
    vstd::arithmetic::div_mod::lemma_mod_twice(total as int, u64_modulus());
    vstd::arithmetic::div_mod::lemma_small_mod(amount as nat, u64_modulus() as nat);
}

/// A figure that counts up to `u64::MAX` and stays there.
pub open spec fn capped(n: nat) -> u64 {
    if n > u64::MAX {
        u64::MAX
    } else {
        n as u64
    }
}

/// A figure held at `u64::MAX`: adding `amount` to the capped total caps
/// the new total.
pub proof fn lemma_capped_step(total: nat, amount: u64)
    ensures
        saturated_sum(capped(total), amount) == capped((total + amount) as nat),
{
}

/// The sum of two figures, held at `u64::MAX` where it would pass it.
pub open spec fn saturated_sum(a: u64, b: u64) -> u64 {
    if a + b > u64::MAX {
        u64::MAX
    } else {
        (a + b) as u64
    }
}

/// The low 64 bits of a `u128`.
pub open spec fn low_u64(v: u128) -> u64 {
    (v % 0x1_0000_0000_0000_0000) as u64
}

/// The low 64 bits of `v`.
pub fn truncate_to_u64(v: u128) -> (low: u64)
    ensures
        low == low_u64(v),
{
    let low = v as u64;
    assert(v as u64 == (v % 0x1_0000_0000_0000_0000) as u64) by (bit_vector);
    low
}

} // verus!
