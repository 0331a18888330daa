//! The Starknet value types that the library's functions take and return.

use vstd::prelude::*;

use crate::felt::{
    be_encode, l2_address_upper_bound, lemma_be_value_of_encode, lemma_below_patricia_bound,
    lemma_pow256_values, patricia_key_upper_bound, Felt,
};

verus! {

/// An amount of gas of one kind.
#[derive(Clone, Copy, Debug, PartialEq, Eq, Structural)]
pub struct GasAmount(pub u64);

/// Gas amounts of the three kinds a transaction is charged for.
#[derive(Clone, Copy, Debug, PartialEq, Eq, Structural)]
pub struct GasVector {
    pub l1_gas: GasAmount,
    pub l1_data_gas: GasAmount,
    pub l2_gas: GasAmount,
}

/// A fee, in the smallest unit of the fee token.
#[derive(Clone, Copy, Debug, PartialEq, Eq, Structural)]
pub struct Fee(pub u128);

/// A key of the Patricia-Merkle state tree: a field element below 2^251.
#[derive(Clone, Copy, Debug, PartialEq, Eq, Hash)]
pub struct PatriciaKey(pub Felt);

/// Why a value was refused.
#[derive(Clone, Copy, Debug, PartialEq, Eq)]
pub enum StarknetApiError {
    /// A Patricia key was asked for a value of 2^251 or more.
    OutOfRange,
}

impl PatriciaKey {
    /// The key lies below 2^251.
    pub open spec fn is_valid(self) -> bool {
        self.0.value() < patricia_key_upper_bound()
    }

    /// The key `value`, refused where `value` is 2^251 or more.
    pub fn try_from(value: Felt) -> (key: Result<PatriciaKey, StarknetApiError>)
        ensures
            value.value() < patricia_key_upper_bound() ==> key == Ok::<
                PatriciaKey,
                StarknetApiError,
            >(PatriciaKey(value)),
            value.value() >= patricia_key_upper_bound() ==> key == Err::<
                PatriciaKey,
                StarknetApiError,
            >(StarknetApiError::OutOfRange),
    {
        proof {
            lemma_below_patricia_bound(value@);
        }
        if value.bytes[0] < 8 {
            Ok(PatriciaKey(value))
        } else {
            Err(StarknetApiError::OutOfRange)
        }
    }

    /// The element that the key is.
    pub fn key(&self) -> (k: &Felt)
        ensures
            *k == self.0,
    {
        &self.0
    }
}

/// The 32-byte encoding of 2^251 - 256.
#[verifier::spinoff_prover]
#[verifier::rlimit(60)]
proof fn lemma_l2_bound_encoding()
    ensures
        be_encode(l2_address_upper_bound(), 32) == seq![
            0x07u8, 0xff, 0xff, 0xff, 0xff, 0xff, 0xff, 0xff, 0xff, 0xff, 0xff, 0xff, 0xff, 0xff,
            0xff, 0xff, 0xff, 0xff, 0xff, 0xff, 0xff, 0xff, 0xff, 0xff, 0xff, 0xff, 0xff, 0xff,
            0xff, 0xff, 0xff, 0x00,
        ],
{
    reveal_with_fuel(be_encode, 33);
}

/// The element 2^251 - 256, below which storage addresses are reduced.
pub fn l2_address_upper_bound_felt() -> (f: Felt)
    ensures
        f.value() == l2_address_upper_bound(),
        f.is_canonical(),
{
    let f = Felt {
        bytes: [
            0x07, 0xff, 0xff, 0xff, 0xff, 0xff, 0xff, 0xff, 0xff, 0xff, 0xff, 0xff, 0xff, 0xff,
            0xff, 0xff, 0xff, 0xff, 0xff, 0xff, 0xff, 0xff, 0xff, 0xff, 0xff, 0xff, 0xff, 0xff,
            0xff, 0xff, 0xff, 0x00,
        ],
    };
    proof {
        lemma_l2_bound_encoding();
        assert(f@ =~= be_encode(l2_address_upper_bound(), 32));
        lemma_be_value_of_encode(l2_address_upper_bound(), 32);
        lemma_pow256_values();
    }
    f
}

/// The address of a contract.
#[derive(Clone, Copy, Debug, PartialEq, Eq, Hash)]
pub struct ContractAddress(pub PatriciaKey);

/// The key of a storage cell of a contract.
#[derive(Clone, Copy, Debug, PartialEq, Eq, Hash)]
pub struct StorageKey(pub PatriciaKey);

/// The selector of an entry point of a contract.
#[derive(Clone, Copy, Debug, PartialEq, Eq, Hash)]
pub struct EntryPointSelector(pub Felt);

/// The hash of a transaction.
#[derive(Clone, Copy, Debug, PartialEq, Eq, Hash)]
pub struct TransactionHash(pub Felt);

} // verus!
