//! The two hash functions the library is built on: Keccak-256 and the
//! Starknet Pedersen hash.

use vstd::prelude::*;

use sha3::{Digest, Keccak256};
use starknet_types_core::hash::{Pedersen, StarkHash};

use crate::felt::Felt;

verus! {

/// The 32-byte Keccak-256 digest of a byte string.
pub uninterp spec fn keccak256(data: Seq<u8>) -> [u8; 32];

/// `sha3::Keccak256::digest`. Claimed: the 32-byte digest is
/// `keccak256` of the input, a function of the input alone.
#[verifier::external_body]
pub(crate) fn keccak256_digest(data: &[u8]) -> (digest: [u8; 32])
    ensures
        digest == keccak256(data@),
{
    Keccak256::digest(data).into()
}

/// The Starknet Pedersen hash of two elements, each given by a 32-byte
/// big-endian encoding, as the 32-byte big-endian encoding of the hash.
pub uninterp spec fn pedersen_hash(a: Seq<u8>, b: Seq<u8>) -> [u8; 32];

/// `<starknet_types_core::hash::Pedersen as StarkHash>::hash`, with the
/// elements made from their bytes by `Felt::from_bytes_be` and the hash
/// read back by `Felt::to_bytes_be`. Claimed: the result is
/// `pedersen_hash` of the two encodings, a function of them alone, and
/// as a field element it is canonical.
#[verifier::external_body]
pub(crate) fn pedersen(a: &Felt, b: &Felt) -> (h: Felt)
    ensures
        h.bytes == pedersen_hash(a@, b@),
        h.is_canonical(),
{
    let x = starknet_types_core::felt::Felt::from_bytes_be(&a.bytes);
    let y = starknet_types_core::felt::Felt::from_bytes_be(&b.bytes);
    Felt { bytes: Pedersen::hash(&x, &y).to_bytes_be() }
}

} // verus!
