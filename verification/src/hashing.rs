//! The hash functions that the chains build their hashes and storage keys from.

use vstd::prelude::*;

verus! {

/// The Blake2b digest of 256 bits of `data`.
pub uninterp spec fn blake2_256_digest(data: Seq<u8>) -> Seq<u8>;

/// The Keccak digest of 256 bits of `data`.
pub uninterp spec fn keccak_256_digest(data: Seq<u8>) -> Seq<u8>;

/// Calls `sp_io::hashing::blake2_256`. The contract names the digest, which
/// is a function of the data alone.
#[verifier::external_body]
pub(crate) fn blake2_256(data: &[u8]) -> (r: [u8; 32])
    ensures
        r@ == blake2_256_digest(data@),
{
    sp_io::hashing::blake2_256(data)
}

/// Calls `sp_io::hashing::keccak_256`. The contract names the digest, which
/// is a function of the data alone.
#[verifier::external_body]
pub(crate) fn keccak_256(data: &[u8]) -> (r: [u8; 32])
    ensures
        r@ == keccak_256_digest(data@),
{
    sp_io::hashing::keccak_256(data)
}

/// The Blake2b digest of 128 bits of `data`.
pub uninterp spec fn blake2_128_digest(data: Seq<u8>) -> Seq<u8>;

/// The two XX hashes of `data`, with seeds 0 and 1, in 128 bits.
pub uninterp spec fn twox_128_digest(data: Seq<u8>) -> Seq<u8>;

/// Calls `sp_io::hashing::blake2_128`. The contract names the digest, which
/// is a function of the data alone.
#[verifier::external_body]
pub(crate) fn blake2_128(data: &[u8]) -> (r: [u8; 16])
    ensures
        r@ == blake2_128_digest(data@),
{
    sp_io::hashing::blake2_128(data)
}

/// Calls `sp_io::hashing::twox_128`. The contract names the digest, which
/// is a function of the data alone.
#[verifier::external_body]
pub(crate) fn twox_128(data: &[u8]) -> (r: [u8; 16])
    ensures
        r@ == twox_128_digest(data@),
{
    sp_io::hashing::twox_128(data)
}

} // verus!
