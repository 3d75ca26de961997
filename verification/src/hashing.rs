//! The digests the library computes: Keccak-256 (Ethereum) and SHA-256.

use sha3::Digest;
use vstd::prelude::*;

verus! {

/// The Keccak-256 digest of `data`, as computed by `sha3::Keccak256`.
pub uninterp spec fn keccak256_of(data: Seq<u8>) -> Seq<u8>;

/// The SHA-256 digest of `data`, as computed by `sha2::Sha256`.
pub uninterp spec fn sha256_of(data: Seq<u8>) -> Seq<u8>;

/// Hashes `data` with `sha3::Keccak256` (new, update, finalize).
/// Trusted: the result is `keccak256_of(data)` and has the 32 bytes of that digest's output.
#[verifier::external_body]
pub(crate) fn keccak256_digest(data: &[u8]) -> (digest: Vec<u8>)
    ensures
        digest@ == keccak256_of(data@),
        digest@.len() == 32,
{
    let mut hasher = sha3::Keccak256::new();
    hasher.update(data);
    hasher.finalize().to_vec()
}

/// Hashes `data` with `sha2::Sha256` (new, update, finalize).
/// Trusted: the result is `sha256_of(data)` and has the 32 bytes of that digest's output.
#[verifier::external_body]
pub(crate) fn sha256_digest(data: &[u8]) -> (digest: Vec<u8>)
    ensures
        digest@ == sha256_of(data@),
        digest@.len() == 32,
{
    let mut hasher = sha2::Sha256::new();
    hasher.update(data);
    hasher.finalize().to_vec()
}

} // verus!
