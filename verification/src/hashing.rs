//! Cryptographic digests used by the commitment scheme, the proof gate and
//! the moon-phase oracle. The digest computations come from outside crates;
//! their results are named by uninterpreted spec functions, since the digest
//! of given bytes is a fixed value but not one worth restating here.

use vstd::prelude::*;

verus! {

/// The SHA-256 digest of a byte sequence: 32 bytes, a function of the input
/// bytes alone.
pub uninterp spec fn sha256_of(data: Seq<u8>) -> Seq<u8>;

/// The Keccak-256 digest of a byte sequence: 32 bytes, a function of the
/// input bytes alone.
pub uninterp spec fn keccak256_of(data: Seq<u8>) -> Seq<u8>;

/// Relies on sha2::Sha256 (the Digest::digest entry point): the result is the
/// 32-byte SHA-256 digest of `data`, determined by `data` alone.
#[verifier::external_body]
pub(crate) fn sha256(data: &[u8]) -> (r: Vec<u8>)
    ensures
        r@ == sha256_of(data@),
        r@.len() == 32,
{
    let digest = <sha2::Sha256 as sha2::Digest>::digest(data);
    digest.to_vec()
}

/// Relies on sha3::Keccak256 (the Digest::digest entry point): the result is
/// the 32-byte Keccak-256 digest of `data`, determined by `data` alone.
#[verifier::external_body]
pub(crate) fn keccak256(data: &[u8]) -> (r: Vec<u8>)
    ensures
        r@ == keccak256_of(data@),
        r@.len() == 32,
{
    let digest = <sha3::Keccak256 as sha3::Digest>::digest(data);
    digest.to_vec()
}

} // verus!
