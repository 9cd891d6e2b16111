//! The digest primitive behind identity hashes and the Merkle tree.
//!
//! The library never states what the digest of particular bytes is; it only
//! relies on the digest being a deterministic, 32-byte function of the
//! input, and every contract speaks of it through [`digest_of`].

use vstd::prelude::*;

verus! {

/// The digest of a byte sequence, as the underlying hash function computes
/// it. A function of the input bytes alone.
pub uninterp spec fn digest_of(bytes: Seq<u8>) -> Seq<u8>;

/// Relies on `sha2::Sha256::digest` (RustCrypto `sha2`): SHA-256 is a pure
/// function of the input bytes and its output is 32 bytes long.
#[verifier::external_body]
pub fn compute_digest(bytes: &[u8]) -> (r: Vec<u8>)
    ensures
        r@ == digest_of(bytes@),
        r@.len() == 32,
{
    let out = <sha2::Sha256 as sha2::Digest>::digest(bytes);
    out.to_vec()
}

} // verus!
