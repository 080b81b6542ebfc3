//! The boundary to `sha2`.

use sha2::{Digest, Sha512};
use vstd::prelude::*;

verus! {

/// The SHA-512 digest of `data`: 64 bytes, as `Sha512::digest` computes them.
pub uninterp spec fn sha512_digest(data: Seq<u8>) -> Seq<u8>;

/// Calls `Sha512::digest`, which hashes `data` in one go and returns the
/// 64-byte output. The digest depends on the bytes of `data` alone.
#[verifier::external_body]
pub(crate) fn sha512(data: &[u8]) -> (digest: [u8; 64])
    ensures
        digest@ == sha512_digest(data@),
{
    Sha512::digest(data).into()
}

} // verus!
