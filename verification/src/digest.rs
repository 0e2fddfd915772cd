//! MD5 digests from the `md5` crate.

use vstd::prelude::*;

verus! {

/// The MD5 digest of `data`.
pub uninterp spec fn md5_digest(data: Seq<u8>) -> Seq<u8>;

/// `md5::compute`: the 16 bytes of the MD5 digest of `data` (the `Digest`'s
/// array). Claimed: the digest depends on the bytes alone.
#[verifier::external_body]
pub(crate) fn md5_compute(data: &[u8]) -> (r: [u8; 16])
    ensures
        r@ == md5_digest(data@),
{
    md5::compute(data).0
}

} // verus!
