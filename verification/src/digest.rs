//! Content digests.

use vstd::prelude::*;

verus! {

/// The MD5 digest of a byte string, as the sixteen bytes it is made of.
pub uninterp spec fn md5_digest(data: Seq<u8>) -> Seq<u8>;

/// Calls `md5::compute` and hands out the digest's bytes. The contract claims
/// that the result is the digest of exactly the bytes given, and sixteen bytes
/// long.
#[verifier::external_body]
pub(crate) fn md5_bytes(data: &[u8]) -> (out: Vec<u8>)
    ensures
        out@ == md5_digest(data@),
        out@.len() == 16,
{
    md5::compute(data).0.to_vec()
}

} // verus!
