use vstd::prelude::*;
use sha2::Digest;

verus! {

/// The SHA-256 digest that the `sha2` crate computes of a byte sequence; it
/// depends on the bytes alone.
pub uninterp spec fn spec_sha256(data: Seq<u8>) -> Seq<u8>;

/// Calls `sha2::Sha256::digest`. Trusted: the 32 bytes returned are the
/// SHA-256 digest of exactly the bytes handed in, named by `spec_sha256`.
#[verifier::external_body]
pub(crate) fn sha256(data: &[u8]) -> (r: [u8; 32])
    ensures
        r@ == spec_sha256(data@),
{
    sha2::Sha256::digest(data).into()
}

} // verus!
