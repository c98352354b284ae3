//! Content digests.

use vstd::prelude::*;

verus! {

/// What `blake3::hash` makes of a byte sequence: its 32-byte digest.
pub uninterp spec fn blake3_hash(input: Seq<u8>) -> Seq<u8>;

/// The BLAKE3 digest of some bytes (`blake3::hash`, then `Hash::as_bytes`).
#[verifier::external_body]
pub(crate) fn blake3_digest(input: &[u8]) -> (r: [u8; 32])
    ensures
        r@ == blake3_hash(input@),
{
    *blake3::hash(input).as_bytes()
}

} // verus!
