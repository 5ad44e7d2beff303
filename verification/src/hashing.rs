//! The hash family behind the filter: one base 64-bit digest, seeded with the
//! round index, so that rounds `0 .. k` act as `k` distinguishable hash
//! functions derived from one algorithm.

use vstd::prelude::*;

verus! {

/// The 64-bit digest of `data` under `seed`. The algorithm itself is not
/// modelled; all that the library relies on is that the digest is a fixed
/// function of the seed and the bytes.
pub uninterp spec fn xxh64(seed: u64, data: Seq<u8>) -> u64;

/// Relies on xxhash_rust::xxh64::xxh64: hashes the whole block under the
/// given seed and returns the 64-bit digest, a function of the seed and the
/// bytes alone.
#[verifier::external_body]
pub(crate) fn digest64(data: &[u8], seed: u64) -> (r: u64)
    ensures
        r == xxh64(seed, data@),
{
    xxhash_rust::xxh64::xxh64(data, seed)
}

} // verus!
