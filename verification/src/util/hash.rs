use vstd::prelude::*;

verus! {

/// The 64-bit xxHash digest of `input` under `seed`.
pub uninterp spec fn xxh64_digest(input: Seq<u8>, seed: u64) -> u64;

/// `xxhash_rust::xxh64::xxh64`: the digest depends on the octets and the seed
/// alone, and the function returns for every input. Nothing else is claimed
/// of the value.
pub assume_specification[ xxhash_rust::xxh64::xxh64 ](input: &[u8], seed: u64) -> (out: u64)
    ensures
        out == xxh64_digest(input@, seed),
;

/// Digest of a fragment or of a run of object headers, with seed 0.
pub open spec fn spec_digest(input: Seq<u8>) -> u64 {
    xxh64_digest(input, 0)
}

/// Digest of a fragment or of a run of object headers, with seed 0.
pub fn digest(input: &Vec<u8>) -> (d: u64)
    ensures
        d == spec_digest(input@),
{
    xxhash_rust::xxh64::xxh64(input.as_slice(), 0)
}

} // verus!
