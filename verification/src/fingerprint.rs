//! Content fingerprints: a 64-bit hash over an image's pixel bytes and its
//! dimensions, used only to tell one clipboard image from the next.

use std::collections::hash_map::DefaultHasher;
use std::hash::Hasher;
use vstd::bytes::*;
use vstd::prelude::*;
use vstd::std_specs::hash::DefaultHasherAdditionalSpecFns;

verus! {

/// What is fed to the hasher, in order: the pixel bytes, then width and
/// height as eight little-endian bytes each.
pub open spec fn fingerprint_input(bytes: Seq<u8>, width: usize, height: usize) -> Seq<Seq<u8>> {
    seq![bytes, spec_u64_to_le_bytes(width as u64), spec_u64_to_le_bytes(height as u64)]
}

/// The fingerprint of an image: the standard hasher's digest of
/// [`fingerprint_input`].
pub open spec fn spec_fingerprint(bytes: Seq<u8>, width: usize, height: usize) -> u64 {
    DefaultHasher::spec_finish(fingerprint_input(bytes, width, height))
}

/// Computes the fingerprint of raw pixel bytes with their dimensions.
pub fn fingerprint(bytes: &[u8], width: usize, height: usize) -> (r: u64)
    ensures
        r == spec_fingerprint(bytes@, width, height),
{
    let mut hasher = DefaultHasher::new();
    hasher.write(bytes);
    let w = u64_to_le_bytes(width as u64);
    hasher.write(w.as_slice());
    let h = u64_to_le_bytes(height as u64);
    hasher.write(h.as_slice());
    assert(hasher@ =~= fingerprint_input(bytes@, width, height));
    hasher.finish()
}

/// A fingerprint depends on nothing but the bytes and the dimensions: equal
/// inputs have equal fingerprints.
pub proof fn lemma_fingerprint_deterministic(
    bytes1: Seq<u8>,
    width1: usize,
    height1: usize,
    bytes2: Seq<u8>,
    width2: usize,
    height2: usize,
)
    requires
        bytes1 == bytes2,
        width1 == width2,
        height1 == height2,
    ensures
        spec_fingerprint(bytes1, width1, height1) == spec_fingerprint(bytes2, width2, height2),
{
}

/// Bytes and dimensions all reach the hasher: two images that differ in
/// bytes, width or height are hashed from different input.
pub proof fn lemma_fingerprint_input_injective(
    bytes1: Seq<u8>,
    width1: usize,
    height1: usize,
    bytes2: Seq<u8>,
    width2: usize,
    height2: usize,
)
    requires
        fingerprint_input(bytes1, width1, height1) == fingerprint_input(bytes2, width2, height2),
    ensures
        bytes1 == bytes2,
        width1 == width2,
        height1 == height2,
{
    let a = fingerprint_input(bytes1, width1, height1);
    let b = fingerprint_input(bytes2, width2, height2);
    assert(a[0] == b[0]);
    assert(a[1] == b[1]);
    assert(a[2] == b[2]);
    lemma_auto_spec_u64_to_from_le_bytes();
    assert(spec_u64_from_le_bytes(spec_u64_to_le_bytes(width1 as u64)) == width1 as u64);
    assert(spec_u64_from_le_bytes(spec_u64_to_le_bytes(width2 as u64)) == width2 as u64);
    assert(spec_u64_from_le_bytes(spec_u64_to_le_bytes(height1 as u64)) == height1 as u64);
    assert(spec_u64_from_le_bytes(spec_u64_to_le_bytes(height2 as u64)) == height2 as u64);
}

} // verus!
