//! A hash of a value's text that every binding computes the same way.
use vstd::prelude::*;

verus! {

/// `h(b) = h(b without its last byte) * 31 + last byte`, wrapping at 64 bits.
pub open spec fn polynomial_hash_of(bytes: Seq<u8>) -> u64
    decreases bytes.len(),
{
    if bytes.len() == 0 {
        0
    } else {
        polynomial_hash_of(bytes.drop_last()).wrapping_mul(31).wrapping_add(bytes.last() as u64)
    }
}

/// The base-31 polynomial hash of `bytes`, wrapping at 64 bits. Equal texts
/// hash equally, which is what a binding's hash needs of it.
pub fn polynomial_hash(bytes: &[u8]) -> (h: u64)
    ensures
        h == polynomial_hash_of(bytes@),
{
    let mut hash: u64 = 0;
    let mut i: usize = 0;
    while i < bytes.len()
        invariant
            0 <= i <= bytes@.len(),
            hash == polynomial_hash_of(bytes@.take(i as int)),
        decreases bytes@.len() - i,
    {
        proof {
            assert(bytes@.take(i + 1).drop_last() =~= bytes@.take(i as int));
        }
        hash = hash.wrapping_mul(31).wrapping_add(bytes[i] as u64);
        i = i + 1;
    }
    proof {
        assert(bytes@.take(bytes@.len() as int) =~= bytes@);
    }
    hash
}

} // verus!
