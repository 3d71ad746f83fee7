//! Random reordering of lists.
use vstd::prelude::*;
use rand::seq::SliceRandom;

verus! {

/// Puts the elements of `v` in a random order.
///
/// Trusted: calls `SliceRandom::shuffle` of the `rand` crate with the
/// thread-local generator `rand::rng()`. It states only that the result is
/// a reordering of the same elements; which order comes out is random.
#[verifier::external_body]
pub(crate) fn shuffle<T>(v: &mut Vec<T>)
    ensures
        final(v)@.len() == old(v)@.len(),
        final(v)@.to_multiset() == old(v)@.to_multiset(),
{
    let mut rng = rand::rng();
    v.as_mut_slice().shuffle(&mut rng);
}

} // verus!
