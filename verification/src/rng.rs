use vstd::prelude::*;

use rand::Rng;
use rand::seq::IndexedRandom;
use rand::seq::SliceRandom;

use crate::piece::Tetromino;

verus! {

#[verifier::external_type_specification]
#[verifier::external_body]
pub struct ExSmallRng(rand::rngs::SmallRng);

/// Relies on rand's `SliceRandom::shuffle`: a Fisher-Yates shuffle
/// rearranges the elements of the slice in place, so the new contents are a
/// permutation of the old.
#[verifier::external_body]
pub(crate) fn shuffle_kinds(rng: &mut rand::rngs::SmallRng, bag: &mut Vec<Tetromino>)
    ensures
        final(bag)@.len() == old(bag)@.len(),
        final(bag)@.to_multiset() == old(bag)@.to_multiset(),
{
    bag.as_mut_slice().shuffle(rng);
}

/// Relies on rand's `IndexedRandom::choose_multiple_array`: on a slice of
/// four distinct values it returns three distinct elements of that slice.
#[verifier::external_body]
pub(crate) fn three_distinct_axis_ids(rng: &mut rand::rngs::SmallRng) -> (r: (u8, u8, u8))
    ensures
        r.0 < 4 && r.1 < 4 && r.2 < 4,
        r.0 != r.1 && r.0 != r.2 && r.1 != r.2,
{
    let ids: [u8; 4] = [0, 1, 2, 3];
    let [a, b, c] = ids.choose_multiple_array(rng).unwrap();
    (a, b, c)
}

/// Relies on rand's `Rng::random::<bool>`: returns a random boolean; nothing
/// is promised of the outcome.
#[verifier::external_body]
pub(crate) fn random_bool(rng: &mut rand::rngs::SmallRng) -> (r: bool) {
    rng.random()
}

} // verus!
