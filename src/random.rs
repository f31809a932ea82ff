use rand::rngs::StdRng;
use rand::Rng;
use rand::seq::SliceRandom;
use vstd::prelude::*;

verus! {

#[verifier::external_type_specification]
#[verifier::external_body]
pub struct ExStdRng(StdRng);

/// Relies on `rand::Rng::gen::<bool>`: a coin flip; either value may come.
#[verifier::external_body]
pub fn coin_flip(rng: &mut StdRng) -> bool {
    rng.gen::<bool>()
}

/// Relies on `rand::Rng::gen_range`: a value of `low..high`, which it panics on when empty.
#[verifier::external_body]
pub fn random_range(rng: &mut StdRng, low: usize, high: usize) -> (r: usize)
    requires
        low < high,
    ensures
        low <= r < high,
{
    rng.gen_range(low..high)
}

/// Relies on `rand::seq::index::sample`: `amount` distinct indices below `length`;
/// it panics when `amount > length`.
#[verifier::external_body]
pub(crate) fn sample_indices(rng: &mut StdRng, length: usize, amount: usize) -> (r: Vec<usize>)
    requires
        amount <= length,
    ensures
        r@.len() == amount,
        forall|i: int| 0 <= i < r@.len() ==> r@[i] < length,
        forall|i: int, j: int| 0 <= i < r@.len() && 0 <= j < r@.len() && i != j ==> r@[i] != r@[j],
{
    rand::seq::index::sample(rng, length, amount).into_vec()
}

/// Relies on `rand::seq::SliceRandom::shuffle`: the elements are permuted in place.
#[verifier::external_body]
pub(crate) fn shuffle<T>(rng: &mut StdRng, v: &mut Vec<T>)
    ensures
        final(v)@.len() == old(v)@.len(),
        final(v)@.to_multiset() == old(v)@.to_multiset(),
{
    v.as_mut_slice().shuffle(rng)
}

/// Two distinct values of `0..n`, drawn at random.
pub fn random_range_two(rng: &mut StdRng, n: usize) -> (r: (usize, usize))
    requires
        n >= 2,
    ensures
        r.0 < n,
        r.1 < n,
        r.0 != r.1,
{
    let s = sample_indices(rng, n, 2);
    (s[0], s[1])
}

/// One of `items`, drawn at random.
pub fn pick<T: Copy>(rng: &mut StdRng, items: &Vec<T>) -> (r: T)
    requires
        items@.len() > 0,
    ensures
        items@.contains(r),
{
    let i = random_range(rng, 0, items.len());
    items[i]
}

} // verus!
