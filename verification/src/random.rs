use vstd::prelude::*;
use rand::seq::SliceRandom;
use rand::Rng;

verus! {

/// `rand::seq::SliceRandom::choose` with the thread generator: one element of
/// the slice picked at random, or `None` when the slice is empty. Claimed:
/// the result is `None` exactly for an empty vector, and otherwise one of its
/// elements. Which element comes back is left unsaid (it is random).
#[verifier::external_body]
pub(crate) fn choose_from<T>(items: &Vec<T>) -> (r: Option<&T>)
    ensures
        r.is_none() <==> items@.len() == 0,
        r matches Some(x) ==> items@.contains(*x),
{
    items.choose(&mut rand::thread_rng())
}

/// `rand::seq::SliceRandom::choose_multiple` with the thread generator,
/// copied out: `amount` elements (or all of them, when there are fewer)
/// picked at random without repetition. Claimed: the length is the smaller of
/// `amount` and the vector's length, and the picks, counted with
/// multiplicity, are among the vector's elements. Which ones, and their order,
/// are left unsaid (they are random).
#[verifier::external_body]
pub(crate) fn choose_multiple_from<T: Copy>(items: &Vec<T>, amount: usize) -> (r: Vec<T>)
    ensures
        r@.len() == if amount < items@.len() { amount as int } else { items@.len() as int },
        r@.to_multiset().subset_of(items@.to_multiset()),
{
    items.choose_multiple(&mut rand::thread_rng(), amount).copied().collect()
}

/// `rand::Rng::gen_range(0..bound)` with the thread generator. Claimed: the
/// value lies below `bound`; which value is left unsaid (it is random). The
/// range must not be empty (it panics then).
#[verifier::external_body]
pub(crate) fn roll_below(bound: u32) -> (r: u32)
    requires
        bound > 0,
    ensures
        r < bound,
{
    rand::thread_rng().gen_range(0..bound)
}

/// `rand::Rng::gen_ratio` with the thread generator: true with probability
/// `numerator / denominator`. Claimed: a ratio of zero never comes true and a
/// ratio of one always does; otherwise the outcome is left unsaid (it is
/// random). The denominator must be positive and at least the numerator (it
/// panics otherwise).
#[verifier::external_body]
pub(crate) fn roll_ratio(numerator: u32, denominator: u32) -> (r: bool)
    requires
        denominator > 0,
        numerator <= denominator,
    ensures
        numerator == 0 ==> !r,
        numerator == denominator ==> r,
{
    rand::thread_rng().gen_ratio(numerator, denominator)
}

} // verus!
