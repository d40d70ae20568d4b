use vstd::prelude::*;

verus! {

/// One item of a slice, picked at random; none from an empty slice.
///
/// Wraps `rand::seq::SliceRandom::choose` on the thread's generator. Its source returns
/// `None` for an empty slice and otherwise the item at an index drawn below the slice's
/// length; which item comes out is chance, so the contract says only that it is one of
/// the slice's items.
#[verifier::external_body]
pub(crate) fn choose_from<T: Copy>(items: &[T]) -> (r: Option<T>)
    ensures
        r is None <==> items@.len() == 0,
        r is Some ==> items@.contains(r->0),
{
    rand::seq::SliceRandom::choose(items, &mut rand::thread_rng()).copied()
}

/// `true` with a chance of `numerator` in `denominator`.
///
/// Wraps `rand::Rng::gen_ratio` on the thread's generator. Its source panics where the
/// denominator is 0 or below the numerator, which `requires` rules out; it always gives
/// `true` where the two are equal, and its draw is below a threshold of 0 (so never
/// `true`) where the numerator is 0. Otherwise the outcome is chance.
#[verifier::external_body]
pub(crate) fn gen_ratio(numerator: u32, denominator: u32) -> (r: bool)
    requires
        0 < denominator,
        numerator <= denominator,
    ensures
        numerator == denominator ==> r,
        numerator == 0 ==> !r,
{
    rand::Rng::gen_ratio(&mut rand::thread_rng(), numerator, denominator)
}

} // verus!
