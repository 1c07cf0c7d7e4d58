use vstd::prelude::*;

verus! {

/// Relies on rand's `SliceRandom::shuffle`: a Fisher-Yates pass that
/// permutes the slice in place by swaps alone, so the cards the vector
/// holds (with multiplicity) and its length are unchanged.
#[verifier::external_body]
pub(crate) fn shuffle_cards<Card>(cards: &mut Vec<Card>)
    ensures
        final(cards)@.len() == old(cards)@.len(),
        final(cards)@.to_multiset() == old(cards)@.to_multiset(),
{
    rand::seq::SliceRandom::shuffle(cards.as_mut_slice(), &mut rand::thread_rng());
}

/// Relies on rand's `Rng::gen_range` on the range `0..bound`: it returns
/// a value drawn from that range, and panics only when the range is
/// empty, which the precondition rules out.
#[verifier::external_body]
pub(crate) fn random_index(bound: usize) -> (r: usize)
    requires
        bound > 0,
    ensures
        r < bound,
{
    rand::Rng::gen_range(&mut rand::thread_rng(), 0..bound)
}

} // verus!
