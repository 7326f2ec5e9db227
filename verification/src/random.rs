//! Random choices, made with the thread-local generator of `rand`.
use vstd::prelude::*;
use rand::seq::IndexedRandom;
use rand::RngExt;

verus! {

/// Picks one of `items` with `rand::seq::IndexedRandom::choose` on the
/// thread-local generator `rand::rng()`.  Claimed, as that method's source
/// shows: `None` exactly when `items` is empty, otherwise one of `items`.
/// Which one is left open: it is random.
#[verifier::external_body]
pub(crate) fn choose_item(items: &Vec<u64>) -> (r: Option<u64>)
    ensures
        r is None <==> items@.len() == 0,
        r matches Some(x) ==> items@.contains(x),
{
    items.choose(&mut rand::rng()).copied()
}

/// A fair coin: `rand::RngExt::random_ratio(1, 2)` on `rand::rng()`.
/// Nothing is claimed of the outcome: either value can come back.
#[verifier::external_body]
pub(crate) fn coin_flip() -> (r: bool)
{
    rand::rng().random_ratio(1, 2)
}

} // verus!
