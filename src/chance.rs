use vstd::prelude::*;

use rand::seq::IndexedRandom;
use rand::Rng;

verus! {

/// Relies on rand's `Rng::random_range` over the thread-local generator:
/// the value lies in `0..n`. It panics on an empty range, which `requires`
/// rules out.
#[verifier::external_body]
pub(crate) fn random_below(n: usize) -> (r: usize)
    requires
        n > 0,
    ensures
        r < n,
{
    rand::rng().random_range(0..n)
}

/// Relies on rand's `IndexedRandom::choose_multiple` over the thread-local
/// generator: it takes `min(amount, len)` elements of `items` from distinct
/// positions, in random order.
#[verifier::external_body]
pub(crate) fn choose_distinct(items: &Vec<usize>, amount: usize) -> (r: Vec<usize>)
    ensures
        r@.len() == if amount < items@.len() {
            amount as int
        } else {
            items@.len() as int
        },
        forall|j: int| 0 <= j < r@.len() ==> items@.contains(#[trigger] r@[j]),
        items@.no_duplicates() ==> r@.no_duplicates(),
{
    items.choose_multiple(&mut rand::rng(), amount).cloned().collect()
}

} // verus!
