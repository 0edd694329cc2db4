//! Chance, drawn from the `rand` crate. Nothing is known of a draw but its range.

use vstd::prelude::*;
use rand::Rng;
use rand::seq::SliceRandom;

verus! {

/// Calls `rand::Rng::gen_range` on the thread's generator with the range
/// from `low` to `high`, both included. The draw lies in that range; which
/// number it is, is not known. An empty range would panic and is ruled out.
/// The generator takes its seed from the operating system, when a thread
/// first draws and again whenever it reseeds itself after many draws, and
/// `rand` gives up where the system hands out none. No input decides that.
#[verifier::external_body]
pub(crate) fn random_in_range(low: u32, high: u32) -> (drawn: u32)
    requires
        low <= high,
    ensures
        low <= drawn <= high,
{
    rand::thread_rng().gen_range(low..=high)
}

/// Calls `rand::seq::SliceRandom::shuffle` on `items` with the thread's
/// generator. The call swaps items and does nothing else, so the list holds
/// afterwards what it held before, in an order that is not known. The
/// generator is the one of `random_in_range`, seeded as said there.
#[verifier::external_body]
pub(crate) fn shuffle_items(items: &mut Vec<u8>)
    ensures
        final(items)@.to_multiset() == old(items)@.to_multiset(),
{
    items.shuffle(&mut rand::thread_rng());
}

} // verus!
