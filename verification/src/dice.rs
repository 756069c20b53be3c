//! Randomness: the few calls into `rand` that the generators make.

use vstd::prelude::*;
use rand::Rng;
use rand::seq::IteratorRandom;
use rand::seq::SliceRandom;
use rand::rngs::ThreadRng;

verus! {

/// The thread-local random number generator of `rand`.
#[verifier::external_type_specification]
#[verifier::external_body]
pub struct ExThreadRng(ThreadRng);

/// `rand::thread_rng()`: a handle to the thread-local generator.
/// Nothing is claimed of it beyond its type.
#[verifier::external_body]
pub(crate) fn new_thread_rng() -> ThreadRng {
    rand::thread_rng()
}

/// `Rng::gen_range(low..=high)`: a uniformly drawn integer of the inclusive range.
/// The range must not be empty (rand panics on an empty range); the value is
/// claimed to lie in the range, nothing more (it depends on the generator's state).
#[verifier::external_body]
pub(crate) fn roll(thread: &mut ThreadRng, low: i32, high: i32) -> (r: i32)
    requires
        low <= high,
    ensures
        low <= r <= high,
{
    thread.gen_range(low..=high)
}

/// `IteratorRandom::choose` on the indices `0..len`: `None` exactly when `len`
/// is zero, otherwise some index below `len` (which one depends on the generator).
#[verifier::external_body]
pub(crate) fn choose_index(thread: &mut ThreadRng, len: usize) -> (r: Option<usize>)
    ensures
        r is None <==> len == 0,
        r matches Some(i) ==> i < len,
{
    (0..len).choose(thread)
}

/// `SliceRandom::shuffle`: the vector afterwards holds the same items, in an
/// order that depends on the generator.
#[verifier::external_body]
pub(crate) fn shuffle<T>(v: &mut Vec<T>, thread: &mut ThreadRng)
    ensures
        final(v)@.to_multiset() == old(v)@.to_multiset(),
{
    v.shuffle(thread)
}

/// Sum of two rolls of an `n`-sided die.
pub fn roll_two(thread: &mut ThreadRng, n: i32) -> (r: i32)
    requires
        1 <= n,
        2 * n <= i32::MAX,
    ensures
        2 <= r <= 2 * n,
{
    let a = roll(thread, 1, n);
    let b = roll(thread, 1, n);
    a + b
}

} // verus!
