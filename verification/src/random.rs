//! The source of chance: the thread-local generator of the `rand` crate.

use vstd::prelude::*;
use rand::Rng;

verus! {

/// `rand::ThreadRng`, a handle to the calling thread's generator. Nothing
/// of its inside is visible to proofs.
#[verifier::external_type_specification]
#[verifier::external_body]
pub struct ExThreadRng(rand::ThreadRng);

/// `rand::thread_rng` hands out the calling thread's generator. Nothing is
/// claimed of what it returns. It is assumed here that the system can seed
/// the generator; where it cannot, `rand` panics.
pub assume_specification[ rand::thread_rng ]() -> (rng: rand::ThreadRng);

/// `Rng::gen_range` on the thread's generator, for `i32`. Claimed, and not
/// proved: for `low < high` the number returned is at least `low` and less
/// than `high`. Which of these numbers it is, is left open. For
/// `low >= high` the outside function panics, so such bounds are excluded.
#[verifier::external_body]
pub(crate) fn gen_range(rng: &mut rand::ThreadRng, low: i32, high: i32) -> (n: i32)
    requires
        low < high,
    ensures
        low <= n < high,
{
    rng.gen_range(low, high)
}

} // verus!
