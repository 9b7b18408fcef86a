//! Random numbers from the thread-local generator of `rand`.
use vstd::prelude::*;
use rand::rngs::ThreadRng;
use rand::{Rng, RngCore};

verus! {

#[verifier::external_type_specification]
#[verifier::external_body]
pub struct ExThreadRng(ThreadRng);

/// `rand::thread_rng()`: the generator of the calling thread.
#[verifier::external_body]
pub(crate) fn thread_rng() -> ThreadRng {
    rand::thread_rng()
}

/// `RngCore::next_u32`: a random number; which one is left to chance.
#[verifier::external_body]
pub(crate) fn next_u32(rng: &mut ThreadRng) -> u32 {
    rng.next_u32()
}

/// `Rng::gen_range(low..high)`: a random number at least `low` and below
/// `high`; the range must not be empty, or the call panics.
#[verifier::external_body]
pub(crate) fn gen_range_u32(rng: &mut ThreadRng, low: u32, high: u32) -> (res: u32)
    requires
        low < high,
    ensures
        low <= res < high,
{
    rng.gen_range(low..high)
}

} // verus!
