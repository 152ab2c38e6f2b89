use vstd::prelude::*;

verus! {

/// Verus-opaque declaration of rand's handle to the thread-local random
/// generator.
#[verifier::external_type_specification]
#[verifier::external_body]
pub struct ExThreadRng(rand::rngs::ThreadRng);

/// Relies on rand::thread_rng: hands out the thread-local generator.
/// Nothing is promised of it; every draw made through it is random.
#[verifier::external_body]
pub(crate) fn fresh_rng() -> rand::rngs::ThreadRng {
    rand::thread_rng()
}

/// Relies on rand::Rng::gen_range over the half-open range `0..bound`: the
/// draw lies in the range, and the call panics on an empty range, which
/// the precondition rules out. rand can still abort if the operating
/// system's entropy source fails when the generator first initializes or
/// reseeds — an environmental failure no precondition over the arguments
/// can exclude. Which value comes back is random, so nothing more is
/// stated.
#[verifier::external_body]
pub(crate) fn rng_below(rng: &mut rand::rngs::ThreadRng, bound: u32) -> (r: u32)
    requires
        bound > 0,
    ensures
        r < bound,
{
    rand::Rng::gen_range(rng, 0..bound)
}

} // verus!
