use vstd::prelude::*;

verus! {

/// rand's thread-local generator; opaque to the verifier.
#[verifier::external_type_specification]
#[verifier::external_body]
pub struct ExThreadRng(rand::rngs::ThreadRng);

/// Relies on rand::thread_rng: hands out the thread-local generator.
/// Nothing is assumed of it.
#[verifier::external_body]
pub(crate) fn fresh_rng() -> rand::rngs::ThreadRng {
    rand::thread_rng()
}

/// Relies on rand::Rng::gen_range: returns a value in `[low, high)`, and
/// panics only when `low >= high`, which the precondition rules out.
/// Nothing is assumed of the distribution.
#[verifier::external_body]
pub(crate) fn gen_range_i16(rng: &mut rand::rngs::ThreadRng, low: i16, high: i16) -> (r: i16)
    requires
        low < high,
    ensures
        low <= r < high,
{
    rand::Rng::gen_range(rng, low, high)
}

/// Relies on rand::Rng::gen: returns an arbitrary value. Nothing is
/// assumed of the result.
#[verifier::external_body]
pub(crate) fn gen_u32(rng: &mut rand::rngs::ThreadRng) -> u32 {
    rand::Rng::gen(rng)
}

} // verus!
