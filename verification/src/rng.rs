use vstd::prelude::*;
use rand::Rng;

verus! {

/// Relies on rand's `Rng::gen_range`: the sampled value lies within the given
/// non-empty range (here `1..=8`). `rand::thread_rng` only supplies the
/// generator; nothing beyond the range is assumed of the outcome.
#[verifier::external_body]
pub(crate) fn sample_direction_number() -> (n: u8)
    ensures
        1 <= n <= 8,
{
    rand::thread_rng().gen_range(1..=8)
}

} // verus!
