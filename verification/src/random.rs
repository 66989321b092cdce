//! The source of the random draws that place and size new entities.

use rand::rngs::StdRng;
use rand::{Rng, SeedableRng};
use vstd::prelude::*;

verus! {

/// The standard generator of the `rand` crate. Its state is carried through
/// and never looked into.
#[verifier::external_type_specification]
#[verifier::external_body]
pub struct ExStdRng(rand::rngs::StdRng);

/// Builds a generator with `SeedableRng::seed_from_u64`. Nothing is claimed
/// of the generator that comes back.
#[verifier::external_body]
fn generator_from_seed(seed: u64) -> StdRng {
    StdRng::seed_from_u64(seed)
}

/// Draws with `Rng::gen_range` from the inclusive range `low..=high`. The
/// range must not be empty, or `gen_range` panics; all that is claimed of
/// the draw is that it lies in the range.
#[verifier::external_body]
fn draw_in_range(generator: &mut StdRng, low: u32, high: u32) -> (drawn: u32)
    requires
        low <= high,
    ensures
        low <= drawn <= high,
{
    generator.gen_range(low..=high)
}

/// A seedable source of random draws. Two sources made from the same seed
/// give the same draws in the same order, which makes a run repeatable.
pub struct RandomSource {
    generator: StdRng,
}

impl RandomSource {
    /// A source that starts from the given seed.
    pub fn from_seed(seed: u64) -> RandomSource {
        RandomSource { generator: generator_from_seed(seed) }
    }

    /// A draw from `low..=high`.
    pub fn between(&mut self, low: u32, high: u32) -> (drawn: u32)
        requires
            low <= high,
        ensures
            low <= drawn <= high,
    {
        draw_in_range(&mut self.generator, low, high)
    }

    /// A fair coin: a draw from `0..=1`, read as "heads" when it is one.
    pub fn coin_flip(&mut self) -> bool {
        self.between(0, 1) == 1
    }
}

} // verus!
