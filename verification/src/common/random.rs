//! The random number generator, as far as the game draws from it.
//!
//! What is stated here of the generator is believed, not proved.

use vstd::prelude::*;

verus! {

/// The generator of the `fastrand` crate. Nothing inside it is visible to
/// the proofs.
#[verifier::external_type_specification]
#[verifier::external_body]
pub struct ExRng(fastrand::Rng);

/// The generator that `fastrand::Rng::with_seed` makes from `seed`, before
/// anything is drawn from it.
pub uninterp spec fn seeded(seed: u64) -> fastrand::Rng;

/// Calls `fastrand::Rng::with_seed`, which makes a generator whose stream is
/// fixed by the seed: the same seed gives the same generator. Nothing is
/// claimed of the stream.
#[verifier::external_body]
pub(crate) fn rng_with_seed(seed: u64) -> (rng: fastrand::Rng)
    ensures
        rng == seeded(seed),
{
    fastrand::Rng::with_seed(seed)
}

/// Calls `fastrand::Rng::u8` with the range from zero up to, and without,
/// `end`. The generator stops the program on an empty range, so `end` must
/// not be zero; the number it hands out lies in the range.
#[verifier::external_body]
pub(crate) fn rng_u8_below(rng: &mut fastrand::Rng, end: u8) -> (n: u8)
    requires
        end > 0,
    ensures
        n < end,
{
    rng.u8(0..end)
}

/// Calls `fastrand::Rng::usize` with the range from zero up to, and without,
/// `end`. The generator stops the program on an empty range, so `end` must
/// not be zero; the number it hands out lies in the range.
#[verifier::external_body]
pub(crate) fn rng_usize_below(rng: &mut fastrand::Rng, end: usize) -> (n: usize)
    requires
        end > 0,
    ensures
        n < end,
{
    rng.usize(0..end)
}

} // verus!
