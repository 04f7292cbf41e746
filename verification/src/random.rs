//! Random draws. The generator is an outside one; this module states what
//! the library relies on.

use rand::rngs::StdRng;
use rand::seq::SliceRandom;
use rand::Rng;
use rand::RngCore;
use rand::SeedableRng;
use vstd::prelude::*;

verus! {

/// `rand::rngs::StdRng`, the generator that the callers hand in. Nothing
/// inside it is looked at.
#[verifier::external_type_specification]
#[verifier::external_body]
pub struct ExStdRng(StdRng);

/// The first 64 bits that the standard generator yields after it has been
/// seeded with `seed`.
pub uninterp spec fn first_draw(seed: u64) -> u64;

/// `SeedableRng::seed_from_u64` on `StdRng`, then `RngCore::next_u64`: a
/// generator seeded with a number is deterministic, so its first output is a
/// function of the seed.
#[verifier::external_body]
pub(crate) fn first_draw_from_seed(seed: u64) -> (res: u64)
    ensures
        res == first_draw(seed),
{
    StdRng::seed_from_u64(seed).next_u64()
}

/// `Rng::gen_range` on a half-open range of positions: the draw lies in the
/// range. The outside function panics on an empty range.
#[verifier::external_body]
pub(crate) fn draw_below(rng: &mut StdRng, bound: usize) -> (res: usize)
    requires
        bound > 0,
    ensures
        res < bound,
{
    rng.gen_range(0..bound)
}

/// `Rng::gen_range` on a half-open range of integers: the draw lies in the
/// range. The outside function panics on an empty range.
#[verifier::external_body]
pub(crate) fn draw_between(rng: &mut StdRng, low: i64, high: i64) -> (res: i64)
    requires
        low < high,
    ensures
        low <= res < high,
{
    rng.gen_range(low..high)
}

/// `Rng::gen_range` on a half-open range of 32-bit integers: the draw lies
/// in the range. The outside function panics on an empty range.
#[verifier::external_body]
pub(crate) fn draw_between_i32(rng: &mut StdRng, low: i32, high: i32) -> (res: i32)
    requires
        low < high,
    ensures
        low <= res < high,
{
    rng.gen_range(low..high)
}

/// `Rng::gen_range` on a closed range of small integers: the draw lies in the
/// range. The outside function panics on an empty range.
#[verifier::external_body]
pub(crate) fn draw_within(rng: &mut StdRng, low: i16, high: i16) -> (res: i16)
    requires
        low <= high,
    ensures
        low <= res <= high,
{
    rng.gen_range(low..=high)
}

/// `SliceRandom::choose` on the positions of a list of the given length: it
/// returns one of them, and none for an empty list.
#[verifier::external_body]
pub(crate) fn choose_position(rng: &mut StdRng, len: usize) -> (res: Option<usize>)
    ensures
        len == 0 ==> res is None,
        len > 0 ==> res is Some && res.unwrap() < len,
{
    let positions: Vec<usize> = (0..len).collect();
    positions.choose(rng).copied()
}

/// `SliceRandom::shuffle` reorders the list by swaps: the list holds the same
/// texts as before, each as often as before.
#[verifier::external_body]
pub(crate) fn shuffle_texts(texts: &mut Vec<String>, rng: &mut StdRng)
    ensures
        final(texts).deep_view().to_multiset() == old(texts).deep_view().to_multiset(),
{
    texts.shuffle(rng);
}

} // verus!
