//! The source of chance: one seedable generator, and the three ways in which
//! the library draws from it.

use vstd::prelude::*;
use rand::rngs::{OsRng, StdRng};
use rand::{Rng, SeedableRng};
use weighted_rand::builder::{NewBuilder, WalkerTableBuilder};

verus! {

/// The generator of the `rand` crate that the system owns.
#[verifier::external_type_specification]
#[verifier::external_body]
pub struct ExStdRng(StdRng);

/// The sum of `weights`.
pub open spec fn weight_sum(weights: Seq<u32>) -> nat
    decreases weights.len(),
{
    if weights.len() == 0 {
        0
    } else {
        weight_sum(weights.drop_last()) + weights.last() as nat
    }
}

/// `SeedableRng::from_rng` of `rand` on `OsRng`: a generator seeded by the
/// operating system, or nothing where the operating system gives no seed.
/// Which of the two comes is not known, and nothing is known of the
/// generator.
#[verifier::external_body]
pub(crate) fn source_from_os() -> Option<StdRng> {
    StdRng::from_rng(OsRng).ok()
}

/// `SeedableRng::seed_from_u64` of `rand`: a generator made from `seed`.
/// Nothing is claimed of what it will yield.
#[verifier::external_body]
pub(crate) fn source_from_seed(seed: u64) -> StdRng {
    StdRng::seed_from_u64(seed)
}

/// `Rng::gen` of `rand`, for one byte: any byte may come.
#[verifier::external_body]
pub(crate) fn draw_byte(source: &mut StdRng) -> u8 {
    source.gen::<u8>()
}

/// `Rng::gen_range` of `rand`, on the range from zero up to and without
/// `bound`: the number drawn lies in that range. The range must not be
/// empty, or the call panics.
#[verifier::external_body]
pub(crate) fn draw_below(source: &mut StdRng, bound: u32) -> (drawn: u32)
    requires
        bound > 0,
    ensures
        drawn < bound,
{
    source.gen_range(0..bound)
}

/// Walker's alias method of `weighted_rand`: `WalkerTableBuilder::new`
/// on the weights, `build`, then `WalkerTable::next_rng` with the system's
/// generator. The index drawn is one of the weights' indices, and where
/// some weight is not zero, the weight at the index drawn is not zero: the
/// table sends an index of weight zero to another index every time. With
/// all weights zero any index may come. The builder multiplies each weight
/// by their number and adds the products up in 32 bits, so that sum must
/// fit; the table draws a first index below the number of weights, which
/// must not be zero.
#[verifier::external_body]
pub(crate) fn draw_weighted(source: &mut StdRng, weights: &Vec<u32>) -> (index: usize)
    requires
        weights@.len() > 0,
        weights@.len() * weight_sum(weights@) <= u32::MAX,
    ensures
        index < weights@.len(),
        weight_sum(weights@) > 0 ==> weights@[index as int] > 0,
{
    WalkerTableBuilder::new(weights.as_slice()).build().next_rng(source)
}

} // verus!
