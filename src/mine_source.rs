//! Where bombs come from: a random source that says yes with fixed odds, drawn from rand's
//! `StdRng`, seeded either with a given number or from the operating system.

use rand::rngs::StdRng;
use rand::{Rng, SeedableRng};
use vstd::prelude::*;

verus! {

#[verifier::external_type_specification]
#[verifier::external_body]
pub struct ExStdRng(StdRng);

/// The value (counting from zero) that the `k`-th call of `Rng::gen_ratio(numerator,
/// denominator)` returns on a `StdRng` made by `SeedableRng::seed_from_u64(seed)`, every
/// call on it asking for the same odds.
pub uninterp spec fn seeded_draw(seed: u64, numerator: u32, denominator: u32, k: nat) -> bool;

/// A stream of yes/no draws, each yes with odds `numerator` in `denominator`.
pub(crate) struct MineSource {
    rng: StdRng,
    numerator: u32,
    denominator: u32,
    seed: Ghost<Option<u64>>,
    drawn: Ghost<nat>,
}

impl MineSource {
    /// The seed the stream was made from, if any.
    pub(crate) closed spec fn seed(&self) -> Option<u64> {
        self.seed@
    }

    /// How many values have been drawn so far.
    pub(crate) closed spec fn drawn(&self) -> nat {
        self.drawn@
    }

    pub(crate) closed spec fn numerator(&self) -> u32 {
        self.numerator
    }

    pub(crate) closed spec fn denominator(&self) -> u32 {
        self.denominator
    }

    /// Relies on `SeedableRng::seed_from_u64` for `StdRng`: a generator whose whole output
    /// is fixed by `seed`.
    #[verifier::external_body]
    pub(crate) fn seeded(seed: u64, numerator: u32, denominator: u32) -> (r: MineSource)
        ensures
            r.seed() == Some(seed),
            r.drawn() == 0,
            r.numerator() == numerator,
            r.denominator() == denominator,
    {
        MineSource {
            rng: StdRng::seed_from_u64(seed),
            numerator,
            denominator,
            seed: Ghost(Some(seed)),
            drawn: Ghost(0),
        }
    }

    /// Relies on `SeedableRng::from_entropy` for `StdRng`: a generator seeded by the
    /// operating system, whose output nothing here can predict. It panics only where the
    /// operating system has no randomness to give.
    #[verifier::external_body]
    pub(crate) fn from_entropy(numerator: u32, denominator: u32) -> (r: MineSource)
        ensures
            r.seed() == None::<u64>,
            r.drawn() == 0,
            r.numerator() == numerator,
            r.denominator() == denominator,
    {
        MineSource {
            rng: StdRng::from_entropy(),
            numerator,
            denominator,
            seed: Ghost(None),
            drawn: Ghost(0),
        }
    }

    /// Relies on `Rng::gen_ratio`: yes with odds `numerator` in `denominator`, never yes
    /// when `numerator` is zero, always yes when the two are equal; it panics unless
    /// `0 < denominator` and `numerator <= denominator`.
    #[verifier::external_body]
    pub(crate) fn draw(&mut self) -> (r: bool)
        requires
            0 < old(self).denominator(),
            old(self).numerator() <= old(self).denominator(),
        ensures
            final(self).seed() == old(self).seed(),
            final(self).drawn() == old(self).drawn() + 1,
            final(self).numerator() == old(self).numerator(),
            final(self).denominator() == old(self).denominator(),
            old(self).numerator() == 0 ==> !r,
            old(self).numerator() == old(self).denominator() ==> r,
            old(self).seed() matches Some(s) ==> r == seeded_draw(
                s,
                old(self).numerator(),
                old(self).denominator(),
                old(self).drawn(),
            ),
    {
        let r = self.rng.gen_ratio(self.numerator, self.denominator);
        self.drawn = Ghost(self.drawn@ + 1);
        r
    }
}

} // verus!
