//! A seeded stream of production units that can be fast-forwarded and strided.
//!
//! One production unit is two draws, taken from the generator in a fixed
//! order: first the draw that selects a file, then the draw that places the
//! window inside it. A draw is an integer below [`DRAW_DENOMINATOR`] and
//! stands for the fraction `draw / DRAW_DENOMINATOR` in `[0, 1)`.

use rand::rngs::StdRng;
use rand::{RngCore, SeedableRng};
use vstd::prelude::*;

verus! {

/// The denominator over which a draw is read as a fraction: `2^52`.
pub const DRAW_DENOMINATOR: u64 = 0x10_0000_0000_0000;

/// The number of low bits of a generator word that a draw leaves out.
pub const DISCARDED_BITS: u64 = 12;

/// `rand::rngs::StdRng`, the generator behind every draw. Nothing of its
/// state is visible but the words that it has pending.
#[verifier::external_type_specification]
#[verifier::external_body]
pub struct ExStdRng(StdRng);

/// The words that a generator will hand out from now on: entry `k` is what
/// the call number `k` of `next_u64`, counted from zero, returns.
pub uninterp spec fn pending(rng: StdRng) -> Map<nat, u64>;

/// The words of the generator that `seed_from_u64` makes from a seed.
pub uninterp spec fn seeded_words(seed: u64) -> Map<nat, u64>;

/// `StdRng::seed_from_u64`: the generator is a function of the seed alone, so
/// the words it will hand out are those named by [`seeded_words`].
#[verifier::external_body]
pub(crate) fn seed_rng(seed: u64) -> (rng: StdRng)
    ensures
        pending(rng) == seeded_words(seed),
{
    StdRng::seed_from_u64(seed)
}

/// `RngCore::next_u64` on `StdRng`: hands out the first pending word and
/// leaves the others pending, each one place earlier.
#[verifier::external_body]
pub(crate) fn next_word(rng: &mut StdRng) -> (word: u64)
    ensures
        word == pending(*old(rng))[0],
        forall|k: nat| #[trigger] pending(*final(rng))[k] == pending(*old(rng))[k + 1],
{
    rng.next_u64()
}

/// `Clone::clone` on `StdRng`: the copy will hand out the same words.
#[verifier::external_body]
pub(crate) fn clone_rng(rng: &StdRng) -> (copy: StdRng)
    ensures
        pending(copy) == pending(*rng),
{
    rng.clone()
}

/// The draw that a generator word carries: its 52 high bits.
pub open spec fn draw_of_word(word: u64) -> u64 {
    (word / 4096) as u64
}

/// The draw number `k` of the stream that starts from `seed`.
pub open spec fn draw_at(seed: u64, k: nat) -> u64 {
    draw_of_word(seeded_words(seed)[k])
}

/// Turns a generator word into a draw.
pub fn word_to_draw(word: u64) -> (draw: u64)
    ensures
        draw == draw_of_word(word),
        draw < DRAW_DENOMINATOR,
{
    assert(word >> 12 == word / 4096) by (bit_vector);
    word >> DISCARDED_BITS
}

/// A generator together with its position in the stream of production units.
pub struct RngWithStep {
    rng: StdRng,
    seed: Ghost<u64>,
    step_by: u64,
    index: u64,
}

impl RngWithStep {
    /// The seed that the stream started from.
    pub closed spec fn seed(&self) -> u64 {
        self.seed@
    }

    /// The number of units that `next` passes over before the one it returns.
    pub closed spec fn step_by(&self) -> u64 {
        self.step_by
    }

    /// The number of units consumed so far.
    pub closed spec fn index(&self) -> u64 {
        self.index
    }

    /// The generator stands exactly `2 * index` draws into the stream of its
    /// seed.
    pub closed spec fn wf(&self) -> bool {
        forall|k: nat| #[trigger]
            pending(self.rng)[k] == seeded_words(self.seed@)[2 * self.index as nat + k]
    }

    /// A stream from `seed`, already advanced by `skip` units. The stride is
    /// not applied to `skip`.
    pub fn new(seed: u64, skip: u64, step_by: u64) -> (r: Self)
        ensures
            r.wf(),
            r.seed() == seed,
            r.step_by() == step_by,
            r.index() == skip,
    {
        let rng = seed_rng(seed);
        let mut r = RngWithStep { rng, seed: Ghost(seed), step_by, index: 0 };
        r.skip(skip);
        r
    }

    /// Consumes `skip` units without returning them.
    pub fn skip(&mut self, skip: u64)
        requires
            old(self).wf(),
            old(self).index() + skip <= u64::MAX,
        ensures
            final(self).wf(),
            final(self).seed() == old(self).seed(),
            final(self).step_by() == old(self).step_by(),
            final(self).index() == old(self).index() + skip,
    {
        let mut done: u64 = 0;
        while done < skip
            invariant
                done <= skip,
                self.wf(),
                self.seed@ == old(self).seed@,
                self.step_by == old(self).step_by,
                self.index == old(self).index + done,
                old(self).index + skip <= u64::MAX,
            decreases skip - done,
        {
            self.take_unit();
            done += 1;
        }
    }

    /// Consumes one unit and returns its two draws in stream order.
    fn take_unit(&mut self) -> (r: (u64, u64))
        requires
            old(self).wf(),
            old(self).index() < u64::MAX,
        ensures
            final(self).wf(),
            final(self).seed() == old(self).seed(),
            final(self).step_by() == old(self).step_by(),
            final(self).index() == old(self).index() + 1,
            r.0 == draw_at(old(self).seed(), 2 * old(self).index() as nat),
            r.1 == draw_at(old(self).seed(), 2 * old(self).index() as nat + 1),
    {
        let first = next_word(&mut self.rng);
        let second = next_word(&mut self.rng);
        self.index = self.index + 1;
        (word_to_draw(first), word_to_draw(second))
    }

    /// Passes over `step_by` units, then returns the index of the unit
    /// reached and its two draws: the one that selects a file first, the one
    /// that places the window second.
    pub fn next(&mut self) -> (r: (u64, u64, u64))
        requires
            old(self).wf(),
            old(self).index() + old(self).step_by() < u64::MAX,
        ensures
            final(self).wf(),
            final(self).seed() == old(self).seed(),
            final(self).step_by() == old(self).step_by(),
            r.0 == old(self).index() + old(self).step_by(),
            final(self).index() == r.0 + 1,
            r.1 == draw_at(old(self).seed(), 2 * r.0 as nat),
            r.2 == draw_at(old(self).seed(), 2 * r.0 as nat + 1),
            r.1 < DRAW_DENOMINATOR,
            r.2 < DRAW_DENOMINATOR,
    {
        let stride = self.step_by;
        self.skip(stride);
        let index = self.index;
        let draws = self.take_unit();
        (index, draws.0, draws.1)
    }

    /// As `next`, unless the index of the unit to return, or the count of
    /// units consumed after it, would pass `u64::MAX`: then nothing is drawn
    /// and `None` comes back.
    pub fn try_next(&mut self) -> (r: Option<(u64, u64, u64)>)
        requires
            old(self).wf(),
        ensures
            final(self).wf(),
            final(self).seed() == old(self).seed(),
            final(self).step_by() == old(self).step_by(),
            r is Some <==> old(self).index() + old(self).step_by() < u64::MAX,
            r is None ==> final(self).index() == old(self).index(),
            r matches Some(unit) ==> {
                &&& unit.0 == old(self).index() + old(self).step_by()
                &&& final(self).index() == unit.0 + 1
                &&& unit.1 == draw_at(old(self).seed(), 2 * unit.0 as nat)
                &&& unit.2 == draw_at(old(self).seed(), 2 * unit.0 as nat + 1)
                &&& unit.1 < DRAW_DENOMINATOR
                &&& unit.2 < DRAW_DENOMINATOR
            },
    {
        if self.step_by < u64::MAX - self.index {
            Some(self.next())
        } else {
            None
        }
    }

    /// The index of the unit that the next call of `next` returns, stride
    /// aside: the number of units consumed so far.
    pub fn position(&self) -> (r: u64)
        ensures
            r == self.index(),
    {
        self.index
    }

    /// The stride that `next` applies.
    pub fn stride(&self) -> (r: u64)
        ensures
            r == self.step_by(),
    {
        self.step_by
    }
}

impl Clone for RngWithStep {
    /// An independent continuation of the same stream from the same place.
    fn clone(&self) -> (r: Self)
        ensures
            self.wf() ==> r.wf(),
            r.seed() == self.seed(),
            r.step_by() == self.step_by(),
            r.index() == self.index(),
    {
        RngWithStep {
            rng: clone_rng(&self.rng),
            seed: self.seed,
            step_by: self.step_by,
            index: self.index,
        }
    }
}

} // verus!
