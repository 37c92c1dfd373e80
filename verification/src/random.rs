//! A seeded random source. Its state is the seed it was made with and the
//! draws made of it since, so each draw is named as a function of that state.
//!
//! `StdRng` here is rand's ChaCha generator seeded through `seed_from_u64`, and
//! every draw named below reads fixed-width words (`u32` or `u64`), so its
//! result is fixed by the seed and the earlier draws on every machine. Index
//! draws are made on `u64` for that reason: a `usize` draw reads a `u32` on
//! 32-bit machines, and on 64-bit machines it reads and returns the same as
//! the `u64` draw.

use vstd::prelude::*;

use rand::rngs::StdRng;

verus! {

/// `rand::rngs::StdRng`, the seeded generator behind every draw.
#[verifier::external_type_specification]
#[verifier::external_body]
pub struct ExStdRng(rand::rngs::StdRng);

/// One request made of a seeded generator, with its arguments.
pub enum Draw {
    /// `gen_ratio(numerator, denominator)`.
    Ratio(u32, u32),
    /// `gen_range(low..high)` on `i32`.
    RangeI32(i32, i32),
    /// `gen_range(low..high)` on `u64`.
    RangeU64(u64, u64),
    /// `gen_range(low..=high)` on `u8`.
    InclusiveU8(u8, u8),
    /// `next_u32`, one raw 32-bit word.
    Word,
}

/// The state of a seeded generator: its seed and the draws made of it, oldest first.
pub struct RngState {
    pub seed: u64,
    pub draws: Seq<Draw>,
}

impl RngState {
    /// The state after one more draw.
    pub open spec fn after(self, d: Draw) -> RngState {
        RngState { seed: self.seed, draws: self.draws.push(d) }
    }

    /// The state after the draws `ds`, in order.
    pub open spec fn after_all(self, ds: Seq<Draw>) -> RngState {
        RngState { seed: self.seed, draws: self.draws + ds }
    }
}

/// A generator just seeded with `seed`.
pub open spec fn fresh(seed: u64) -> RngState {
    RngState { seed, draws: Seq::empty() }
}

/// A `StdRng` together with the record of how it was seeded and drawn from.
/// Only the functions of this module touch the generator, and each of them
/// records the draw it makes.
pub struct SeededRng {
    rng: StdRng,
    state: Ghost<RngState>,
}

impl View for SeededRng {
    type V = RngState;

    closed spec fn view(&self) -> RngState {
        self.state@
    }
}

/// What `Rng::gen_ratio(numerator, denominator)` returns on a generator in `state`.
pub uninterp spec fn ratio_draw(state: RngState, numerator: u32, denominator: u32) -> bool;

/// What `Rng::gen_range(low..high)` on `i32` returns on a generator in `state`.
pub uninterp spec fn i32_draw(state: RngState, low: i32, high: i32) -> i32;

/// What `Rng::gen_range(low..high)` on `u64` returns on a generator in `state`.
pub uninterp spec fn u64_draw(state: RngState, low: u64, high: u64) -> u64;

/// What `Rng::gen_range(low..=high)` on `u8` returns on a generator in `state`.
pub uninterp spec fn u8_inclusive_draw(state: RngState, low: u8, high: u8) -> u8;

/// What `RngCore::next_u32` returns on a generator in `state`.
pub uninterp spec fn word_draw(state: RngState) -> u32;

/// Calls `StdRng::seed_from_u64(seed)`: a generator in state `fresh(seed)`.
#[verifier::external_body]
pub(crate) fn seeded(seed: u64) -> (r: SeededRng)
    ensures
        r@ == fresh(seed),
{
    SeededRng { rng: <StdRng as rand::SeedableRng>::seed_from_u64(seed), state: Ghost(fresh(seed)) }
}

/// Calls `Rng::gen_ratio`, which draws `true` with probability
/// `numerator / denominator` (one `u64` from the generator, none when the two
/// are equal); always `false` for a zero numerator and always `true` when the
/// two are equal. It panics when the denominator is zero or below the numerator.
/// The outcome is named by `ratio_draw` of the generator's state.
#[verifier::external_body]
pub(crate) fn draw_ratio(rng: &mut SeededRng, numerator: u32, denominator: u32) -> (r: bool)
    requires
        0 < denominator,
        numerator <= denominator,
    ensures
        r == ratio_draw(old(rng)@, numerator, denominator),
        final(rng)@ == old(rng)@.after(Draw::Ratio(numerator, denominator)),
        numerator == 0 ==> !r,
        numerator == denominator ==> r,
{
    rand::Rng::gen_ratio(&mut rng.rng, numerator, denominator)
}

/// Calls `Rng::gen_range` on a half-open `i32` range: the draw lies in
/// `[low, high)` and is named by `i32_draw`. It panics on an empty range.
#[verifier::external_body]
pub(crate) fn draw_i32(rng: &mut SeededRng, low: i32, high: i32) -> (r: i32)
    requires
        low < high,
    ensures
        r == i32_draw(old(rng)@, low, high),
        final(rng)@ == old(rng)@.after(Draw::RangeI32(low, high)),
        low <= r < high,
{
    rand::Rng::gen_range(&mut rng.rng, low..high)
}

/// Calls `Rng::gen_range` on a half-open `u64` range: the draw lies in
/// `[low, high)` and is named by `u64_draw`. It panics on an empty range.
#[verifier::external_body]
pub(crate) fn draw_u64(rng: &mut SeededRng, low: u64, high: u64) -> (r: u64)
    requires
        low < high,
    ensures
        r == u64_draw(old(rng)@, low, high),
        final(rng)@ == old(rng)@.after(Draw::RangeU64(low, high)),
        low <= r < high,
{
    rand::Rng::gen_range(&mut rng.rng, low..high)
}

/// Calls `Rng::gen_range` on an inclusive `u8` range: the draw lies in
/// `[low, high]` and is named by `u8_inclusive_draw`. It panics on an empty range.
#[verifier::external_body]
pub(crate) fn draw_u8_inclusive(rng: &mut SeededRng, low: u8, high: u8) -> (r: u8)
    requires
        low <= high,
    ensures
        r == u8_inclusive_draw(old(rng)@, low, high),
        final(rng)@ == old(rng)@.after(Draw::InclusiveU8(low, high)),
        low <= r <= high,
{
    rand::Rng::gen_range(&mut rng.rng, low..=high)
}

/// Calls `RngCore::next_u32`: one raw word, named by `word_draw`.
#[verifier::external_body]
pub(crate) fn draw_word(rng: &mut SeededRng) -> (r: u32)
    ensures
        r == word_draw(old(rng)@),
        final(rng)@ == old(rng)@.after(Draw::Word),
{
    rand::RngCore::next_u32(&mut rng.rng)
}

} // verus!
