//! Seeded randomness. Every draw is a function of a seed and of the number
//! of the draw, so that two simulations with one seed agree on all of them.
//!
//! A seed keys a ChaCha generator with eight rounds, which offers 2^64
//! independent streams per key. The pieces take the even streams, one per
//! bag; the garbage columns take the odd streams, one per draw.

use vstd::prelude::*;
use rand::seq::SliceRandom;
use rand::Rng;
use rand::SeedableRng;
use rand_chacha::ChaCha8Rng;

verus! {

/// The order that `rand`'s shuffle gives `items` when it draws from stream
/// `stream` of the ChaCha8 generator keyed by `seed`.
pub uninterp spec fn shuffled(seed: u64, stream: u64, items: Seq<u8>) -> Seq<u8>;

/// The number below `bound` that `rand` draws first from stream `stream` of
/// the ChaCha8 generator keyed by `seed`.
pub uninterp spec fn uniform_draw(seed: u64, stream: u64, bound: u32) -> u32;

/// The last bag, and the last draw, that has a stream of its own.
pub const LAST_INDEX: u64 = 0x7fff_ffff_ffff_ffff;

/// Shuffles `items` with `rand::seq::SliceRandom::shuffle`, drawing from a
/// `rand_chacha::ChaCha8Rng` made by `SeedableRng::seed_from_u64(seed)` and
/// moved to `stream` by `ChaCha8Rng::set_stream`.
///
/// Trusted: that the result depends on the three arguments alone, and that
/// it holds the items that were handed in, each as often as before. The
/// shuffle only swaps elements of the slice.
#[verifier::external_body]
pub(crate) fn shuffle_seeded(seed: u64, stream: u64, items: Vec<u8>) -> (out: Vec<u8>)
    ensures
        out@ == shuffled(seed, stream, items@),
        out@.to_multiset() == items@.to_multiset(),
{
    let mut rng = ChaCha8Rng::seed_from_u64(seed);
    rng.set_stream(stream);
    let mut out = items;
    out.shuffle(&mut rng);
    out
}

/// Draws a number with `rand::Rng::gen_range(0..bound)` from a
/// `rand_chacha::ChaCha8Rng` made by `SeedableRng::seed_from_u64(seed)` and
/// moved to `stream` by `ChaCha8Rng::set_stream`.
///
/// Trusted: that the result depends on the three arguments alone and lies in
/// the range. `gen_range` panics on an empty range, which `bound > 0` rules
/// out.
#[verifier::external_body]
pub(crate) fn draw_seeded(seed: u64, stream: u64, bound: u32) -> (value: u32)
    requires
        bound > 0,
    ensures
        value == uniform_draw(seed, stream, bound),
        value < bound,
{
    let mut rng = ChaCha8Rng::seed_from_u64(seed);
    rng.set_stream(stream);
    rng.gen_range(0..bound)
}

/// The stream that draw number `index` of a board's own randomness reads:
/// the odd streams, the last of them for every draw from `LAST_INDEX` on.
pub open spec fn draw_stream(index: nat) -> u64 {
    if index >= LAST_INDEX {
        (2 * LAST_INDEX + 1) as u64
    } else {
        (2 * index + 1) as u64
    }
}

/// The value of draw number `index` below `bound` under `seed`.
pub open spec fn draw_at(seed: u64, index: nat, bound: u32) -> u32 {
    uniform_draw(seed, draw_stream(index), bound)
}

/// A board's own source of random numbers: a seed and the number of draws
/// made so far.
pub struct RngManager {
    seed: u64,
    index: u64,
    drawn: Ghost<nat>,
}

impl RngManager {
    /// The invariant: the stored index is the number of draws, capped at
    /// `LAST_INDEX`.
    pub closed spec fn wf(&self) -> bool {
        self.index == if self.drawn@ >= LAST_INDEX {
            LAST_INDEX as nat
        } else {
            self.drawn@
        }
    }

    pub closed spec fn spec_seed(&self) -> u64 {
        self.seed
    }

    /// How many draws were made.
    pub closed spec fn spec_drawn(&self) -> nat {
        self.drawn@
    }

    /// A source that has made no draw yet.
    pub fn new(seed: u64) -> (rng: RngManager)
        ensures
            rng.wf(),
            rng.spec_seed() == seed,
            rng.spec_drawn() == 0,
    {
        RngManager { seed, index: 0, drawn: Ghost(0) }
    }

    pub fn get_seed(&self) -> (seed: u64)
        ensures
            seed == self.spec_seed(),
    {
        self.seed
    }

    /// Starts over under the same seed: the draws that follow repeat the
    /// draws made since `new`.
    pub fn reset(&mut self)
        ensures
            final(self).wf(),
            final(self).spec_seed() == old(self).spec_seed(),
            final(self).spec_drawn() == 0,
    {
        self.index = 0;
        self.drawn = Ghost(0);
    }

    /// Draws the next number below `bound`.
    pub fn gen_below(&mut self, bound: u32) -> (value: u32)
        requires
            old(self).wf(),
            bound > 0,
        ensures
            final(self).wf(),
            final(self).spec_seed() == old(self).spec_seed(),
            final(self).spec_drawn() == old(self).spec_drawn() + 1,
            value == draw_at(old(self).spec_seed(), old(self).spec_drawn(), bound),
            value < bound,
    {
        let value = draw_seeded(self.seed, 2 * self.index + 1, bound);
        if self.index < LAST_INDEX {
            self.index += 1;
        }
        self.drawn = Ghost((self.drawn@ + 1) as nat);
        value
    }
}

} // verus!
