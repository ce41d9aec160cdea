//! Seeded random number generation.
//!
//! Fixtures draw from a `ChaCha20Rng` seeded with `seed_from_u64`. The
//! stream of such a generator is fixed by its seed: `rand_core` documents
//! seeded generators as reproducible on all runs, library versions and
//! architectures, and ChaCha20 computes each block from its key and block
//! counter alone. What a draw returns is therefore a function of the seed
//! and of the generator's position in its stream, and [`FixtureRng`]
//! carries both as ghost state. Only `u32` ranges and `u64` words are drawn:
//! `rand` samples a range in the width of its type, so a `u32` range gives
//! the same value on every machine, where a `usize` range would not.
use vstd::prelude::*;

use rand::{Rng, SeedableRng};
use rand_chacha::ChaCha20Rng;

verus! {

/// The ChaCha20 generator (opaque).
#[verifier::external_type_specification]
#[verifier::external_body]
pub struct ExChaCha20Rng(ChaCha20Rng);

/// A ChaCha20 generator seeded from a `u64`. Its view is the seed and the
/// position reached in the generator's stream.
pub struct FixtureRng {
    rng: ChaCha20Rng,
    seed: Ghost<u64>,
    pos: Ghost<nat>,
}

impl View for FixtureRng {
    type V = (u64, nat);

    closed spec fn view(&self) -> (u64, nat) {
        (self.seed@, self.pos@)
    }
}

/// What `gen_range(low..=high)` on `u32` returns from the ChaCha20
/// generator seeded with `seed_from_u64(seed)` at position `pos` of its
/// stream, and the position it leaves the generator at.
pub uninterp spec fn chacha_u32_between(seed: u64, pos: nat, low: u32, high: u32) -> (u32, nat);

/// What `gen::<u64>()` returns from the ChaCha20 generator seeded with
/// `seed_from_u64(seed)` at position `pos` of its stream, and the position
/// it leaves the generator at.
pub uninterp spec fn chacha_u64(seed: u64, pos: nat) -> (u64, nat);

/// Builds a `ChaCha20Rng` from a 64-bit seed (`SeedableRng::seed_from_u64`),
/// at the start of its stream.
#[verifier::external_body]
pub fn seeded_rng(seed: u64) -> (r: FixtureRng)
    ensures
        r@ == (seed, 0nat),
{
    FixtureRng { rng: ChaCha20Rng::seed_from_u64(seed), seed: Ghost(seed), pos: Ghost(0nat) }
}

/// A uniform `u32` in `low..=high` (`rng.gen_range(low..=high)`, which
/// panics only on an empty range). The value and the next position are
/// those the stream gives at the generator's seed and position.
#[verifier::external_body]
pub(crate) fn rng_between(rng: &mut FixtureRng, low: u32, high: u32) -> (r: u32)
    requires
        low <= high,
    ensures
        low <= r <= high,
        (r, final(rng)@.1) == chacha_u32_between(old(rng)@.0, old(rng)@.1, low, high),
        final(rng)@.0 == old(rng)@.0,
{
    rng.rng.gen_range(low..=high)
}

/// A uniformly random `u64` (`rng.gen::<u64>()`). The value and the next
/// position are those the stream gives at the generator's seed and
/// position.
#[verifier::external_body]
pub(crate) fn rng_u64(rng: &mut FixtureRng) -> (r: u64)
    ensures
        (r, final(rng)@.1) == chacha_u64(old(rng)@.0, old(rng)@.1),
        final(rng)@.0 == old(rng)@.0,
{
    rng.rng.gen::<u64>()
}

/// A draw of `low..=high` at state `s`: the value and the next state.
pub open spec fn draw_between(s: (u64, nat), low: u32, high: u32) -> (u32, (u64, nat)) {
    let (v, p) = chacha_u32_between(s.0, s.1, low, high);
    (v, (s.0, p))
}

/// A `u64` draw at state `s`: the value and the next state.
pub open spec fn draw_u64(s: (u64, nat)) -> (u64, (u64, nat)) {
    let (v, p) = chacha_u64(s.0, s.1);
    (v, (s.0, p))
}

/// A fair coin at state `s`: a draw of `0..=1`, heads when it is `1`.
pub open spec fn draw_bool(s: (u64, nat)) -> (bool, (u64, nat)) {
    let (v, t) = draw_between(s, 0, 1);
    (v == 1, t)
}

/// `n` successive draws of `f` from state `s`: their values in order and
/// the state after the last.
pub open spec fn repeat<T>(s: (u64, nat), n: nat, f: spec_fn((u64, nat)) -> (T, (u64, nat))) -> (
    Seq<T>,
    (u64, nat),
)
    decreases n,
{
    if n == 0 {
        (seq![], s)
    } else {
        let (xs, t) = repeat(s, (n - 1) as nat, f);
        let (x, u) = f(t);
        (xs.push(x), u)
    }
}

/// A fair coin (a draw of `0..=1`).
pub(crate) fn rng_bool(rng: &mut FixtureRng) -> (r: bool)
    ensures
        (r, final(rng)@) == draw_bool(old(rng)@),
{
    rng_between(rng, 0, 1) == 1
}

/// A draw of `low..=high`, as a value and the next state.
pub(crate) fn rng_draw(rng: &mut FixtureRng, low: u32, high: u32) -> (r: u32)
    requires
        low <= high,
    ensures
        low <= r <= high,
        (r, final(rng)@) == draw_between(old(rng)@, low, high),
{
    rng_between(rng, low, high)
}

/// A `u64` draw, as a value and the next state.
pub(crate) fn rng_word(rng: &mut FixtureRng) -> (r: u64)
    ensures
        (r, final(rng)@) == draw_u64(old(rng)@),
{
    rng_u64(rng)
}

} // verus!
