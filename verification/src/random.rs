//! Draws from the seeded generator, and what the library makes of them.
//!
//! The generator hands out 32-bit words.  Every draw of the library takes
//! exactly one word: a heading and a span use its upper 23 bits as a
//! fraction, a sign uses its top bit.  The words of a generator are those
//! of the stream of its seed, one after the other, so every draw is a
//! function of the seed and of the number of words drawn before it, and a
//! round can be replayed from its seed.
use vstd::prelude::*;
use rand::rngs::StdRng;
use rand::{RngCore, SeedableRng};

verus! {

/// Number of headings around the full turn: 2 to the power of 23.
pub const HEADING_STEPS: u32 = 0x80_0000;

/// The low bits of a word that a fraction leaves out.
pub const FRACTION_SHIFT: u32 = 9;

/// `rand::rngs::StdRng`, the generator of the rand crate; nothing inside it
/// is seen here.
#[verifier::external_type_specification]
#[verifier::external_body]
pub struct ExStdRng(StdRng);

/// The word at the place `index`, counted from 0, of the stream of words
/// that a `StdRng` of the rand crate gives after `StdRng::seed_from_u64`
/// with `seed`.  The stream depends on the seed alone: the seed is spread
/// out by fixed arithmetic, and each block of words is computed from the
/// state before it, with the byte order fixed.
pub uninterp spec fn stream_word(seed: u64, index: nat) -> u32;

/// A generator together with its seed and the number of words drawn from
/// it.  Only `seeded` and `next_word` set the two counts.
pub struct SeededRng {
    rng: StdRng,
    seed: Ghost<u64>,
    drawn: Ghost<nat>,
}

impl SeededRng {
    /// The seed that the generator was made with.
    pub closed spec fn seed(&self) -> u64 {
        self.seed@
    }

    /// The number of words drawn so far.
    pub closed spec fn drawn(&self) -> nat {
        self.drawn@
    }

    /// The word that the draw after `ahead` further draws gives.
    pub open spec fn upcoming(&self, ahead: nat) -> u32 {
        stream_word(self.seed(), self.drawn() + ahead)
    }

    /// Whether this is the generator `before` after `words` draws.
    pub open spec fn follows(&self, before: SeededRng, words: nat) -> bool {
        self.seed() == before.seed() && self.drawn() == before.drawn() + words
    }

    /// `StdRng::seed_from_u64` of the rand crate: a generator at the start
    /// of the stream of `seed`.
    #[verifier::external_body]
    pub(crate) fn seeded(seed: u64) -> (rng: SeededRng)
        ensures
            rng.seed() == seed,
            rng.drawn() == 0,
    {
        SeededRng { rng: StdRng::seed_from_u64(seed), seed: Ghost(seed), drawn: Ghost(0) }
    }

    /// `RngCore::next_u32` on a `StdRng` of the rand crate: the next word
    /// of the stream of the generator's seed, after which the generator is
    /// one word further.
    #[verifier::external_body]
    pub(crate) fn next_word(&mut self) -> (word: u32)
        ensures
            word == stream_word(old(self).seed(), old(self).drawn()),
            final(self).seed() == old(self).seed(),
            final(self).drawn() == old(self).drawn() + 1,
    {
        self.rng.next_u32()
    }

    /// A generator at the start of the stream of `seed`.
    pub fn new(seed: u64) -> (rng: SeededRng)
        ensures
            rng.seed() == seed,
            rng.drawn() == 0,
    {
        SeededRng::seeded(seed)
    }
}

/// The fraction that a word stands for, as a count of steps of which
/// `HEADING_STEPS` make one: its upper 23 bits.
pub open spec fn word_fraction(word: u32) -> int {
    word as int / 512
}

/// A heading as a fraction of the full turn, counter-clockwise from the
/// positive x axis: `fraction` steps of which `HEADING_STEPS` make the turn.
#[derive(Clone, Copy, Debug, PartialEq, Eq, Structural)]
pub struct Heading {
    pub fraction: u32,
}

impl Heading {
    pub open spec fn wf(self) -> bool {
        self.fraction < HEADING_STEPS
    }

    /// The heading that a word of the generator stands for.
    pub fn from_word(word: u32) -> (heading: Heading)
        ensures
            heading.wf(),
            heading.fraction == word_fraction(word),
    {
        assert(word >> 9 == word / 512) by (bit_vector);
        Heading { fraction: word >> FRACTION_SHIFT }
    }
}

/// The sign that a word of the generator stands for: negative where its top
/// bit is set.
pub open spec fn word_is_negative(word: u32) -> bool {
    word >= 0x8000_0000
}

/// The sign that a word of the generator stands for.
pub fn sign_from_word(word: u32) -> (negative: bool)
    ensures
        negative == word_is_negative(word),
{
    word >= 0x8000_0000
}

/// The value between `low` and `high` that a word stands for: `low` plus
/// the word's fraction of the distance, rounded down.
pub open spec fn word_span(low: int, high: int, word: u32) -> int {
    low + (high - low) * word_fraction(word) / (HEADING_STEPS as int)
}

/// A fraction of a distance is less than the distance.
proof fn lemma_fraction_of_distance(distance: int, fraction: int, steps: int)
    by (nonlinear_arith)
    requires
        0 < distance,
        0 <= fraction < steps,
    ensures
        0 <= distance * fraction,
        distance * fraction <= distance * (steps - 1),
        0 <= distance * fraction / steps < distance,
{
}

/// The value between `low` and `high` that a word of the generator stands
/// for; it may be `low` and is less than `high`.
pub fn span_from_word(low: i32, high: i32, word: u32) -> (value: i32)
    requires
        low < high,
    ensures
        value == word_span(low as int, high as int, word),
        low <= value < high,
{
    let distance: i64 = high as i64 - low as i64;
    let fraction: i64 = Heading::from_word(word).fraction as i64;
    proof {
        lemma_fraction_of_distance(distance as int, fraction as int, HEADING_STEPS as int);
    }
    let offset: i64 = distance * fraction / (HEADING_STEPS as i64);
    (low as i64 + offset) as i32
}

/// Draws a heading: the next word of `rng`.
pub fn draw_heading(rng: &mut SeededRng) -> (heading: Heading)
    ensures
        heading.wf(),
        heading.fraction == word_fraction(old(rng).upcoming(0)),
        final(rng).follows(*old(rng), 1),
{
    let word: u32 = rng.next_word();
    Heading::from_word(word)
}

/// Draws a sign: the next word of `rng`.  True stands for negative.
pub fn draw_sign(rng: &mut SeededRng) -> (negative: bool)
    ensures
        negative == word_is_negative(old(rng).upcoming(0)),
        final(rng).follows(*old(rng), 1),
{
    let word: u32 = rng.next_word();
    sign_from_word(word)
}

/// Draws a value that is at least `low` and less than `high`: the next word
/// of `rng`.
pub fn draw_span(low: i32, high: i32, rng: &mut SeededRng) -> (value: i32)
    requires
        low < high,
    ensures
        value == word_span(low as int, high as int, old(rng).upcoming(0)),
        low <= value < high,
        final(rng).follows(*old(rng), 1),
{
    let word: u32 = rng.next_word();
    span_from_word(low, high, word)
}

} // verus!
