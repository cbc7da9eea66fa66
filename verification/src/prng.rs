//! The pseudo-random generator behind the random-register instruction.
//!
//! The generator is the ChaCha8 stream of `rand_chacha`, seeded from a
//! 64-bit value. The machine keeps only the seed and its position in the
//! stream, so the whole machine state is plain data and every draw is a
//! function of that state.
use vstd::prelude::*;
use rand::Rng;
use rand::SeedableRng;
use rand_chacha::ChaCha8Rng;

verus! {

/// The byte that a `ChaCha8Rng` seeded with `seed` yields when it is asked
/// for a `u8` at offset `word_pos`, counted in 32-bit words from the start
/// of its stream.
pub uninterp spec fn chacha8_byte(seed: u64, word_pos: u128) -> u8;

/// Draws one byte from the ChaCha8 stream of `seed` at `word_pos`.
///
/// Calls `ChaCha8Rng::seed_from_u64`, `ChaCha8Rng::set_word_pos` and
/// `Rng::random::<u8>` of `rand_chacha` and `rand`. The contract claims only
/// that the byte is a function of the seed and the position: the generator
/// is a deterministic stream cipher, `seed_from_u64` expands the seed by a
/// fixed procedure, `set_word_pos` seeks to an absolute offset of the
/// stream, of which it reads the low 68 bits, and a `u8` is the low byte of
/// the next word. Nothing is proved of the byte's value.
#[verifier::external_body]
fn chacha8_byte_at(seed: u64, word_pos: u128) -> (byte: u8)
    ensures
        byte == chacha8_byte(seed, word_pos),
{
    let mut rng = ChaCha8Rng::seed_from_u64(seed);
    rng.set_word_pos(word_pos);
    rng.random::<u8>()
}

/// The mathematical model of a [`Prng`]: a seed and a position.
pub struct PrngView {
    /// The seed the generator was made with.
    pub seed: u64,
    /// The offset of the next draw in the stream, in 32-bit words.
    pub word_pos: u128,
}

impl PrngView {
    /// The byte that the next draw yields.
    pub open spec fn next_byte(self) -> u8 {
        chacha8_byte(self.seed, self.word_pos)
    }

    /// The generator after one draw. A byte consumes one word of the stream.
    pub open spec fn advance(self) -> PrngView {
        PrngView {
            seed: self.seed,
            word_pos: if self.word_pos == u128::MAX {
                0
            } else {
                (self.word_pos + 1) as u128
            },
        }
    }
}

/// A seeded, deterministic generator of pseudo-random bytes.
#[derive(Clone, Copy, Debug, PartialEq, Eq, Structural)]
pub struct Prng {
    seed: u64,
    word_pos: u128,
}

impl View for Prng {
    type V = PrngView;

    closed spec fn view(&self) -> PrngView {
        PrngView { seed: self.seed, word_pos: self.word_pos }
    }
}

impl Prng {
    /// A generator at the start of the stream of `seed`.
    pub fn new(seed: u64) -> (prng: Prng)
        ensures
            prng@ == (PrngView { seed, word_pos: 0 }),
    {
        Prng { seed, word_pos: 0 }
    }

    /// Draws the next byte and moves one word forward in the stream.
    pub fn random_byte(&mut self) -> (byte: u8)
        ensures
            byte == old(self)@.next_byte(),
            final(self)@ == old(self)@.advance(),
    {
        let byte = chacha8_byte_at(self.seed, self.word_pos);
        self.word_pos = self.word_pos.wrapping_add(1);
        byte
    }
}

} // verus!
