//! The uniform record that the compute stage reads, its seed and its bytes.

use crate::extent::Extent;
use vstd::prelude::*;

verus! {

/// Nanoseconds in one second: frame seeds are always below this.
pub const NANOS_PER_SECOND: u32 = 1_000_000_000;

/// Size in bytes of the uniform record as the device sees it.
pub const UNIFORM_SIZE: usize = 16;

/// The record handed to the compute stage each frame. On the device it is
/// four 32-bit words in this order: seed, padding, width, height.
#[derive(Clone, Copy, Debug, PartialEq, Eq, Structural)]
pub struct RaySamplingUniform {
    pub seed: u32,
    pub pad: u32,
    pub extent: Extent,
}

/// The seed of a frame that starts `elapsed_nanos` after its renderer did:
/// the sub-second part of the elapsed time, in nanoseconds.
pub open spec fn seed_at(elapsed_nanos: u128) -> u32 {
    (elapsed_nanos % 1_000_000_000) as u32
}

/// Derives a frame's seed from the time elapsed since the renderer started.
pub fn seed_from_elapsed(elapsed_nanos: u128) -> (seed: u32)
    ensures
        seed == seed_at(elapsed_nanos),
        seed < NANOS_PER_SECOND,
{
    (elapsed_nanos % 1_000_000_000) as u32
}

/// Two frames less than a second apart on an advancing clock get different
/// seeds.
pub proof fn lemma_seed_differs_within_a_second(earlier: u128, later: u128)
    requires
        earlier < later,
        later - earlier < 1_000_000_000,
    ensures
        seed_at(earlier) != seed_at(later),
{
    let a = earlier as int;
    let b = later as int;
    assert(a % 1_000_000_000 != b % 1_000_000_000) by (nonlinear_arith)
        requires
            0 <= a < b,
            b - a < 1_000_000_000,
    ;
}

/// The four bytes of `word`, least significant first.
pub open spec fn le_bytes(word: u32) -> Seq<u8> {
    seq![
        (word % 256) as u8,
        ((word / 256) % 256) as u8,
        ((word / 65536) % 256) as u8,
        (word / 16777216) as u8,
    ]
}

/// The four bytes of `word`, most significant first.
pub open spec fn be_bytes(word: u32) -> Seq<u8> {
    seq![
        (word / 16777216) as u8,
        ((word / 65536) % 256) as u8,
        ((word / 256) % 256) as u8,
        (word % 256) as u8,
    ]
}

/// `bytes` is what `words` look like in memory on some machine: four bytes
/// per word, in the order of the words, with one byte order throughout.
pub open spec fn is_memory_image(words: Seq<u32>, bytes: Seq<u8>) -> bool {
    &&& bytes.len() == 4 * words.len()
    &&& {
        ||| forall|i: int|
            0 <= i < words.len() ==> bytes.subrange(4 * i, 4 * i + 4) == le_bytes(
                #[trigger] words[i],
            )
        ||| forall|i: int|
            0 <= i < words.len() ==> bytes.subrange(4 * i, 4 * i + 4) == be_bytes(
                #[trigger] words[i],
            )
    }
}

/// Calls `bytemuck::cast_slice` from 32-bit words to bytes, which hands out
/// the memory of the slice as it stands. The byte order within a word is the
/// machine's, so the contract claims only that it is one of the two orders
/// and the same for every word. For these two types the cast cannot fail:
/// bytes need no alignment and any length divides evenly.
#[verifier::external_body]
fn cast_words(words: &[u32]) -> (bytes: Vec<u8>)
    ensures
        is_memory_image(words@, bytes@),
{
    bytemuck::cast_slice::<u32, u8>(words).to_vec()
}

impl RaySamplingUniform {
    /// The record as the sequence of words that the device reads.
    pub open spec fn words(self) -> Seq<u32> {
        seq![self.seed, self.pad, self.extent.width, self.extent.height]
    }

    /// The record for a frame of the given extent and seed.
    pub fn new(seed: u32, extent: Extent) -> (uniform: RaySamplingUniform)
        ensures
            uniform == (RaySamplingUniform { seed, pad: 0, extent }),
    {
        RaySamplingUniform { seed, pad: 0, extent }
    }

    /// The bytes to copy into the uniform buffer: the memory image of the
    /// four words of the record.
    pub fn as_bytes(&self) -> (bytes: Vec<u8>)
        ensures
            bytes@.len() == UNIFORM_SIZE,
            is_memory_image(self.words(), bytes@),
    {
        let mut words: Vec<u32> = Vec::new();
        words.push(self.seed);
        words.push(self.pad);
        words.push(self.extent.width);
        words.push(self.extent.height);
        assert(words@ =~= self.words());
        cast_words(words.as_slice())
    }
}

} // verus!
