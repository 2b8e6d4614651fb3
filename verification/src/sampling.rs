//! The deterministic sampling procedure of the benchmark.
//!
//! Every fitness evaluation draws its inputs from `rand::StdRng` seeded with
//! the fixed seed `[0]`, never re-seeded between calls, so that every score
//! for the same network is reproducible run to run.  A draw takes the next
//! raw 32-bit word of the generator, keeps its low 23 bits as a significand
//! of a value in [1, 2), and subtracts one; the samples therefore lie in
//! [0, 1).  The subtraction of two values this close is exact, so the sample
//! bit pattern is a deterministic function of the raw word alone.

use vstd::prelude::*;
use crate::float_bits::{sub_bits, sub_bits_spec};

verus! {

#[verifier::external_type_specification]
#[verifier::external_body]
pub struct ExStdRng(rand::StdRng);

/// The seed the generator was constructed from.
pub uninterp spec fn rng_seed(r: rand::StdRng) -> Seq<usize>;

/// How many raw words have been drawn from the generator so far.
pub uninterp spec fn rng_pos(r: rand::StdRng) -> nat;

/// The i-th raw 32-bit word that a generator seeded with `seed` yields.
pub uninterp spec fn raw_word(seed: Seq<usize>, i: int) -> u32;

/// The seed every evaluation uses.
pub open spec fn fixed_seed() -> Seq<usize> {
    seq![0usize]
}

/// The bit pattern of the i-th scalar sample drawn from a generator seeded
/// with `seed`: the low 23 bits of the i-th raw word read as a value in
/// [1, 2), minus one.
pub open spec fn sample_bits(seed: Seq<usize>, i: int) -> u32 {
    sub_bits_spec(0x3F80_0000u32 | (raw_word(seed, i) & 0x007F_FFFFu32), 0x3F80_0000u32)
}

/// The i-th sample of the benchmark's own fixed-seed sequence.
pub open spec fn sample_at(i: int) -> u32 {
    sample_bits(fixed_seed(), i)
}

/// Relies on `rand::SeedableRng::from_seed` for `rand::StdRng`: the fresh
/// generator state is a function of the given seed alone.
#[verifier::external_body]
pub(crate) fn rng_from_seed(seed: &Vec<usize>) -> (r: rand::StdRng)
    ensures
        rng_seed(r) == seed@,
        rng_pos(r) == 0,
{
    <rand::StdRng as rand::SeedableRng<&[usize]>>::from_seed(&seed[..])
}

/// Relies on `rand::Rng::next_u32` for `rand::StdRng`: each word is a
/// function of the generator state, which advances deterministically by one
/// draw per call.
#[verifier::external_body]
pub(crate) fn next_raw_word(rng: &mut rand::StdRng) -> (w: u32)
    ensures
        rng_seed(*final(rng)) == rng_seed(*old(rng)),
        rng_pos(*final(rng)) == rng_pos(*old(rng)) + 1,
        w == raw_word(rng_seed(*old(rng)), rng_pos(*old(rng)) as int),
{
    rand::Rng::next_u32(rng)
}

/// Draw the next scalar sample in [0, 1) from the generator.
pub fn draw_sample(rng: &mut rand::StdRng) -> (x: u32)
    ensures
        rng_seed(*final(rng)) == rng_seed(*old(rng)),
        rng_pos(*final(rng)) == rng_pos(*old(rng)) + 1,
        x == sample_bits(rng_seed(*old(rng)), rng_pos(*old(rng)) as int),
{
    let w = next_raw_word(rng);
    sub_bits(0x3F80_0000u32 | (w & 0x007F_FFFFu32), 0x3F80_0000u32)
}

/// Construct the generator every evaluation starts from: `rand::StdRng`
/// seeded with `[0]`.
pub fn fixed_seeded_rng() -> (r: rand::StdRng)
    ensures
        rng_seed(r) == fixed_seed(),
        rng_pos(r) == 0,
{
    let mut seed: Vec<usize> = Vec::new();
    seed.push(0);
    let r = rng_from_seed(&seed);
    proof {
        assert(seed@ =~= fixed_seed());
    }
    r
}

/// The first `count` samples of the fixed-seed sequence, in draw order.
pub fn sample_sequence(count: usize) -> (v: Vec<u32>)
    ensures
        v@.len() == count,
        forall|i: int| 0 <= i < count ==> v@[i] == sample_at(i),
{
    let mut rng = fixed_seeded_rng();
    let mut v: Vec<u32> = Vec::new();
    let mut i: usize = 0;
    while i < count
        invariant
            i <= count,
            v@.len() == i,
            rng_seed(rng) == fixed_seed(),
            rng_pos(rng) == i,
            forall|j: int| 0 <= j < i ==> v@[j] == sample_at(j),
        decreases count - i,
    {
        let x = draw_sample(&mut rng);
        v.push(x);
        i = i + 1;
    }
    v
}

} // verus!
