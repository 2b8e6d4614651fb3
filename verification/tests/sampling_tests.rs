use rand::{Rng, SeedableRng, StdRng};
use revonet::sampling::sample_sequence;

#[test]
fn samples_match_the_seeded_generator() {
    let seed: [usize; 1] = [0];
    let mut rng: StdRng = StdRng::from_seed(&seed[..]);
    let samples = sample_sequence(20);
    for (i, &sb) in samples.iter().enumerate() {
        let expected: f32 = rng.gen::<f32>();
        assert_eq!(sb, expected.to_bits(), "sample {}", i);
    }
}

#[test]
fn samples_are_reproducible_and_in_unit_range() {
    let a = sample_sequence(20);
    let b = sample_sequence(20);
    assert_eq!(a, b);
    for &sb in a.iter() {
        let x = f32::from_bits(sb);
        assert!((0.0..1.0).contains(&x), "sample {} out of range", x);
    }
    let first = a[0];
    assert!(a.iter().any(|&sb| sb != first), "samples must not all repeat");
}

#[test]
fn longer_sequences_extend_shorter_ones() {
    let a = sample_sequence(5);
    let b = sample_sequence(20);
    assert_eq!(&b[..5], &a[..]);
    assert_eq!(sample_sequence(0).len(), 0);
}
