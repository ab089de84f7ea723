use cachebench::rng::Rng;

/// The fixed shift recipe: one state-mixing step of the generator.
fn mix(x: u64) -> u64 {
    let mut x = x;
    x ^= x << 13;
    x ^= x >> 7;
    x ^= x << 17;
    x
}

#[test]
fn seed_one_first_values() {
    let mut rng = Rng::from_seed(1);
    // The value returned is the pre-mutation state.
    assert_eq!(rng.next(), 1);
    // The state after one mutation step follows the fixed shift recipe.
    assert_eq!(mix(1), 1082269761);
    assert_eq!(rng.next(), 1082269761);
    assert_eq!(rng.next(), mix(mix(1)));
    assert_eq!(rng.next(), mix(mix(mix(1))));
}

#[test]
fn equal_seeds_equal_sequences() {
    let mut a = Rng::from_seed(0xdeadbeef);
    let mut b = Rng::from_seed(0xdeadbeef);
    for _ in 0..100 {
        assert_eq!(a.next(), b.next());
    }
}

#[test]
fn zero_seed_stays_zero() {
    let mut rng = Rng::from_seed(0);
    for _ in 0..50 {
        assert_eq!(rng.next(), 0);
    }
}

#[test]
fn sequence_matches_recipe() {
    let mut rng = Rng::from_seed(42);
    let mut expected: u64 = 42;
    for _ in 0..20 {
        assert_eq!(rng.next(), expected);
        expected = mix(expected);
    }
}
