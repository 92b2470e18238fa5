use origin_sdk::random::Random;

#[test]
fn it_works() {
    let mut rng = Random::new(1337);

    let random_number = rng.next();
    assert_eq!(random_number, 4404);

    let random_number = rng.next();
    assert_eq!(random_number, 25954);
}

#[test]
fn test_identical_seeds_identical_sequences() {
    let mut a = Random::new(0xDEAD_BEEF);
    let mut b = Random::new(0xDEAD_BEEF);
    for _ in 0..100 {
        assert_eq!(a.next(), b.next());
    }
}

#[test]
fn test_outputs_within_range() {
    let mut rng = Random::new(u32::MAX);
    for _ in 0..1000 {
        assert!(rng.next() <= 32767);
    }
}

#[test]
fn test_set_seed_restarts_sequence() {
    let mut rng = Random::new(1337);
    let first = rng.next();
    rng.next();
    rng.set_seed(1337);
    assert_eq!(rng.next(), first);
}
