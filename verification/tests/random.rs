use terminal_snake::random::random::Random;

#[test]
fn next_should_produce_next_number() {
    let mut r = Random::new(42);
    let r1 = r.next();
    let r2 = r.next();
    let r3 = r.next();

    assert_eq!(r1, 1083814273);
    assert_eq!(r2, 378494188);
    assert_eq!(r3, 2479403867);
}

//
// Look, my RNG is so good, I can unit test it.
//
#[test]
fn get_should_return_number_in_range() {
    let mut r = Random::new(764543543);
    assert_eq!(r.get(1, 100), 99);
    assert_eq!(r.get(1, 100), 90);
    assert_eq!(r.get(1, 100), 45);
    assert_eq!(r.get(1, 100), 64);
    assert_eq!(r.get(1, 100), 27);
    assert_eq!(r.get(1, 100), 90);
    assert_eq!(r.get(1, 100), 1);
    assert_eq!(r.get(1, 100), 20);
    assert_eq!(r.get(1, 100), 47);
}

//
// Make sure when using a time seed, the result from get() is still
// within the expected range.
//
#[test]
fn get_with_time_seed_should_return_number_in_range() {
    let mut r = Random::time_seed();

    for _ in 1..10000 {
        let n = r.get(1, 100);

        assert!(n >= 1 && n <= 100);
    }
}

#[test]
fn get_degenerate_range_returns_min() {
    let mut r = Random::new(7);
    assert_eq!(r.get(42, 42), 42);
}
