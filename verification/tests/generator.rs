use lazyseq::generator::Generator;
use lazyseq::generator::Overflow;

#[test]
fn fibonacci_scenario() {
    let mut g = Generator::new(0, 1);
    let mut produced = Vec::new();
    for _ in 0..5 {
        produced.push(g.produce_next().unwrap());
    }
    assert_eq!(produced, vec![1, 1, 2, 3, 5]);
}

#[test]
fn fibonacci_prefix() {
    let mut g = Generator::fibonacci();
    let expected = [1u64, 1, 2, 3, 5, 8, 13, 21, 34, 55];
    for e in expected {
        assert_eq!(g.produce_next(), Ok(e));
    }
}

#[test]
fn determinism() {
    let mut a = Generator::new(4, 9);
    let mut b = Generator::new(4, 9);
    for _ in 0..40 {
        assert_eq!(a.produce_next(), b.produce_next());
    }
}

#[test]
fn monotonicity() {
    let mut g = Generator::new(7, 2);
    let mut previous = g.produce_next().unwrap();
    for _ in 0..50 {
        let value = g.produce_next().unwrap();
        assert!(value >= previous);
        previous = value;
    }
}

#[test]
fn isolation() {
    let mut g1 = Generator::new(0, 1);
    let mut g2 = Generator::new(100, 200);

    for _ in 0..5 {
        g1.produce_next().unwrap();
    }

    // g2 is untouched by g1's five advances.
    assert_eq!(g2.current(), 100);
    assert_eq!(g2.peek_next(), 200);
    assert_eq!(g2.produce_next(), Ok(200));

    // A fresh generator with g2's seed produces the same value.
    let mut g3 = Generator::new(100, 200);
    assert_eq!(g3.produce_next(), Ok(200));
}

#[test]
fn overflow_boundary() {
    let mut g = Generator::new(u64::MAX - 1, 1);
    assert_eq!(g.produce_next(), Ok(1));
    assert_eq!(g.current(), 1);
    assert_eq!(g.peek_next(), u64::MAX);

    // 1 + u64::MAX exceeds the width: the call fails and nothing wraps.
    assert_eq!(g.produce_next(), Err(Overflow));

    // The failed call left the state untouched.
    assert_eq!(g.current(), 1);
    assert_eq!(g.peek_next(), u64::MAX);
}

#[test]
fn overflow_immediate() {
    let mut g = Generator::new(u64::MAX, 1);
    assert_eq!(g.produce_next(), Err(Overflow));
    assert_eq!(g.current(), u64::MAX);
    assert_eq!(g.peek_next(), 1);
}

#[test]
fn zero_seed_stays_put() {
    let mut g = Generator::new(0, 0);
    for _ in 0..10 {
        assert_eq!(g.produce_next(), Ok(0));
    }
}
