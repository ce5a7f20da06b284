use particles::generator::{INCREMENT, MULTIPLIER, SEED};
use particles::PseudoRandomGenerator;

#[test]
fn generator_constants() {
    assert_eq!(SEED, 12345);
    assert_eq!(MULTIPLIER, 1103515245);
    assert_eq!(INCREMENT, 12345);
}

#[test]
fn first_draws_from_the_fixed_seed() {
    let mut g = PseudoRandomGenerator::new();
    assert_eq!(g.next(), 3554416254);
    assert_eq!(g.next(), 2802067423);
    assert_eq!(g.next(), 3596950572);
    assert_eq!(g.next(), 229283573);
    assert_eq!(g.next(), 3256818826);
    assert_eq!(g.next(), 1051550459);
    assert_eq!(g.next(), 3441282840);
}

#[test]
fn draws_from_a_chosen_seed() {
    let mut g = PseudoRandomGenerator::with_seed(1);
    assert_eq!(g.next(), 1103527590);
    assert_eq!(g.next(), 2524885223);
    assert_eq!(g.next(), 662824084);
}

#[test]
fn draws_wrap_around_at_the_largest_state() {
    let mut g = PseudoRandomGenerator::with_seed(u32::MAX);
    assert_eq!(g.next(), 3191464396);
    assert_eq!(g.next(), 288979989);
    assert_eq!(g.next(), 646343466);
}

#[test]
fn draw_from_state_zero_is_the_increment() {
    let mut g = PseudoRandomGenerator::with_seed(0);
    assert_eq!(g.next(), 12345);
}

#[test]
fn with_the_fixed_seed_is_a_fresh_generator() {
    assert_eq!(PseudoRandomGenerator::with_seed(SEED), PseudoRandomGenerator::new());
    assert_ne!(PseudoRandomGenerator::with_seed(1), PseudoRandomGenerator::new());
}

#[test]
fn each_draw_follows_from_the_one_before() {
    let mut g = PseudoRandomGenerator::new();
    let mut previous: u32 = SEED;
    for _ in 0..1000 {
        let drawn = g.next();
        let expected = ((previous as u64 * 1103515245 + 12345) % 4294967296) as u32;
        assert_eq!(drawn, expected);
        previous = drawn;
    }
}

#[test]
fn equal_generators_draw_equal_sequences() {
    let mut a = PseudoRandomGenerator::new();
    let mut b = PseudoRandomGenerator::new();
    for _ in 0..100 {
        assert_eq!(a.next(), b.next());
    }
}

#[test]
fn a_copy_of_a_generator_draws_on_its_own() {
    let mut a = PseudoRandomGenerator::new();
    a.next();
    let mut b = a;
    assert_eq!(a.next(), 2802067423);
    assert_eq!(b.next(), 2802067423);
    assert_eq!(a.next(), 3596950572);
}

#[test]
fn a_draw_is_a_fraction_below_one() {
    let mut g = PseudoRandomGenerator::new();
    let first = g.next() as f64 / 4294967296.0;
    assert!((first - 0.8275770242325962).abs() < 1e-15);
    for _ in 0..1000 {
        let fraction = g.next() as f64 / 4294967296.0;
        assert!(0.0 <= fraction && fraction < 1.0);
    }
}
