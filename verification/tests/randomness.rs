//! Tests of the seeded random source and the uniform scaling helper.

use tui_rain::rng::SeededRng;
use tui_rain::uniform;

#[test]
fn seeded_rng_is_reproducible() {
    let mut a = SeededRng::build_rng(42);
    let mut b = SeededRng::build_rng(42);
    let first_a = a.next();
    let first_b = b.next();
    let second_a = a.next();
    let second_b = b.next();
    assert_eq!(first_a, first_b);
    assert_eq!(second_a, second_b);
    // The stream advances: a generator that handed back a constant would
    // fail here.
    assert_ne!(first_a, second_a);
}

#[test]
fn seeded_rng_depends_on_the_seed() {
    let mut a = SeededRng::build_rng(1);
    let mut b = SeededRng::build_rng(2);
    assert_ne!(a.next(), b.next());
}

#[test]
fn rain_exposes_its_rng() {
    let mut a = tui_rain::Rain::new_matrix(0).with_seed(7).build_rng();
    let mut b = SeededRng::build_rng(7);
    assert_eq!(a.next(), b.next());
}

#[test]
fn uniform_range_is_half_open() {
    assert_eq!(uniform(0, 3, 10), 3);
    // Even the largest draw stays below the upper bound.
    assert_eq!(uniform(u64::MAX, 3, 10), 9);
    assert_eq!(uniform(u64::MAX, 0, 1), 0);
    // An empty range yields its lower bound.
    assert_eq!(uniform(0, 0, 0), 0);
    assert_eq!(uniform(u64::MAX, 5, 5), 5);
}

#[test]
fn uniform_scales_linearly() {
    // floor((2^63 - 1) * 100 / (2^64 - 1)) = 49: just under the midpoint.
    assert_eq!(uniform(u64::MAX / 2, 0, 100), 49);
    assert_eq!(uniform(u64::MAX / 4, 0, 100), 24);
}
