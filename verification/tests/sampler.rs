use mandelbrot_area::sampler::{calc_points, tally};
use std::cell::Cell;

#[test]
fn counts_every_hit() {
    assert_eq!(calc_points(1_000, 50, |_| true), 1_000);
}

#[test]
fn counts_no_miss() {
    assert_eq!(calc_points(1_000, 50, |_| false), 0);
}

#[test]
fn empty_batch_asks_nothing() {
    let calls = Cell::new(0u64);
    let n = calc_points(0, 50, |_| {
        calls.set(calls.get() + 1);
        true
    });
    assert_eq!(n, 0);
    assert_eq!(calls.get(), 0);
}

#[test]
fn asks_once_per_point_with_the_iteration_limit() {
    let calls = Cell::new(0u64);
    let n = calc_points(37, 1_000, |limit| {
        assert_eq!(limit, 1_000);
        calls.set(calls.get() + 1);
        calls.get() % 3 == 0
    });
    assert_eq!(calls.get(), 37);
    assert_eq!(n, 12);
}

#[test]
fn result_stays_within_the_batch() {
    let seed = Cell::new(12_345u64);
    for size in [1u64, 2, 10, 257] {
        let n = calc_points(size, 8, |_| {
            seed.set(seed.get().wrapping_mul(6_364_136_223_846_793_005).wrapping_add(1));
            seed.get() >> 63 == 1
        });
        assert!(n <= size);
    }
}

#[test]
fn tally_adds_hits_only() {
    assert_eq!(tally(0, true), 1);
    assert_eq!(tally(0, false), 0);
    assert_eq!(tally(41, true), 42);
    assert_eq!(tally(41, false), 41);
    assert_eq!(tally(u64::MAX - 1, true), u64::MAX);
}
