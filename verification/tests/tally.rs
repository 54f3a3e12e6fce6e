use typix::reader::Tick;
use typix::tally::{Tally, THRESHOLD};

fn expected_flushes(baseline: i64, ticks: i64) -> Vec<i64> {
    let mut expected = Vec::new();
    let mut count = baseline;
    for _ in 0..ticks {
        count += 1;
        if count % 50 == 0 {
            expected.push(count);
        }
    }
    expected
}

#[test]
fn threshold_is_fifty() {
    assert_eq!(THRESHOLD, 50);
}

#[test]
fn new_tally_holds_the_baseline() {
    let tally = Tally::new(48);
    assert_eq!(tally.count(), 48);
    assert_eq!(tally.baseline(), 48);
    let tally = Tally::new(0);
    assert_eq!(tally.count(), 0);
    assert_eq!(tally.baseline(), 0);
}

#[test]
fn tick_adds_one() {
    let mut tally = Tally::new(7);
    assert_eq!(tally.tick(), None);
    assert_eq!(tally.count(), 8);
    assert_eq!(tally.baseline(), 7);
}

#[test]
fn tick_flushes_at_multiples_of_the_threshold() {
    let mut tally = Tally::new(49);
    assert_eq!(tally.tick(), Some(50));
    assert_eq!(tally.tick(), None);
    let mut tally = Tally::new(99);
    assert_eq!(tally.tick(), Some(100));
}

#[test]
fn a_baseline_on_a_multiple_does_not_flush_by_itself() {
    let mut tally = Tally::new(100);
    for _ in 0..49 {
        assert_eq!(tally.tick(), None);
    }
    assert_eq!(tally.tick(), Some(150));
}

#[test]
fn first_flush_from_zero_is_fifty() {
    let mut tally = Tally::new(0);
    for _ in 0..49 {
        assert_eq!(tally.tick(), None);
    }
    assert_eq!(tally.tick(), Some(50));
    assert_eq!(tally.count(), 50);
}

#[test]
fn baseline_48_flushes_at_50_and_100() {
    let mut tally = Tally::new(48);
    assert_eq!(tally.tick(), None);
    assert_eq!(tally.tick(), Some(50));
    assert_eq!(tally.count(), 50);
    for _ in 0..49 {
        assert_eq!(tally.tick(), None);
    }
    assert_eq!(tally.count(), 99);
    assert_eq!(tally.tick(), Some(100));
    assert_eq!(tally.count(), 100);
}

#[test]
fn feed_counts_every_tick() {
    let mut tally = Tally::new(48);
    let flushed = tally.feed(&vec![Tick {}; 2]);
    assert_eq!(flushed, vec![50]);
    assert_eq!(tally.count(), 50);
    let flushed = tally.feed(&vec![Tick {}; 49]);
    assert_eq!(flushed, Vec::<i64>::new());
    assert_eq!(tally.count(), 99);
    let flushed = tally.feed(&vec![Tick {}; 1]);
    assert_eq!(flushed, vec![100]);
    assert_eq!(tally.baseline(), 48);
}

#[test]
fn feed_of_nothing_changes_nothing() {
    let mut tally = Tally::new(50);
    assert_eq!(tally.feed(&Vec::new()), Vec::<i64>::new());
    assert_eq!(tally.count(), 50);
}

#[test]
fn flush_count_follows_the_floor_formula() {
    for baseline in [0i64, 1, 48, 49, 50, 51, 99, 100, 149, 1000, 12345] {
        for ticks in [0usize, 1, 2, 49, 50, 51, 99, 100, 101, 250, 1234] {
            let mut tally = Tally::new(baseline);
            let flushed = tally.feed(&vec![Tick {}; ticks]);
            let last = baseline + ticks as i64;
            assert_eq!(flushed.len() as i64, last / 50 - baseline / 50);
            assert_eq!(flushed, expected_flushes(baseline, ticks as i64));
            assert_eq!(tally.count(), last);
        }
    }
}

#[test]
fn flushes_carry_rising_multiples() {
    let mut tally = Tally::new(100);
    let flushed = tally.feed(&vec![Tick {}; 175]);
    assert_eq!(flushed, vec![150, 200, 250]);
    let mut tally = Tally::new(48);
    let flushed = tally.feed(&vec![Tick {}; 175]);
    assert_eq!(flushed, vec![50, 100, 150, 200]);
}

#[test]
fn negative_baseline_counts_up_through_zero() {
    let mut tally = Tally::new(-51);
    let flushed = tally.feed(&vec![Tick {}; 101]);
    assert_eq!(flushed, vec![-50, 0, 50]);
    assert_eq!(tally.count(), 50);
    assert_eq!(tally.baseline(), -51);
    let mut tally = Tally::new(-1);
    assert_eq!(tally.tick(), Some(0));
}

#[test]
fn count_reaches_the_largest_integer() {
    let mut tally = Tally::new(i64::MAX - 8);
    let flushed = tally.feed(&vec![Tick {}; 8]);
    assert_eq!(flushed, vec![i64::MAX - 7]);
    assert_eq!(tally.count(), i64::MAX);
}

#[test]
fn feed_agrees_with_ticking() {
    let mut fed = Tally::new(37);
    let mut ticked = Tally::new(37);
    let flushed = fed.feed(&vec![Tick {}; 300]);
    let mut signals = Vec::new();
    for _ in 0..300 {
        if let Some(quantity) = ticked.tick() {
            signals.push(quantity);
        }
    }
    assert_eq!(flushed, signals);
    assert_eq!(fed.count(), ticked.count());
}
