use dotmatrix::millis::{Timebase, MICROS_PER_MILLI, TICK_MICROS};

#[test]
fn starts_at_zero() {
    let t = Timebase::new();
    assert_eq!(t.read(), 0);
}

#[test]
fn one_tick_counts_one_millisecond() {
    let mut t = Timebase::new();
    t.tick();
    assert_eq!(t.read(), 1);
}

#[test]
fn reads_are_non_decreasing() {
    let mut t = Timebase::new();
    let mut last = t.read();
    for _ in 0..10_000 {
        t.tick();
        let now = t.read();
        assert!(now >= last);
        last = now;
    }
}

#[test]
fn remainder_carries_without_drift() {
    // After n ticks the count must be n * TICK_MICROS / MICROS_PER_MILLI,
    // rounded down: the fractional accumulator never lets the rounding
    // error build up.
    let mut t = Timebase::new();
    let mut total_micros: u64 = 0;
    for _ in 0..5_000 {
        t.tick();
        total_micros += TICK_MICROS as u64;
        assert_eq!(t.read() as u64, total_micros / MICROS_PER_MILLI as u64);
    }
}
