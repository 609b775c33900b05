use screen_stream::pacer::{frame_period_nanos, pacing_sleep_nanos, DEFAULT_FRAME_RATE};

#[test]
fn period_at_default_rate() {
    assert_eq!(frame_period_nanos(DEFAULT_FRAME_RATE), 41_666_667);
}

#[test]
fn period_exact_division() {
    assert_eq!(frame_period_nanos(1), 1_000_000_000);
    assert_eq!(frame_period_nanos(25), 40_000_000);
}

#[test]
fn period_rounds_up() {
    assert_eq!(frame_period_nanos(3), 333_333_334);
    assert!(frame_period_nanos(7) * 7 >= 1_000_000_000);
    assert_eq!(frame_period_nanos(u64::MAX), 1);
}

#[test]
fn sleep_fills_the_period() {
    assert_eq!(pacing_sleep_nanos(40_000_000, 15_000_000), 25_000_000);
    assert_eq!(pacing_sleep_nanos(40_000_000, 0), 40_000_000);
}

#[test]
fn sleep_is_never_negative() {
    assert_eq!(pacing_sleep_nanos(40_000_000, 40_000_000), 0);
    assert_eq!(pacing_sleep_nanos(40_000_000, 90_000_000), 0);
}

#[test]
fn spacing_is_at_least_one_period() {
    let p = frame_period_nanos(24);
    for elapsed in [0u64, 1, 20_000_000, p - 1, p, p + 5] {
        let total = elapsed + pacing_sleep_nanos(p, elapsed);
        assert!(total * 24 >= 1_000_000_000);
    }
}
