use pubsub_latency::rate::{adjust, initial_delay, rps, NANOS_PER_SEC, STEP_DIVISOR};

#[test]
fn rps_is_count_over_seconds() {
    assert_eq!(rps(1000, 1_000_000_000), 1000);
    assert_eq!(rps(1000, 2_000_000_000), 500);
    assert_eq!(rps(5000, 5_000_000_000), 1000);
    assert_eq!(rps(1, 1_000_000_000), 1);
    assert_eq!(rps(0, 1_000_000_000), 0);
}

#[test]
fn rps_truncates() {
    assert_eq!(rps(1000, 1_000_000_001), 999);
    assert_eq!(rps(999, 1_000_000_000), 999);
    assert_eq!(rps(1, 1_000_000_001), 0);
    assert_eq!(rps(3, 2_000_000_000), 1);
    assert_eq!(rps(10, 3_000_000_000), 3);
}

#[test]
fn rps_saturates_at_32_bits() {
    assert_eq!(rps(u64::MAX, 1), u32::MAX);
    assert_eq!(rps(5, 1), u32::MAX);
    assert_eq!(rps(4, 1), 4_000_000_000);
    assert_eq!(rps(u32::MAX as u64, 1_000_000_000), u32::MAX);
    assert_eq!(rps(u32::MAX as u64 + 1, 1_000_000_000), u32::MAX);
}

#[test]
fn rps_over_no_time() {
    assert_eq!(rps(0, 0), 0);
    assert_eq!(rps(1, 0), u32::MAX);
    assert_eq!(rps(u64::MAX, 0), u32::MAX);
}

#[test]
fn rps_over_very_long_times() {
    assert_eq!(rps(u64::MAX, u128::MAX), 0);
    assert_eq!(rps(u64::MAX, u64::MAX as u128 * 1_000_000_000), 1);
}

#[test]
fn rate_constants() {
    assert_eq!(NANOS_PER_SEC, 1_000_000_000);
    assert_eq!(STEP_DIVISOR, 20);
}

#[test]
fn initial_delay_is_the_period_of_the_target() {
    assert_eq!(initial_delay(1), 1_000_000_000);
    assert_eq!(initial_delay(1000), 1_000_000);
    assert_eq!(initial_delay(3), 333_333_333);
    assert_eq!(initial_delay(u32::MAX), 0);
}

#[test]
fn adjust_shortens_the_delay_when_behind() {
    // 999 messages in one second, target 1000
    assert_eq!(adjust(1_000_000, 1_000_000_000, 999, 1000), 950_000);
    assert_eq!(adjust(100, 1_000_000_000, 1, 1000), 95);
    assert_eq!(adjust(20, 1_000_000_000, 1, 1000), 19);
    assert_eq!(adjust(0, 1_000_000_000, 1, 1000), 0);
}

#[test]
fn adjust_moves_every_delay_that_is_not_zero() {
    // under twenty nanoseconds a step is one nanosecond
    let mut delay = 19u64;
    for expected in (0..19u64).rev() {
        delay = adjust(delay, 1_000_000_000, 1, 1000);
        assert_eq!(delay, expected);
    }
    assert_eq!(adjust(delay, 1_000_000_000, 1, 1000), 0);
    let mut delay = 1u64;
    for expected in 2..=20u64 {
        delay = adjust(delay, 1_000_000_000, 5000, 1000);
        assert_eq!(delay, expected);
    }
    assert_eq!(adjust(delay, 1_000_000_000, 5000, 1000), 21);
}

#[test]
fn adjust_compares_the_rates_without_rounding() {
    // 2001 messages in two seconds are 1000.5 per second
    assert_eq!(adjust(20_000_000, 2_000_000_000, 2001, 1000), 21_000_000);
    // 1999 messages in two seconds are 999.5 per second
    assert_eq!(adjust(20_000_000, 2_000_000_000, 1999, 1000), 19_000_000);
    assert_eq!(adjust(20_000_000, 2_000_000_000, 2000, 1000), 20_000_000);
    assert_eq!(adjust(1_000_000, 10_000_000_000, 10_009, 1000), 1_050_000);
    assert_eq!(adjust(1_000_000, 1_000_000_001, 1000, 1000), 950_000);
    // rates beyond 32 bits are told apart too
    assert_eq!(adjust(100, 1, 5, u32::MAX), 105);
    assert_eq!(adjust(100, 1, 4, u32::MAX), 95);
}

#[test]
fn adjust_lengthens_the_delay_when_ahead() {
    assert_eq!(adjust(1_000_000, 1_000_000_000, 1001, 1000), 1_050_000);
    assert_eq!(adjust(100, 1_000, 1, 1000), 105);
    assert_eq!(adjust(0, 1_000, 1, 1000), 0);
}

#[test]
fn adjust_keeps_the_delay_on_target() {
    assert_eq!(adjust(1_000_000, 1_000_000_000, 1000, 1000), 1_000_000);
    assert_eq!(adjust(1_000_000, 2_000_000_000, 2000, 1000), 1_000_000);
    assert_eq!(adjust(1_000_000, 3, 3, 1_000_000_000), 1_000_000);
}

#[test]
fn adjust_fixed_point_under_repetition() {
    for d0 in [1u64, 19, 20, 1_000_000, 333_333_333, u64::MAX] {
        for r in [1u32, 7, 1000, 1_000_000] {
            let mut d = d0;
            for k in 1..200u64 {
                d = adjust(d, k * 1_000_000_000, k * r as u64, r);
                assert_eq!(d, d0);
            }
        }
    }
}

#[test]
fn adjust_skips_while_no_time_has_passed() {
    assert_eq!(adjust(1_000_000, 0, 1, 1000), 1_000_000);
    assert_eq!(adjust(1_000_000, 0, 0, 1000), 1_000_000);
    assert_eq!(adjust(7, 0, u64::MAX, 1), 7);
}

#[test]
fn adjust_saturates_at_the_top() {
    assert_eq!(adjust(u64::MAX, 1, 1, 1), u64::MAX);
    assert_eq!(adjust(u64::MAX - 5, 1, 1, 1), u64::MAX);
    assert_eq!(adjust(u64::MAX, 1_000_000_000, 0, 1), u64::MAX - u64::MAX / 20);
}

#[test]
fn adjust_converges_on_a_steady_publisher() {
    // A publisher whose only cost is the pause settles near the period of the target.
    let target: u32 = 1000;
    let mut delay = initial_delay(target) * 3;
    let mut now: u64 = 0;
    for count in 1..=20_000u64 {
        now += delay + 1_000;
        delay = adjust(delay, now, count, target);
    }
    let achieved = rps(20_000, now as u128);
    assert!(achieved >= 900 && achieved <= 1100, "achieved {}", achieved);
}
