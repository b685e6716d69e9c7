use relay_supervisor::backoff::BackoffPolicy;

#[test]
fn fixed_delay_is_constant() {
    let p = BackoffPolicy::Fixed { delay_secs: 5 };
    for attempt in 1..=10u64 {
        assert_eq!(p.delay_for_attempt(attempt), 5);
    }
}

#[test]
fn exponential_delays_grow_and_cap() {
    let p = BackoffPolicy::Exponential { base_secs: 5, multiplier: 2, cap_secs: 30 };
    let delays: Vec<u64> = (1..=6u64).map(|k| p.delay_for_attempt(k)).collect();
    assert_eq!(delays, vec![5, 10, 20, 30, 30, 30]);
}

#[test]
fn exponential_base_above_cap_starts_at_cap() {
    let p = BackoffPolicy::Exponential { base_secs: 40, multiplier: 2, cap_secs: 30 };
    assert_eq!(p.delay_for_attempt(1), 30);
    assert_eq!(p.delay_for_attempt(2), 30);
}

#[test]
fn exponential_multiplier_one_is_constant() {
    let p = BackoffPolicy::Exponential { base_secs: 5, multiplier: 1, cap_secs: 30 };
    for attempt in 1..=8u64 {
        assert_eq!(p.delay_for_attempt(attempt), 5);
    }
}

#[test]
fn exponential_high_attempt_saturates_at_cap() {
    let p = BackoffPolicy::Exponential { base_secs: 1, multiplier: 3, cap_secs: 1_000_000 };
    assert_eq!(p.delay_for_attempt(60), 1_000_000);
}

#[test]
fn exponential_zero_base_stays_zero() {
    let p = BackoffPolicy::Exponential { base_secs: 0, multiplier: 2, cap_secs: 30 };
    assert_eq!(p.delay_for_attempt(1), 0);
    assert_eq!(p.delay_for_attempt(5), 0);
}

#[test]
fn delay_after_failures_matches_attempt_numbering() {
    let p = BackoffPolicy::Exponential { base_secs: 5, multiplier: 2, cap_secs: 30 };
    assert_eq!(p.delay_after_failures(0), p.delay_for_attempt(1));
    assert_eq!(p.delay_after_failures(3), p.delay_for_attempt(4));
}
