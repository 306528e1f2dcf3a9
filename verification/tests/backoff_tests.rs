use iox_resolver::backoff::BackoffSchedule;

#[test]
fn first_delay_is_the_initial_delay_under_the_cap() {
    let s = BackoffSchedule { init_delay_ms: 10, max_delay_ms: 1000, multiplier: 3 };
    assert_eq!(s.first_delay(), 10);
}

#[test]
fn first_delay_is_capped_when_the_initial_delay_exceeds_the_maximum() {
    let s = BackoffSchedule { init_delay_ms: 5000, max_delay_ms: 1000, multiplier: 3 };
    assert_eq!(s.first_delay(), 1000);
}

#[test]
fn delays_grow_by_the_multiplier() {
    let s = BackoffSchedule { init_delay_ms: 10, max_delay_ms: 1000, multiplier: 3 };
    assert_eq!(s.next_delay(10), 30);
    assert_eq!(s.next_delay(30), 90);
    assert_eq!(s.next_delay(90), 270);
}

#[test]
fn delays_are_capped_at_the_maximum() {
    let s = BackoffSchedule { init_delay_ms: 10, max_delay_ms: 1000, multiplier: 3 };
    assert_eq!(s.next_delay(500), 1000);
    assert_eq!(s.next_delay(1000), 1000);
}

#[test]
fn overflowing_growth_saturates_at_the_maximum() {
    let s = BackoffSchedule { init_delay_ms: 10, max_delay_ms: 60_000, multiplier: 7 };
    assert_eq!(s.next_delay(u64::MAX / 2), 60_000);
}
