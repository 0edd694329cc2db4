use xp_leveling::cooldown::{cooldown_remaining, cooldown_wait, is_cooldowned, on_cooldown};

#[test]
fn cooldown_is_active_right_after_the_action() {
    for cooldown in [1u64, 2, 60_000, u64::MAX] {
        for now in [1u64, 2, 1_700_000_000_000, u64::MAX] {
            assert!(is_cooldowned(now, now, cooldown));
        }
    }
}

#[test]
fn timestamp_zero_is_no_action() {
    for cooldown in [0u64, 1, 10, 60_000, u64::MAX] {
        for now in [0u64, 1, 5, 59_999, 1_700_000_000_000, u64::MAX] {
            assert!(!is_cooldowned(now, 0, cooldown));
            assert_eq!(cooldown_remaining(now, 0, cooldown), 0);
        }
    }
    assert!(!is_cooldowned(5, 0, 10));
}

#[test]
fn cooldown_is_over_one_millisecond_past_its_length() {
    for cooldown in [1u64, 2, 60_000, 86_400_000] {
        let now: u64 = 1_700_000_000_000;
        assert!(!is_cooldowned(now, now - cooldown - 1, cooldown));
    }
}

#[test]
fn cooldown_ends_exactly_at_its_length() {
    assert!(is_cooldowned(1_059_999, 1_000_000, 60_000));
    assert!(!is_cooldowned(1_060_000, 1_000_000, 60_000));
}

#[test]
fn zero_cooldown_is_never_active() {
    assert!(!is_cooldowned(5, 5, 0));
}

#[test]
fn member_who_never_acted_is_not_on_cooldown() {
    assert!(!is_cooldowned(1_700_000_000_000, 0, 86_400_000));
    assert!(!on_cooldown(1_700_000_000_000, None, 86_400));
    // the clock has not even reached the cooldown's length
    assert!(!on_cooldown(5_000, None, 60));
    assert!(!on_cooldown(5_000, Some(0), 60));
    assert_eq!(cooldown_wait(5_000, None, 60), 0);
    assert_eq!(cooldown_wait(5_000, Some(0), 60), 0);
    assert!(!on_cooldown(0, None, i64::MAX));
    assert!(!on_cooldown(u64::MAX, Some(0), i64::MAX));
}

#[test]
fn clock_that_ran_backwards_keeps_the_cooldown() {
    assert!(is_cooldowned(1_000, 2_000, 1));
    assert!(is_cooldowned(0, u64::MAX, 1));
}

#[test]
fn remaining_time_of_a_cooldown() {
    assert_eq!(cooldown_remaining(1_010_000, 1_000_000, 60_000), 50_000);
    assert_eq!(cooldown_remaining(1_060_000, 1_000_000, 60_000), 0);
    assert_eq!(cooldown_remaining(0, u64::MAX, u64::MAX), 2 * (u64::MAX as u128));
    assert_eq!(cooldown_wait(1_010_000, Some(1_000_000), 60), 50_000);
    assert_eq!(cooldown_wait(1_010_000, None, 60), 0);
}

#[test]
fn cooldown_in_seconds_against_timestamps_in_milliseconds() {
    assert!(on_cooldown(1_059_999, Some(1_000_000), 60));
    assert!(!on_cooldown(1_060_000, Some(1_000_000), 60));
    assert!(!on_cooldown(1_000_000, Some(1_000_000), 0));
    assert!(!on_cooldown(1_000_000, Some(1_000_000), -5));
    assert!(on_cooldown(u64::MAX, Some(1), i64::MAX));
    assert!(on_cooldown(5_000, Some(1), 60));
}
