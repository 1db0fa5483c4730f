use simple_cache::expiry::{elapsed_since, is_expired, is_fresh, survives};
use simple_cache::Entry;

#[test]
fn age_is_the_difference_of_the_readings() {
    assert_eq!(elapsed_since(10, 25), 15);
    assert_eq!(elapsed_since(0, u128::MAX), u128::MAX);
    assert_eq!(elapsed_since(7, 7), 0);
}

#[test]
fn age_is_zero_for_a_reading_before_the_insertion() {
    assert_eq!(elapsed_since(25, 10), 0);
    assert_eq!(elapsed_since(u128::MAX, 0), 0);
}

#[test]
fn fresh_up_to_and_including_the_time_to_live() {
    assert!(is_fresh(100, 100, 5));
    assert!(is_fresh(100, 104, 5));
    assert!(is_fresh(100, 105, 5));
    assert!(!is_fresh(100, 106, 5));
    assert!(is_fresh(100, 3, 0));
}

#[test]
fn expired_from_the_time_to_live_on() {
    assert!(!is_expired(100, 100, 5));
    assert!(!is_expired(100, 104, 5));
    assert!(is_expired(100, 105, 5));
    assert!(is_expired(100, 106, 5));
    assert!(is_expired(100, 100, 0));
}

#[test]
fn entry_survives_a_sweep_until_it_reaches_the_time_to_live() {
    let e = Entry { value: 'x', inserted_at: 100 };
    assert!(survives(&e, 104, 5));
    assert!(!survives(&e, 105, 5));
    assert!(survives(&e, 50, 5));
    assert!(!survives(&e, 50, 0));
}
