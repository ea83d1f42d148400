use site_backend::clock::is_fresh;
use site_backend::clock::timestamp_from_secs;
use site_backend::clock::unix_seconds;
use std::time::SystemTime;
use std::time::UNIX_EPOCH;

#[test]
fn timestamp_is_the_count_where_it_fits() {
    assert_eq!(timestamp_from_secs(Some(0)), Some(0));
    assert_eq!(timestamp_from_secs(Some(1_700_000_000)), Some(1_700_000_000));
    assert_eq!(timestamp_from_secs(Some(4_294_967_295)), Some(4_294_967_295));
}

#[test]
fn timestamp_is_missing_where_the_count_does_not_fit() {
    assert_eq!(timestamp_from_secs(Some(4_294_967_296)), None);
    assert_eq!(timestamp_from_secs(Some(u64::MAX)), None);
}

#[test]
fn timestamp_is_missing_where_the_clock_gave_nothing() {
    assert_eq!(timestamp_from_secs(None), None);
}

#[test]
fn fresh_within_the_time_to_live() {
    assert!(is_fresh(100, 100, 5));
    assert!(is_fresh(100, 104, 5));
    assert!(!is_fresh(100, 105, 5));
    assert!(!is_fresh(100, 1000, 5));
    assert!(is_fresh(0, 299, 300));
    assert!(!is_fresh(0, 300, 300));
}

#[test]
fn nothing_is_fresh_with_no_time_to_live() {
    assert!(!is_fresh(100, 100, 0));
}

#[test]
fn a_fetch_in_the_future_is_not_fresh() {
    assert!(!is_fresh(100, 99, 5));
    assert!(!is_fresh(u64::MAX, 0, 5));
    assert!(!is_fresh(u64::MAX, 3, 5));
}

#[test]
fn fresh_at_the_end_of_time() {
    assert!(is_fresh(u64::MAX - 1, u64::MAX, 5));
    assert!(is_fresh(0, u64::MAX - 1, u64::MAX));
    assert!(!is_fresh(0, u64::MAX, u64::MAX));
}

#[test]
fn unix_seconds_follows_the_system_clock() {
    let before = SystemTime::now().duration_since(UNIX_EPOCH).unwrap().as_secs();
    let read = unix_seconds().unwrap();
    let after = SystemTime::now().duration_since(UNIX_EPOCH).unwrap().as_secs();
    assert!(before <= read && read <= after);
}
