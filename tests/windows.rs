use rolling_window::policy::Kind;
use rolling_window::store::{WindowError, WindowStore};
use rolling_window::window::SeverityRecord;

fn rec(period: u64, value: u64) -> SeverityRecord {
    SeverityRecord { period, value }
}

#[test]
fn window_lengths_per_kind() {
    assert_eq!(Kind::One.window_length(), 4);
    assert_eq!(Kind::Two.window_length(), 3);
    assert_eq!(Kind::Three.window_length(), 2);
    assert_eq!(Kind::Four.window_length(), u32::MAX);
}

#[test]
fn three_records_in_window_of_two() {
    let mut s = WindowStore::new();
    assert_eq!(s.record(11, Kind::Three, 1, 5), Ok(()));
    assert_eq!(s.record(11, Kind::Three, 2, 7), Ok(()));
    assert_eq!(s.record(11, Kind::Three, 3, 9), Ok(()));
    assert_eq!(s.total_severity(11, Kind::Three), 16);
    assert!(s.has_offense(11, Kind::Three));
    assert_eq!(s.retained(11, Kind::Three), vec![rec(2, 7), rec(3, 9)]);
    assert!(s.retained(11, Kind::Three).iter().all(|r| r.value != 5));
}

#[test]
fn maximum_window_keeps_ten_thousand_records() {
    let mut s = WindowStore::new();
    let mut expected: u128 = 0;
    for p in 1..=10_000u64 {
        let v = p * 3 + 1;
        assert_eq!(s.record(7, Kind::Four, p, v), Ok(()));
        expected += v as u128;
    }
    assert_eq!(s.retained(7, Kind::Four).len(), 10_000);
    assert_eq!(s.total_severity(7, Kind::Four), expected);
    assert_eq!(expected, 150_025_000);
}

#[test]
fn evicting_account_clears_its_windows() {
    let mut s = WindowStore::new();
    s.record(11, Kind::Three, 1, 5).unwrap();
    s.record(11, Kind::Three, 2, 7).unwrap();
    s.record(11, Kind::Three, 3, 9).unwrap();
    s.record(11, Kind::One, 3, 4).unwrap();
    s.record(12, Kind::Three, 3, 8).unwrap();
    s.evict_account(11);
    assert_eq!(s.total_severity(11, Kind::Three), 0);
    assert!(!s.has_offense(11, Kind::Three));
    assert!(!s.has_offense(11, Kind::One));
    assert_eq!(s.total_severity(12, Kind::Three), 8);
}

#[test]
fn out_of_order_record_is_refused() {
    let mut s = WindowStore::new();
    s.record(3, Kind::One, 5, 10).unwrap();
    s.record(3, Kind::One, 6, 20).unwrap();
    assert_eq!(s.record(3, Kind::One, 4, 99), Err(WindowError::OutOfOrderPeriod));
    assert_eq!(s.retained(3, Kind::One), vec![rec(5, 10), rec(6, 20)]);
    assert_eq!(s.total_severity(3, Kind::One), 30);
    // another key is not held to this key's periods
    assert_eq!(s.record(3, Kind::Two, 1, 1), Ok(()));
}

#[test]
fn equal_period_appends() {
    let mut s = WindowStore::new();
    s.record(1, Kind::Two, 4, 1).unwrap();
    assert_eq!(s.record(1, Kind::Two, 4, 2), Ok(()));
    assert_eq!(s.retained(1, Kind::Two), vec![rec(4, 1), rec(4, 2)]);
}

#[test]
fn count_never_exceeds_window_length() {
    let mut s = WindowStore::new();
    for p in 0..20u64 {
        s.record(2, Kind::One, p, 1).unwrap();
        s.record(2, Kind::Two, p, 1).unwrap();
        s.record(2, Kind::Three, p, 1).unwrap();
        assert!(s.retained(2, Kind::One).len() <= 4);
        assert!(s.retained(2, Kind::Two).len() <= 3);
        assert!(s.retained(2, Kind::Three).len() <= 2);
    }
    assert_eq!(s.retained(2, Kind::One).len(), 4);
}

#[test]
fn eviction_keeps_most_recent() {
    let mut s = WindowStore::new();
    for p in 1..=6u64 {
        s.record(5, Kind::One, p, p * 10).unwrap();
    }
    assert_eq!(
        s.retained(5, Kind::One),
        vec![rec(3, 30), rec(4, 40), rec(5, 50), rec(6, 60)]
    );
    let mut t = WindowStore::new();
    t.record(5, Kind::One, 1, 10).unwrap();
    t.record(5, Kind::One, 2, 20).unwrap();
    assert_eq!(t.retained(5, Kind::One), vec![rec(1, 10), rec(2, 20)]);
}

#[test]
fn eviction_removes_contribution_from_total() {
    let mut s = WindowStore::new();
    s.record(9, Kind::Two, 1, 100).unwrap();
    s.record(9, Kind::Two, 2, 20).unwrap();
    s.record(9, Kind::Two, 3, 3).unwrap();
    assert_eq!(s.total_severity(9, Kind::Two), 123);
    s.record(9, Kind::Two, 4, 4000).unwrap();
    assert_eq!(s.total_severity(9, Kind::Two), 4023);
}

#[test]
fn totals_do_not_overflow() {
    let mut s = WindowStore::new();
    s.record(1, Kind::One, 1, u64::MAX).unwrap();
    s.record(1, Kind::One, 2, u64::MAX).unwrap();
    assert_eq!(s.total_severity(1, Kind::One), 2 * (u64::MAX as u128));
}

#[test]
fn unknown_key_is_empty() {
    let s = WindowStore::new();
    assert_eq!(s.total_severity(42, Kind::Four), 0);
    assert!(!s.has_offense(42, Kind::Four));
    assert!(s.retained(42, Kind::Four).is_empty());
    assert!(s.is_stale(42, Kind::Four));
    assert_eq!(s.current_period(), 0);
}

#[test]
fn staleness_follows_current_period() {
    let mut s = WindowStore::new();
    s.record(1, Kind::Three, 5, 1).unwrap();
    s.advance_period(7);
    assert!(!s.is_stale(1, Kind::Three));
    s.advance_period(8);
    assert!(s.is_stale(1, Kind::Three));
    s.advance_period(3);
    assert_eq!(s.current_period(), 8);
    s.record(2, Kind::Four, u64::MAX, 1).unwrap();
    s.advance_period(u64::MAX);
    assert!(!s.is_stale(2, Kind::Four));
}

#[test]
fn restore_truncates_to_window_length() {
    let mut s = WindowStore::new();
    s.record(4, Kind::Three, 1, 1).unwrap();
    let run = vec![rec(2, 2), rec(3, 3), rec(3, 4)];
    assert_eq!(s.restore(4, Kind::Three, &run), Ok(()));
    assert_eq!(s.retained(4, Kind::Three), vec![rec(3, 3), rec(3, 4)]);
    assert_eq!(s.total_severity(4, Kind::Three), 7);
}

#[test]
fn restore_refuses_unordered_run() {
    let mut s = WindowStore::new();
    s.record(4, Kind::One, 5, 1).unwrap();
    let unordered = vec![rec(6, 2), rec(8, 3), rec(7, 4)];
    assert_eq!(s.restore(4, Kind::One, &unordered), Err(WindowError::OutOfOrderPeriod));
    let too_old = vec![rec(4, 2), rec(9, 3)];
    assert_eq!(s.restore(4, Kind::One, &too_old), Err(WindowError::OutOfOrderPeriod));
    assert_eq!(s.retained(4, Kind::One), vec![rec(5, 1)]);
    assert_eq!(s.restore(4, Kind::One, &Vec::new()), Ok(()));
    assert_eq!(s.retained(4, Kind::One), vec![rec(5, 1)]);
}
