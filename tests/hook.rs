use rolling_window::hook::{Notification, SessionHook};
use rolling_window::policy::Kind;
use rolling_window::store::{WindowError, WindowStore};

#[test]
fn repeated_session_ending_changes_nothing() {
    let mut store = WindowStore::new();
    let mut hook = SessionHook::new();
    store.record(11, Kind::Two, 1, 5).unwrap();
    assert_eq!(hook.deliver(&mut store, Notification::SessionEnding(4)), Ok(true));
    let period = store.current_period();
    let window = store.retained(11, Kind::Two);
    assert_eq!(hook.deliver(&mut store, Notification::SessionEnding(4)), Ok(false));
    assert_eq!(store.current_period(), period);
    assert_eq!(store.retained(11, Kind::Two), window);
    assert_eq!(hook.last_period(), Some(4));
    assert_eq!(period, 4);
}

#[test]
fn older_boundary_is_refused() {
    let mut store = WindowStore::new();
    let mut hook = SessionHook::new();
    assert_eq!(hook.last_period(), None);
    assert_eq!(hook.deliver(&mut store, Notification::EraEnding(6)), Ok(true));
    assert_eq!(
        hook.deliver(&mut store, Notification::SessionEnding(5)),
        Err(WindowError::StalePeriodNotification)
    );
    assert_eq!(store.current_period(), 6);
    assert_eq!(hook.last_period(), Some(6));
    assert_eq!(hook.deliver(&mut store, Notification::SessionEnding(7)), Ok(true));
    assert_eq!(store.current_period(), 7);
}

#[test]
fn first_boundary_at_zero_is_applied() {
    let mut store = WindowStore::new();
    let mut hook = SessionHook::new();
    assert_eq!(hook.deliver(&mut store, Notification::SessionEnding(0)), Ok(true));
    assert_eq!(hook.deliver(&mut store, Notification::SessionEnding(0)), Ok(false));
}

#[test]
fn removed_account_loses_its_windows() {
    let mut store = WindowStore::new();
    let mut hook = SessionHook::new();
    store.record(11, Kind::Three, 1, 5).unwrap();
    store.record(21, Kind::Three, 1, 6).unwrap();
    assert_eq!(hook.deliver(&mut store, Notification::AccountRemoved(11)), Ok(true));
    assert_eq!(hook.deliver(&mut store, Notification::AccountRemoved(11)), Ok(true));
    assert!(!store.has_offense(11, Kind::Three));
    assert_eq!(store.total_severity(21, Kind::Three), 6);
}
