use screentime_monitor::event::{ScreenTimeEvent, Timestamp};
use screentime_monitor::state::{AppState, MAX_HISTORY};

fn event(host: &str, user: &str, left_day: i64) -> ScreenTimeEvent {
    ScreenTimeEvent {
        host: host.to_string(),
        user: user.to_string(),
        timestamp: Timestamp { seconds: left_day, nanoseconds: 0 },
        left_day,
        spent_balance: 0,
        spent_month: 0,
        spent_week: 0,
        spent_day: 0,
    }
}

fn history(state: &AppState, key: &str) -> Option<Vec<i64>> {
    state
        .get_screentime_data()
        .into_iter()
        .find(|(name, _)| name == key)
        .map(|(_, events)| events.iter().map(|e| e.left_day).collect())
}

#[test]
fn new_state_is_empty() {
    let state = AppState::new();
    assert!(state.get_screentime_data().is_empty());
    assert!(state.latest_events().is_empty());
}

#[test]
fn events_are_kept_per_key_in_order() {
    let mut state = AppState::new();
    assert_eq!(state.record(event("h", "a", 1)), "h:a");
    assert_eq!(state.record(event("h", "b", 2)), "h:b");
    assert_eq!(state.record(event("h", "a", 3)), "h:a");
    assert_eq!(history(&state, "h:a"), Some(vec![1, 3]));
    assert_eq!(history(&state, "h:b"), Some(vec![2]));
    assert_eq!(history(&state, "h:c"), None);
    assert_eq!(state.get_screentime_data().len(), 2);
}

#[test]
fn only_the_latest_thousand_are_kept() {
    assert_eq!(MAX_HISTORY, 1000);
    let mut state = AppState::new();
    state.record(event("h", "b", -1));
    for i in 0..1000 {
        state.record(event("h", "a", i));
    }
    assert_eq!(history(&state, "h:a"), Some((0..1000).collect()));
    for i in 1000..1003 {
        state.record(event("h", "a", i));
    }
    assert_eq!(history(&state, "h:a"), Some((3..1003).collect()));
    assert_eq!(history(&state, "h:b"), Some(vec![-1]));
}

#[test]
fn latest_event_of_each_key() {
    let mut state = AppState::new();
    for i in 0..5 {
        state.record(event("h", "a", i));
        state.record(event("g", "a", 10 + i));
    }
    let mut latest: Vec<(String, i64)> =
        state.latest_events().iter().map(|e| (e.key(), e.left_day)).collect();
    latest.sort();
    assert_eq!(latest, vec![("g:a".to_string(), 14), ("h:a".to_string(), 4)]);
}
