use std::sync::{Arc, Mutex};
use cooee::config::DndMode;
use cooee::daemon::state::AppState;
use cooee::notification::Notification;

#[test]
fn test_next_id_increments() {
    let mut state = AppState::new(DndMode::Off, 50);
    assert_eq!(state.next_notification_id(), 1);
    assert_eq!(state.next_notification_id(), 2);
    assert_eq!(state.next_notification_id(), 3);
}

#[test]
fn test_toggle_dnd_cycles() {
    let mut state = AppState::new(DndMode::Off, 50);
    state.toggle_dnd();
    assert_eq!(state.dnd_mode_str(), "silent");
    state.toggle_dnd();
    assert_eq!(state.dnd_mode_str(), "full");
    state.toggle_dnd();
    assert_eq!(state.dnd_mode_str(), "off");
}

#[test]
fn test_set_dnd() {
    let mut state = AppState::new(DndMode::Off, 50);
    state.set_dnd(DndMode::Full);
    assert_eq!(state.dnd_mode_str(), "full");
}

#[test]
fn test_shared_state_mutex() {
    let shared = Arc::new(Mutex::new(AppState::new(DndMode::Off, 50)));
    {
        let mut s = shared.lock().unwrap();
        s.toggle_dnd();
    }
    let s = shared.lock().unwrap();
    assert_eq!(s.dnd_mode_str(), "silent");
}

fn make_notif(id: u32, replaces_id: u32) -> Notification {
    Notification::new(
        id, format!("app{id}"), "".into(), format!("summary {id}"), "".into(),
        vec![], 1, 0, None, None, replaces_id,
    )
}

#[test]
fn test_push_history_single_entry() {
    let mut state = AppState::new(DndMode::Off, 50);
    state.push_history(make_notif(1, 0));
    assert_eq!(state.history.len(), 1);
    assert_eq!(state.history[0].id, 1);
}

#[test]
fn test_push_history_capacity_eviction() {
    let mut state = AppState::new(DndMode::Off, 2);
    state.push_history(make_notif(1, 0));
    state.push_history(make_notif(2, 0));
    state.push_history(make_notif(3, 0));
    assert_eq!(state.history.len(), 2);
    assert_eq!(state.history[0].id, 2);
    assert_eq!(state.history[1].id, 3);
}

#[test]
fn test_push_history_replaces_id_dedup_existing() {
    let mut state = AppState::new(DndMode::Off, 50);
    state.push_history(make_notif(1, 0));
    state.push_history(make_notif(2, 0));
    let replacement = make_notif(1, 1); // replaces_id=1
    state.push_history(replacement);
    assert_eq!(state.history.len(), 2);
    assert_eq!(state.history[0].id, 1);
    assert_eq!(state.history[0].summary, "summary 1");
}

#[test]
fn test_push_history_replaces_id_no_existing_entry_appends() {
    let mut state = AppState::new(DndMode::Off, 50);
    state.push_history(make_notif(1, 0));
    state.push_history(make_notif(2, 99)); // replaces_id=99 not in history
    assert_eq!(state.history.len(), 2);
    assert_eq!(state.history[1].id, 2);
}

#[test]
fn test_push_history_history_max_zero_noop() {
    let mut state = AppState::new(DndMode::Off, 0);
    state.push_history(make_notif(1, 0));
    assert!(state.history.is_empty());
}

#[test]
fn test_get_history_none_returns_all_newest_first() {
    let mut state = AppState::new(DndMode::Off, 50);
    state.push_history(make_notif(1, 0));
    state.push_history(make_notif(2, 0));
    state.push_history(make_notif(3, 0));
    let entries = state.get_history(None);
    assert_eq!(entries.len(), 3);
    assert_eq!(entries[0].id, 3);
    assert_eq!(entries[1].id, 2);
    assert_eq!(entries[2].id, 1);
}

#[test]
fn test_get_history_some_limits_count() {
    let mut state = AppState::new(DndMode::Off, 50);
    state.push_history(make_notif(1, 0));
    state.push_history(make_notif(2, 0));
    state.push_history(make_notif(3, 0));
    let entries = state.get_history(Some(2));
    assert_eq!(entries.len(), 2);
    assert_eq!(entries[0].id, 3);
    assert_eq!(entries[1].id, 2);
}

#[test]
fn test_get_history_empty() {
    let state = AppState::new(DndMode::Off, 50);
    let entries = state.get_history(None);
    assert!(entries.is_empty());
}

#[test]
fn next_id_wraps_past_max_to_one() {
    let mut state = AppState::new(DndMode::Off, 50);
    state.next_id = u32::MAX;
    assert_eq!(state.next_notification_id(), u32::MAX);
    assert_eq!(state.next_notification_id(), 1);
}

#[test]
fn toggle_three_times_returns_to_start() {
    for start in [DndMode::Off, DndMode::Silent, DndMode::Full] {
        let mut state = AppState::new(start, 5);
        state.toggle_dnd();
        assert_ne!(state.dnd_mode, start);
        state.toggle_dnd();
        state.toggle_dnd();
        assert_eq!(state.dnd_mode, start);
    }
}

#[test]
fn history_never_exceeds_capacity() {
    let mut state = AppState::new(DndMode::Off, 3);
    for i in 1..=10 {
        state.push_history(make_notif(i, 0));
        assert!(state.history.len() <= 3);
    }
    assert_eq!(state.history.iter().map(|n| n.id).collect::<Vec<_>>(), vec![8, 9, 10]);
}

#[test]
fn history_replacement_keeps_position() {
    let mut state = AppState::new(DndMode::Off, 5);
    state.push_history(make_notif(1, 0));
    state.push_history(make_notif(2, 0));
    state.push_history(make_notif(3, 0));
    let mut r = make_notif(2, 2);
    r.summary = "updated".into();
    state.push_history(r);
    assert_eq!(state.history.iter().map(|n| n.id).collect::<Vec<_>>(), vec![1, 2, 3]);
    assert_eq!(state.history[1].summary, "updated");
}

#[test]
fn get_history_count_larger_than_history() {
    let mut state = AppState::new(DndMode::Off, 5);
    state.push_history(make_notif(1, 0));
    state.push_history(make_notif(2, 0));
    let entries = state.get_history(Some(10));
    assert_eq!(entries.iter().map(|n| n.id).collect::<Vec<_>>(), vec![2, 1]);
    assert!(state.get_history(Some(0)).is_empty());
}

#[test]
fn set_history_max_trims_oldest() {
    let mut state = AppState::new(DndMode::Off, 5);
    for i in 1..=5 {
        state.push_history(make_notif(i, 0));
    }
    state.set_history_max(2);
    assert_eq!(state.history_max, 2);
    assert_eq!(state.history.iter().map(|n| n.id).collect::<Vec<_>>(), vec![4, 5]);
    state.set_history_max(10);
    assert_eq!(state.history.len(), 2);
}
