use cooee::config::{ActionsConfig, DndMode, TtsConfig};
use cooee::daemon::action_picker::PickError;
use cooee::daemon::dbus::{get_capabilities, get_server_information, handle_notify, NotifyOutcome, NotifyRequest};
use cooee::daemon::socket::Command;
use cooee::daemon::state::AppState;
use cooee::daemon::{action_reply, handle_command, CommandOutcome};
use cooee::notification::{Action, ImageData, Notification};

fn request(summary: &str, body: &str, replaces_id: u32) -> NotifyRequest {
    NotifyRequest {
        app_name: "app".into(),
        replaces_id,
        app_icon: "".into(),
        summary: summary.into(),
        body: body.into(),
        actions: vec!["default".into(), "Open".into()],
        urgency: None,
        image_data: None,
        image_path: None,
        expire_timeout: -1,
    }
}

fn reply_of(out: CommandOutcome) -> cooee::daemon::socket::Response {
    match out {
        CommandOutcome::Reply(r) => r,
        other => panic!("expected a reply, got {other:?}"),
    }
}

#[test]
fn notify_dnd_full_discards_but_spends_id() {
    let mut st = AppState::new(DndMode::Full, 50);
    let out = handle_notify(&mut st, request("Hi", "there", 0), &TtsConfig::default());
    assert!(matches!(out, NotifyOutcome::Discarded { id: 1 }));
    assert_eq!(st.next_id, 2);
    assert!(st.last_notification.is_none());
    assert!(st.history.is_empty());
}

#[test]
fn notify_off_shows_plays_and_speaks() {
    let mut st = AppState::new(DndMode::Off, 50);
    let out = handle_notify(&mut st, request("Door", "unlocked", 0), &TtsConfig::default());
    match out {
        NotifyOutcome::Shown { id, notification, alert, utterance } => {
            assert_eq!(id, 1);
            assert_eq!(notification.id, 1);
            assert_eq!(notification.actions.len(), 1);
            assert_eq!(u8::from(notification.urgency), 1);
            assert!(alert);
            assert_eq!(utterance.unwrap().text, "Door.  unlocked");
        }
        other => panic!("unexpected {other:?}"),
    }
    assert_eq!(st.last_notification.as_ref().unwrap().summary, "Door");
    assert_eq!(st.history.len(), 1);
}

#[test]
fn notify_silent_shows_without_sound_or_speech() {
    let mut st = AppState::new(DndMode::Silent, 50);
    let out = handle_notify(&mut st, request("Door", "unlocked", 0), &TtsConfig::default());
    assert!(matches!(out, NotifyOutcome::Shown { alert: false, utterance: None, .. }));
    assert_eq!(st.history.len(), 1);
}

#[test]
fn notify_replacement_keeps_id_and_history_slot() {
    let mut st = AppState::new(DndMode::Off, 50);
    handle_notify(&mut st, request("one", "", 0), &TtsConfig::default());
    handle_notify(&mut st, request("two", "", 0), &TtsConfig::default());
    let out = handle_notify(&mut st, request("one again", "", 1), &TtsConfig::default());
    assert!(matches!(out, NotifyOutcome::Shown { id: 1, .. }));
    assert_eq!(st.next_id, 3);
    assert_eq!(st.history.len(), 2);
    assert_eq!(st.history[0].summary, "one again");
}

#[test]
fn notify_image_hints() {
    let mut st = AppState::new(DndMode::Off, 50);
    let mut req = request("img", "", 0);
    req.image_data = Some(ImageData { width: 1, height: 1, rowstride: 4, has_alpha: true,
        bits_per_sample: 16, n_channels: 4, data: vec![0; 8] });
    req.image_path = Some("/pic.png".into());
    req.urgency = Some(2);
    match handle_notify(&mut st, req, &TtsConfig::default()) {
        NotifyOutcome::Shown { notification, .. } => {
            assert!(notification.image_data.is_none());
            assert_eq!(notification.image_path.as_deref(), Some("/pic.png"));
            assert_eq!(u8::from(notification.urgency), 2);
        }
        other => panic!("unexpected {other:?}"),
    }
    let mut req = request("img", "", 0);
    req.image_data = Some(ImageData { width: 1, height: 1, rowstride: 3, has_alpha: false,
        bits_per_sample: 8, n_channels: 3, data: vec![1, 2, 3] });
    req.image_path = Some("/pic.png".into());
    match handle_notify(&mut st, req, &TtsConfig::default()) {
        NotifyOutcome::Shown { notification, .. } => {
            assert_eq!(notification.image_data.unwrap().data, vec![1, 2, 3]);
            assert!(notification.image_path.is_none());
        }
        other => panic!("unexpected {other:?}"),
    }
}

#[test]
fn capabilities_and_server_information() {
    assert_eq!(get_capabilities(), vec!["body", "body-markup", "icon-static", "actions"]);
    let (name, vendor, version, spec) = get_server_information("0.1.0");
    assert_eq!((name.as_str(), vendor.as_str(), version.as_str(), spec.as_str()), ("cooee", "cooee", "0.1.0", "1.2"));
}

fn make_state_with_last(actions: Vec<String>, body: &str) -> AppState {
    let mut st = AppState::new(DndMode::Off, 50);
    st.last_notification = Some(Notification::new(5, "app".into(), "".into(), "Summary".into(),
        body.into(), actions, 1, 0, None, None, 0));
    st
}

#[test]
fn command_dnd_status_set_toggle_and_unknown() {
    let mut st = AppState::new(DndMode::Off, 50);
    let tts = TtsConfig::default();
    let act = ActionsConfig::default();
    let r = reply_of(handle_command(Command::Dnd { mode: "status".into() }, &mut st, &tts, &act));
    assert_eq!(r.dnd.as_deref(), Some("off"));
    let r = reply_of(handle_command(Command::Dnd { mode: "toggle".into() }, &mut st, &tts, &act));
    assert_eq!(r.dnd.as_deref(), Some("silent"));
    let r = reply_of(handle_command(Command::Dnd { mode: "full".into() }, &mut st, &tts, &act));
    assert_eq!(r.dnd.as_deref(), Some("full"));
    assert_eq!(st.dnd_mode, DndMode::Full);
    let r = reply_of(handle_command(Command::Dnd { mode: "loud".into() }, &mut st, &tts, &act));
    assert!(!r.ok);
    assert_eq!(r.error.as_deref(), Some("unknown DND mode: use off, silent, full, or toggle"));
    assert_eq!(st.dnd_mode, DndMode::Full);
}

#[test]
fn command_status_line() {
    let mut st = AppState::new(DndMode::Silent, 50);
    let r = reply_of(handle_command(Command::Status, &mut st, &TtsConfig::default(), &ActionsConfig::default()));
    assert_eq!(r.status.as_deref(), Some("running | DND: silent"));
}

#[test]
fn command_speak_reads_body_or_summary() {
    let mut st = AppState::new(DndMode::Off, 50);
    let r = reply_of(handle_command(Command::Speak, &mut st, &TtsConfig::default(), &ActionsConfig::default()));
    assert_eq!(r.error.as_deref(), Some("no notification to speak"));
    let mut st = make_state_with_last(vec![], "");
    match handle_command(Command::Speak, &mut st, &TtsConfig::default(), &ActionsConfig::default()) {
        CommandOutcome::Speak { utterance, reply } => {
            assert!(reply.ok);
            assert_eq!(utterance.unwrap().text, "Summary");
        }
        other => panic!("unexpected {other:?}"),
    }
    let mut st = make_state_with_last(vec![], "The body");
    match handle_command(Command::Speak, &mut st, &TtsConfig::default(), &ActionsConfig::default()) {
        CommandOutcome::Speak { utterance, .. } => assert_eq!(utterance.unwrap().text, "The body"),
        other => panic!("unexpected {other:?}"),
    }
}

#[test]
fn command_action_paths() {
    let tts = TtsConfig::default();
    let act = ActionsConfig::default();
    let mut st = AppState::new(DndMode::Off, 50);
    let r = reply_of(handle_command(Command::Action, &mut st, &tts, &act));
    assert_eq!(r.error.as_deref(), Some("no notification to act on"));
    let mut st = make_state_with_last(vec![], "");
    let r = reply_of(handle_command(Command::Action, &mut st, &tts, &act));
    assert_eq!(r.error.as_deref(), Some("last notification has no actions"));
    let mut st = make_state_with_last(vec!["default".into(), "Open".into()], "");
    match handle_command(Command::Action, &mut st, &tts, &act) {
        CommandOutcome::PickAction { id, picker, actions } => {
            assert_eq!(id, 5);
            assert_eq!(picker, "rofi -dmenu -p 'Action:'");
            assert_eq!(actions[0].key, "default");
        }
        other => panic!("unexpected {other:?}"),
    }
}

#[test]
fn command_dismiss_and_history() {
    let mut st = AppState::new(DndMode::Off, 50);
    assert!(matches!(handle_command(Command::Dismiss, &mut st, &TtsConfig::default(), &ActionsConfig::default()),
        CommandOutcome::Dismiss { .. }));
    handle_notify(&mut st, request("one", "", 0), &TtsConfig::default());
    handle_notify(&mut st, request("two", "", 0), &TtsConfig::default());
    let r = reply_of(handle_command(Command::History { count: Some(1) }, &mut st, &TtsConfig::default(), &ActionsConfig::default()));
    let h = r.history.unwrap();
    assert_eq!(h.len(), 1);
    assert_eq!(h[0].summary, "two");
}

#[test]
fn action_reply_cases() {
    let (r, signal) = action_reply(5, Ok(Action { key: "default".into(), label: "Open".into() }));
    assert!(r.ok);
    assert_eq!(signal, Some((5, "default".to_string())));
    let (r, signal) = action_reply(5, Err(PickError::Cancelled { status: "exit status: 1".into() }));
    assert!(!r.ok);
    assert!(r.error.unwrap().contains("cancelled"));
    assert!(signal.is_none());
}
