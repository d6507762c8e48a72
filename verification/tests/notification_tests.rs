use cooee::notification::{parse_actions, Action, ImageData, Notification, Urgency};

#[test]
fn test_parse_actions_even_pairs() {
    let flat = vec![
        "default".to_string(), "Open".to_string(),
        "snooze".to_string(), "Snooze 5 min".to_string(),
    ];
    let actions = parse_actions(&flat);
    assert_eq!(actions.len(), 2);
    assert_eq!(actions[0].key, "default");
    assert_eq!(actions[0].label, "Open");
    assert_eq!(actions[1].key, "snooze");
    assert_eq!(actions[1].label, "Snooze 5 min");
}

#[test]
fn test_parse_actions_odd_list_ignores_trailing() {
    let flat = vec!["orphan".to_string()];
    let actions = parse_actions(&flat);
    assert!(actions.is_empty());
}

#[test]
fn test_parse_actions_empty() {
    let actions = parse_actions(&[]);
    assert!(actions.is_empty());
}

#[test]
fn test_urgency_from_u8() {
    assert_eq!(Urgency::from(0), Urgency::Low);
    assert_eq!(Urgency::from(1), Urgency::Normal);
    assert_eq!(Urgency::from(2), Urgency::Critical);
    assert_eq!(Urgency::from(99), Urgency::Normal);
}

fn make_notification(expire_timeout: i32) -> Notification {
    Notification::new(1, "app".into(), "".into(), "Summary".into(), "Body".into(),
        vec![], 1, expire_timeout, None, None, 0)
}

#[test]
fn test_display_duration_default() {
    let n = make_notification(0);
    assert_eq!(n.display_duration_ms(5000), Some(5000));
}

#[test]
fn test_display_duration_negative_one_uses_default() {
    // libnotify sends -1 to mean "use server default" — must not be treated as persistent
    let n = make_notification(-1);
    assert_eq!(n.display_duration_ms(5000), Some(5000));
}

#[test]
fn test_display_duration_explicit() {
    let n = make_notification(3000);
    assert_eq!(n.display_duration_ms(5000), Some(3000));
}

#[test]
fn test_notification_new_with_image_and_replaces() {
    let img = ImageData {
        width: 64, height: 64, rowstride: 64 * 4,
        has_alpha: true, bits_per_sample: 8, n_channels: 4,
        data: vec![0u8; 64 * 64 * 4],
    };
    let n = Notification::new(
        42, "app".into(), "icon".into(), "Hello".into(), "World".into(),
        vec![], 1, 0, Some(img), Some("/path/to/img.png".into()), 7,
    );
    assert_eq!(n.id, 42);
    assert_eq!(n.replaces_id, 7);
    assert!(n.image_data.is_some());
    assert_eq!(n.image_path.as_deref(), Some("/path/to/img.png"));
}

#[test]
fn test_urgency_display() {
    assert_eq!(Urgency::Low.to_string(), "low");
    assert_eq!(Urgency::Normal.to_string(), "normal");
    assert_eq!(Urgency::Critical.to_string(), "critical");
    assert_eq!(Urgency::from(0).to_string(), "low");
    assert_eq!(Urgency::from(1).to_string(), "normal");
    assert_eq!(Urgency::from(2).to_string(), "critical");
}

#[test]
fn urgency_byte_round_trip() {
    for u in [Urgency::Low, Urgency::Normal, Urgency::Critical] {
        let b: u8 = u8::from(u);
        assert_eq!(Urgency::from(b), u);
    }
    assert_eq!(u8::from(Urgency::Critical), 2);
}

#[test]
fn display_duration_large_negative_uses_default() {
    let n = make_notification(-5000);
    assert_eq!(n.display_duration_ms(250), Some(250));
}

#[test]
fn notification_new_parses_actions_and_urgency() {
    let n = Notification::new(3, "app".into(), "".into(), "S".into(), "B".into(),
        vec!["default".into(), "Open".into(), "dangling".into()], 2, 100, None, None, 0);
    assert_eq!(n.actions.len(), 1);
    assert_eq!(n.actions[0].key, "default");
    assert_eq!(n.actions[0].label, "Open");
    assert_eq!(n.urgency, Urgency::Critical);
    assert_eq!(n.expire_timeout, 100);
}

#[test]
fn notification_clone_keeps_contents() {
    let img = ImageData {
        width: 2, height: 1, rowstride: 6,
        has_alpha: false, bits_per_sample: 8, n_channels: 3,
        data: vec![1, 2, 3, 4, 5, 6],
    };
    let n = Notification::new(9, "app".into(), "icon".into(), "S".into(), "B".into(),
        vec!["k".into(), "l".into()], 0, 10, Some(img), None, 4);
    let c = n.clone();
    assert_eq!(c.id, 9);
    assert_eq!(c.summary, "S");
    assert_eq!(c.actions[0].label, "l");
    assert_eq!(c.image_data.as_ref().unwrap().data, vec![1, 2, 3, 4, 5, 6]);
    assert_eq!(c.received_at, n.received_at);
}

#[test]
fn action_equality_compares_key_and_label() {
    let a = Action { key: "k".into(), label: "L".into() };
    assert_eq!(a.clone(), a);
    assert_ne!(a, Action { key: "k".into(), label: "M".into() });
    assert_ne!(a, Action { key: "j".into(), label: "L".into() });
}

#[test]
fn display_duration_zero_default_is_persistent() {
    assert_eq!(make_notification(0).display_duration_ms(0), None);
    assert_eq!(make_notification(-1).display_duration_ms(0), None);
    assert_eq!(make_notification(1500).display_duration_ms(0), Some(1500));
}

#[test]
fn received_at_nanoseconds_below_one_second() {
    let n = make_notification(0);
    assert!(n.received_at.nanos < 1_000_000_000);
    assert!(n.received_at.secs > 0);
}
