use cooee::config::{GeneralConfig, Position};
use cooee::daemon::ui::{build_css, image_source, monitor_index, placement, ImageSource, PopupStack};
use cooee::notification::{ImageData, Notification};

fn test_config_with_font_size(font_size: i32) -> GeneralConfig {
    let mut cfg = GeneralConfig::default();
    cfg.font_size = font_size;
    cfg
}

#[test]
fn build_css_contains_configured_font_size() {
    let cfg = test_config_with_font_size(18);
    let css = build_css(&cfg);
    assert!(css.contains("font-size: 18px"), "expected 18px in CSS, got:\n{css}");
}

#[test]
fn build_css_summary_is_one_larger_than_base() {
    let cfg = test_config_with_font_size(14);
    let css = build_css(&cfg);
    assert!(css.contains("font-size: 15px"), "summary should be 15px");
}

#[test]
fn build_css_body_is_one_smaller_than_base() {
    let cfg = test_config_with_font_size(14);
    let css = build_css(&cfg);
    assert!(css.contains("font-size: 13px"), "body should be 13px");
}

#[test]
fn build_css_negative_and_zero_sizes() {
    let css = build_css(&test_config_with_font_size(0));
    assert!(css.contains("font-size: -1px"));
    assert!(css.contains("font-size: 1px"));
    assert!(css.starts_with("\n.notification-card {"));
    assert!(css.ends_with("background-color: rgba(120, 160, 230, 0.24);\n}\n"));
}

#[test]
fn placement_top_right() {
    let p = placement(&GeneralConfig::default());
    assert!(p.anchor_top && p.anchor_right && !p.anchor_bottom && !p.anchor_left);
    assert_eq!(p.margin_top, Some(48));
    assert_eq!(p.margin_right, Some(16));
    assert_eq!(p.margin_left, None);
    assert_eq!(p.margin_bottom, None);
}

#[test]
fn placement_every_position_has_one_vertical_anchor() {
    for pos in [Position::TopRight, Position::TopLeft, Position::BottomRight, Position::BottomLeft,
                Position::Center, Position::CenterTop, Position::CenterBottom] {
        let mut cfg = GeneralConfig::default();
        cfg.position = pos;
        let p = placement(&cfg);
        assert!(p.anchor_top != p.anchor_bottom);
        assert!(!(p.anchor_left && p.anchor_right));
    }
    let mut cfg = GeneralConfig::default();
    cfg.position = Position::CenterBottom;
    let p = placement(&cfg);
    assert_eq!(p.margin_bottom, Some(48));
    assert!(!p.anchor_left && !p.anchor_right);
}

fn notif_with(image_data: Option<ImageData>, image_path: Option<String>) -> Notification {
    Notification::new(1, "a".into(), "".into(), "s".into(), "b".into(), vec![], 1, 0,
        image_data, image_path, 0)
}

#[test]
fn image_source_choices() {
    let img = ImageData { width: 4, height: 2, rowstride: 16, has_alpha: true,
        bits_per_sample: 8, n_channels: 4, data: vec![0; 32] };
    match image_source(&notif_with(Some(img), Some("/x.png".into()))) {
        Some(ImageSource::Pixels { width, height, has_alpha, stride }) => {
            assert_eq!((width, height, has_alpha, stride), (4, 2, true, 16));
        }
        other => panic!("unexpected {other:?}"),
    }
    let bad = ImageData { width: 4, height: 2, rowstride: 0, has_alpha: true,
        bits_per_sample: 8, n_channels: 4, data: vec![] };
    assert!(image_source(&notif_with(Some(bad), Some("/x.png".into()))).is_none());
    assert!(matches!(image_source(&notif_with(None, Some("/x.png".into()))),
        Some(ImageSource::File(f)) if f == "/x.png"));
    assert!(matches!(image_source(&notif_with(None, Some("file:///tmp/y.png".into()))),
        Some(ImageSource::File(f)) if f == "/tmp/y.png"));
    assert!(matches!(image_source(&notif_with(None, Some("dialog-info".into()))),
        Some(ImageSource::Icon(i)) if i == "dialog-info"));
    assert!(image_source(&notif_with(None, None)).is_none());
}

#[test]
fn popup_stack_evicts_oldest_and_closes_by_id() {
    let mut stack: PopupStack<&str> = PopupStack::new();
    for (id, w) in [(1, "a"), (2, "b"), (3, "c")] {
        assert_eq!(stack.make_room(3), None);
        stack.push(id, w);
    }
    assert_eq!(stack.make_room(3), Some("a"));
    stack.push(4, "d");
    assert_eq!(stack.len(), 3);
    assert_eq!(stack.close(3), Some("c"));
    assert_eq!(stack.close(3), None);
    assert_eq!(stack.pop_latest(), Some("d"));
    assert_eq!(*stack.window(0), "b");
    stack.retain_alive(&[false]);
    assert_eq!(stack.len(), 0);
    assert_eq!(stack.pop_latest(), None);
}

#[test]
fn popup_stack_retain_keeps_order() {
    let mut stack: PopupStack<u8> = PopupStack::new();
    for i in 0..5u8 {
        stack.push(i as u32, i);
    }
    stack.retain_alive(&[true, false, true, false, true]);
    assert_eq!(stack.len(), 3);
    assert_eq!((*stack.window(0), *stack.window(1), *stack.window(2)), (0, 2, 4));
}

#[test]
fn monitor_index_finds_first_match() {
    let connectors = vec![None, Some("DP-1".to_string()), Some("HDMI-A-1".to_string()), Some("DP-1".to_string())];
    assert_eq!(monitor_index(&connectors, "DP-1"), Some(1));
    assert_eq!(monitor_index(&connectors, "eDP-1"), None);
}

#[test]
fn popup_stack_show_replaces_and_evicts() {
    let mut stack: PopupStack<&str> = PopupStack::new();
    assert!(stack.show(1, 0, 2, "a").is_empty());
    assert!(stack.show(2, 0, 2, "b").is_empty());
    // full: the oldest goes
    assert_eq!(stack.show(3, 0, 2, "c"), vec!["a"]);
    // replacing 2: only the replaced popup goes, there is room again
    assert_eq!(stack.len_after_replacing(2), 1);
    assert_eq!(stack.show(4, 2, 2, "d"), vec!["b"]);
    assert_eq!((*stack.window(0), *stack.window(1)), ("c", "d"));
    // replacing an id that is not shown: just makes room
    assert_eq!(stack.len_after_replacing(9), 2);
    assert_eq!(stack.show(5, 9, 2, "e"), vec!["c"]);
    // limit of 0 with popups open: each one replaces the last
    assert_eq!(stack.show(6, 0, 0, "f"), vec!["d"]);
    assert_eq!(stack.len(), 2);
}
