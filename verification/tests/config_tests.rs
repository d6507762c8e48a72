use cooee::config::{
    config_path_from, expand_path_with_home, style_path_from, ActionsConfig, DndConfig, DndMode,
    GeneralConfig, HistoryConfig, Position, TtsConfig, watch_action, WatchAction,
};

#[test]
fn test_default_config_has_expected_values() {
    let general = GeneralConfig::default();
    let tts = TtsConfig::default();
    let actions = ActionsConfig::default();
    assert_eq!(general.margin_x, 16);
    assert_eq!(general.margin_y, 48);
    assert_eq!(general.max_visible, 5);
    assert_eq!(general.timeout, 5000);
    assert_eq!(general.width, 360);
    assert_eq!(general.icon_size, 36);
    assert_eq!(general.font_size, 14);
    assert!(tts.enabled);
    assert!(tts.speak_summary);
    assert_eq!(tts.body_word_limit, 15);
    assert_eq!(tts.rate, 0);
    assert_eq!(actions.picker, "rofi -dmenu -p 'Action:'");
}

#[test]
fn test_expand_path_replaces_tilde() {
    let p = expand_path_with_home("~/.config/cooee/sounds/notify.ogg", Some("/home/testuser"));
    assert_eq!(p, "/home/testuser/.config/cooee/sounds/notify.ogg");
}

#[test]
fn test_expand_path_passthrough_absolute() {
    let p = expand_path_with_home("/absolute/path", Some("/home/testuser"));
    assert_eq!(p, "/absolute/path");
}

#[test]
fn test_history_config_default_max_entries() {
    assert_eq!(HistoryConfig::default().max_entries, 50);
    assert_eq!(HistoryConfig::default_max_entries(), 50);
}

#[test]
fn expand_path_without_home_is_unchanged() {
    assert_eq!(expand_path_with_home("~/x", None), "~/x");
    assert_eq!(expand_path_with_home("~x", Some("/h")), "~x");
    assert_eq!(expand_path_with_home("~/a", Some("/h/")), "/h/a");
}

#[test]
fn default_position_and_dnd() {
    assert_eq!(Position::default(), Position::TopRight);
    assert_eq!(GeneralConfig::default().position, Position::TopRight);
    assert_eq!(DndMode::default(), DndMode::Off);
    assert_eq!(DndConfig::default().mode, DndMode::Off);
    assert!(TtsConfig::default().voice.is_empty());
}

#[test]
fn config_paths_follow_xdg_then_home() {
    assert_eq!(config_path_from(Some("/xdg"), Some("/home/u")), "/xdg/cooee/config.toml");
    assert_eq!(config_path_from(None, Some("/home/u")), "/home/u/.config/cooee/config.toml");
    assert_eq!(config_path_from(None, None), "./.config/cooee/config.toml");
    assert_eq!(style_path_from(Some("/xdg/"), None), "/xdg/cooee/style.css");
}

#[test]
fn watch_actions() {
    assert_eq!(watch_action(false, true), WatchAction::Ignore);
    assert_eq!(watch_action(true, true), WatchAction::ReloadCss);
    assert_eq!(watch_action(true, false), WatchAction::ReloadConfig);
}
