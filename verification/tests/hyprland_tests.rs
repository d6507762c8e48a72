use cooee::daemon::hyprland::{
    hyprland_socket_path_from, monitor_from_member, parse_monitor_from_workspace_json, HyprlandError,
};
use cooee::json::JsonMember;

#[test]
fn test_parse_monitor_from_workspace_json() {
    let json = r#"{"id":1,"name":"1","monitor":"DP-1","windows":2}"#;
    let name = parse_monitor_from_workspace_json(json).unwrap();
    assert_eq!(name, "DP-1");
}

#[test]
fn test_parse_monitor_missing_field_returns_error() {
    let json = r#"{"id":1,"name":"1"}"#;
    let result = parse_monitor_from_workspace_json(json);
    assert!(result.is_err());
}

#[test]
fn test_hyprland_socket_path_construction() {
    let path = hyprland_socket_path_from(Some("abc123"), Some("/run/user/1000")).unwrap();
    assert_eq!(path, "/run/user/1000/hypr/abc123/.socket.sock");
}

#[test]
fn test_active_monitor_name_no_hyprland_env() {
    assert!(hyprland_socket_path_from(None, Some("/run/user/1000")).is_none());
}

#[test]
fn hyprland_socket_path_defaults_to_tmp() {
    assert_eq!(hyprland_socket_path_from(Some("sig"), None).unwrap(), "/tmp/hypr/sig/.socket.sock");
}

#[test]
fn parse_monitor_errors() {
    assert_eq!(parse_monitor_from_workspace_json("not json"), Err(HyprlandError::InvalidJson));
    assert_eq!(parse_monitor_from_workspace_json(r#"{"monitor":3}"#), Err(HyprlandError::MissingMonitor));
    assert_eq!(parse_monitor_from_workspace_json("[1,2]"), Err(HyprlandError::MissingMonitor));
    assert_eq!(HyprlandError::MissingMonitor.message(), "'monitor' field missing from Hyprland response");
    assert_eq!(HyprlandError::InvalidJson.message(), "parsing Hyprland workspace JSON");
}

#[test]
fn monitor_from_member_cases() {
    assert_eq!(monitor_from_member(Ok(JsonMember::Str("HDMI-A-1".into()))), Ok("HDMI-A-1".to_string()));
    assert_eq!(monitor_from_member(Ok(JsonMember::Absent)), Err(HyprlandError::MissingMonitor));
    assert_eq!(monitor_from_member(Ok(JsonMember::Bool(true))), Err(HyprlandError::MissingMonitor));
    assert_eq!(monitor_from_member(Err("bad".into())), Err(HyprlandError::InvalidJson));
}
