use cooee::daemon::socket::{socket_path_from, Command, Response};

#[test]
fn test_socket_path_uses_xdg_runtime_dir() {
    let p = socket_path_from(Some("/run/user/1000"));
    assert_eq!(p, "/run/user/1000/cooee.sock");
}

#[test]
fn socket_path_defaults_to_tmp() {
    assert_eq!(socket_path_from(None), "/tmp/cooee.sock");
}

#[test]
fn response_constructors() {
    let r = Response::ok();
    assert!(r.ok && r.dnd.is_none() && r.error.is_none() && r.status.is_none() && r.history.is_none());
    let r = Response::ok_dnd("silent");
    assert!(r.ok);
    assert_eq!(r.dnd.as_deref(), Some("silent"));
    let r = Response::err("no notification");
    assert!(!r.ok);
    assert_eq!(r.error.as_deref(), Some("no notification"));
    let r = Response::ok_status("running | DND: off");
    assert_eq!(r.status.as_deref(), Some("running | DND: off"));
    let r = Response::ok_history(vec![]);
    assert!(r.ok);
    assert_eq!(r.history.map(|h| h.len()), Some(0));
}

#[test]
fn command_equality() {
    assert_eq!(Command::Dnd { mode: "full".to_string() }, Command::Dnd { mode: "full".to_string() });
    assert_ne!(Command::Dnd { mode: "full".to_string() }, Command::Dnd { mode: "off".to_string() });
    assert_eq!(Command::Speak, Command::Speak);
    assert_ne!(Command::Speak, Command::Action);
    assert_eq!(Command::History { count: Some(2) }, Command::History { count: Some(2) });
    assert_ne!(Command::History { count: Some(2) }, Command::History { count: None });
}
