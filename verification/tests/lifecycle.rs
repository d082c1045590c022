use gopher::config::Config;
use gopher::identity;
use gopher::lifecycle::{inspect, Marker, Previous, Session};
use gopher::text_map::TextMap;

fn session() -> Session {
    Session::start(42, "2026-09-07T16:30:00Z".into(), "1.2.3".into())
}

#[test]
fn force_kill_is_detected_on_next_launch_without_inventing_a_cause() {
    let open = session().marker;
    assert!(open.ended_at.is_none());
    let values = inspect(&Previous::Found(open)).unwrap();
    assert_eq!(values.get("event").unwrap().as_str(), Some("previous_session_unclean"));
    assert_eq!(values.get("previous_pid").unwrap().as_u64(), Some(42));
    assert_eq!(values.get("previous_version").unwrap().as_str(), Some("1.2.3"));
    assert!(values.get("message").unwrap().as_str().unwrap().contains("cause is unknown"));
}

#[test]
fn a_completed_run_is_not_reported() {
    let marker: Marker = session().finish("quit", "2026-09-07T17:00:00Z".into());
    assert_eq!(marker.reason.as_deref(), Some("quit"));
    assert_eq!(marker.started_at, "2026-09-07T16:30:00Z");
    assert!(inspect(&Previous::Found(marker)).is_none());
    assert!(inspect(&Previous::Missing).is_none());
    let values = inspect(&Previous::Invalid("bad".into())).unwrap();
    assert_eq!(values.get("event").unwrap().as_str(), Some("session_marker_invalid"));
    assert_eq!(values.get("error").unwrap().as_str(), Some("bad"));
}

#[test]
fn events_name_their_run() {
    let values = session().stopping("sigterm");
    assert_eq!(values.get("event").unwrap().as_str(), Some("app_stopped"));
    assert_eq!(values.get("reason").unwrap().as_str(), Some("sigterm"));
    assert_eq!(values.get("pid").unwrap().as_u64(), Some(42));
    let values = session().record("app_started", TextMap::new());
    assert_eq!(values.get("session_started_at").unwrap().as_str(), Some("2026-09-07T16:30:00Z"));
}

#[test]
fn channel_selects_data_and_display_identity_together() {
    for dev in [true, false] {
        assert!(Config::directory(Some("/home/me"), dev).unwrap().ends_with(identity::data_directory(dev)));
    }
    assert_eq!(identity::name(true), "Gopher Dev");
    assert_eq!(identity::header(true), "Gopher • Dev");
    assert_eq!(identity::data_directory(true), ".config/gopher-dev");
    assert!(identity::version_label(true, "1.2.3", "abcdef0", "").contains("abcdef0"));
    assert_eq!(identity::name(false), "Gopher");
    assert_eq!(identity::header(false), "Gopher");
    assert_eq!(identity::data_directory(false), ".config/gopher");
    assert_eq!(identity::version_label(false, "1.2.3", "abcdef0", ""), "Updates · Gopher 1.2.3");
    assert!(Config::directory(None, false).is_err());
}
