use gtk_shell::bar::redraw::Redraw;
use gtk_shell::bar::warp::{
    collapse_reason, status_query_args, ReasonValue, Warp, WarpClient, WarpColor, WarpCommand,
    WarpStatus,
};
use serde_json::Value;

/// The JSON `reason` member as the library takes it.
fn reason_value(v: Option<&Value>) -> ReasonValue {
    match v {
        None => ReasonValue::Absent,
        Some(Value::Null) => ReasonValue::Null,
        Some(Value::String(s)) => ReasonValue::Text(s.clone()),
        Some(Value::Object(map)) => ReasonValue::Object(map.keys().cloned().collect()),
        Some(other) => ReasonValue::Other(other.to_string()),
    }
}

/// A `warp-cli -j status` reply read into a status.
fn parse(json: &[u8]) -> WarpStatus {
    let v: Value = serde_json::from_slice(json).unwrap();
    let status = v.get("status").and_then(Value::as_str).unwrap();
    WarpStatus::new(status, collapse_reason(reason_value(v.get("reason"))))
}

#[test]
fn parses_status_json() {
    let json = br#"{ "status": "Connected", "reason": "NetworkHealthy" }"#;
    let status = parse(json);
    assert_eq!(status.status, "Connected");
    assert_eq!(status.reason.as_deref(), Some("NetworkHealthy"));
    assert!(status.is_connected());
}

#[test]
fn parses_status_without_reason() {
    let status = parse(br#"{ "status": "Disconnected" }"#);
    assert_eq!(status.reason, None);
    assert!(!status.is_connected());
}

#[test]
fn collapses_tagged_reason_object() {
    let json = br#"{ "status": "Disconnected", "reason": { "SettingsChanged": { "current": {} } } }"#;
    let status = parse(json);
    assert_eq!(status.reason.as_deref(), Some("SettingsChanged"));
    assert!(!status.is_connected());
}

#[test]
fn other_reason_values_keep_their_json_text() {
    assert_eq!(parse(br#"{ "status": "x", "reason": null }"#).reason, None);
    assert_eq!(parse(br#"{ "status": "x", "reason": 42 }"#).reason.as_deref(), Some("42"));
    assert_eq!(parse(br#"{ "status": "x", "reason": [1,2] }"#).reason.as_deref(), Some("[1,2]"));
    assert_eq!(parse(br#"{ "status": "x", "reason": {} }"#).reason, None);
}

#[test]
fn connected_is_case_insensitive_and_exact() {
    assert!(WarpStatus::new("CONNECTED", None).is_connected());
    assert!(WarpStatus::new("connected", None).is_connected());
    assert!(!WarpStatus::new("Connecting", None).is_connected());
    assert!(!WarpStatus::new("connected ", None).is_connected());
}

#[test]
fn emit_skips_unchanged_status_unless_forced() {
    let mut client = WarpClient::new();
    let up = WarpStatus::new("Connected", Some("NetworkHealthy".to_string()));
    assert_eq!(client.emit(None, true), None);
    assert_eq!(client.emit(Some(up.clone()), false), Some(up.clone()));
    assert_eq!(client.emit(Some(up.clone()), false), None);
    assert_eq!(client.emit(Some(up.clone()), true), Some(up.clone()));
    let down = WarpStatus::new("Connected", None);
    assert_eq!(client.emit(Some(down.clone()), false), Some(down.clone()));
    assert_eq!(client.last, Some(down));
}

#[test]
fn commands_map_to_cli_calls() {
    assert_eq!(
        WarpCommand::Connect.cli_args(),
        Some(vec!["--accept-tos".to_string(), "connect".to_string()])
    );
    assert_eq!(
        WarpCommand::Disconnect.cli_args(),
        Some(vec!["--accept-tos".to_string(), "disconnect".to_string()])
    );
    assert_eq!(WarpCommand::UpdateState.cli_args(), None);
    assert!(WarpCommand::UpdateState.forces_report());
    assert!(!WarpCommand::Connect.forces_report());
    assert_eq!(status_query_args(), vec!["-j", "--accept-tos", "status"]);
}

#[test]
fn indicator_asks_for_status_and_colors_by_connection() {
    let (mut warp, first) = Warp::new();
    assert_eq!(first, WarpCommand::UpdateState);
    assert_eq!(warp.label(&None), None);
    let up = WarpStatus::new("Connected", None);
    assert_eq!(warp.label(&Some(up.clone())), Some(("Connected".to_string(), WarpColor::Primary)));
    let down = WarpStatus::new("Disconnected", None);
    assert_eq!(warp.label(&Some(down.clone())), Some(("Disconnected".to_string(), WarpColor::Error)));
    assert_eq!(warp.on_warp(&down), Redraw::Now);
}
