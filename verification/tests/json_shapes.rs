//! The JSON shapes ScrollWM replies with, read field by field into the
//! library's types.
use jcode_scrollwm::{column_for_title, Column, ScrollWmInfo, StripStatus};
use serde_json::Value;

fn text(v: &Value, key: &str) -> String {
    v.get(key).and_then(Value::as_str).unwrap_or_default().to_string()
}

fn number(v: &Value, key: &str) -> Option<u32> {
    v.get(key).and_then(Value::as_u64).map(|n| n as u32)
}

fn flag(v: &Value, key: &str) -> bool {
    v.get(key).and_then(Value::as_bool).unwrap_or(false)
}

fn status_from(v: &Value) -> StripStatus {
    StripStatus {
        managing: flag(v, "managing"),
        focus_mode: text(v, "focusMode"),
        window_count: number(v, "windowCount").unwrap_or(0),
        focused_column: number(v, "focusedColumn"),
        workspace: number(v, "workspace"),
        workspace_count: number(v, "workspaceCount"),
        columns: v
            .get("columns")
            .and_then(Value::as_array)
            .map(|cols| {
                cols.iter()
                    .map(|c| Column {
                        index: number(c, "index").unwrap_or(0),
                        app: text(c, "app"),
                        title: text(c, "title"),
                        width: number(c, "width").unwrap_or(0),
                        focused: flag(c, "focused"),
                        healthy: flag(c, "healthy"),
                    })
                    .collect()
            })
            .unwrap_or_default(),
    }
}

#[test]
fn status_json_round_trips_control_shape() {
    let json = r#"{
        "managing": true,
        "focusMode": "fit",
        "windowCount": 2,
        "focusedColumn": 1,
        "workspace": 1,
        "workspaceCount": 1,
        "columns": [
            {"index": 1, "app": "Ghostty", "title": "🛰 jcode/aqua", "width": 800, "focused": true, "healthy": true},
            {"index": 2, "app": "Safari", "title": "Docs", "width": 600, "focused": false, "healthy": true}
        ]
    }"#;
    let value: Value = serde_json::from_str(json).expect("parse status");
    let status = status_from(&value);
    assert!(status.managing);
    assert_eq!(status.window_count, 2);
    assert_eq!(status.focused_column, Some(1));
    assert_eq!(status.columns.len(), 2);
    assert_eq!(column_for_title(&status, "aqua"), Some(1));
}

#[test]
fn version_json_parses_capabilities() {
    let json = r#"{"name":"ScrollWM","version":"0.2.0","protocol":1,"verbs":["ping","status","arrange","focus-title"]}"#;
    let value: Value = serde_json::from_str(json).expect("parse version");
    let info = ScrollWmInfo {
        name: text(&value, "name"),
        version: text(&value, "version"),
        protocol: number(&value, "protocol").unwrap_or(0),
        verbs: value
            .get("verbs")
            .and_then(Value::as_array)
            .map(|vs| vs.iter().filter_map(Value::as_str).map(str::to_string).collect())
            .unwrap_or_default(),
    };
    assert_eq!(info.protocol, 1);
    assert!(info.supports_verb("focus-title"));
    assert!(!info.supports_verb("spawn-strip"));
}
