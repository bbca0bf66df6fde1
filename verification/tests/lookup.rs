use jcode_scrollwm::{column_for_title, legacy_info, Column, ScrollWmInfo, StripStatus};

fn status_with_titles(titles: &[&str]) -> StripStatus {
    StripStatus {
        managing: true,
        columns: titles
            .iter()
            .enumerate()
            .map(|(i, t)| Column {
                index: (i + 1) as u32,
                app: "Ghostty".to_string(),
                title: (*t).to_string(),
                ..Default::default()
            })
            .collect(),
        ..Default::default()
    }
}

#[test]
fn column_for_title_matches_case_insensitively() {
    let status = status_with_titles(&["🛰 jcode/aqua main", "Browser", "🛰 jcode/coral docs"]);
    assert_eq!(column_for_title(&status, "jcode/AQUA"), Some(1));
    assert_eq!(column_for_title(&status, "coral"), Some(3));
    assert_eq!(column_for_title(&status, "nope"), None);
}

#[test]
fn column_for_title_returns_the_leftmost_match() {
    let status = status_with_titles(&["docs", "jcode/a", "jcode/b"]);
    assert_eq!(column_for_title(&status, "JCODE"), Some(2));
}

#[test]
fn column_for_title_reports_the_column_index_field() {
    let mut status = status_with_titles(&["alpha", "beta"]);
    status.columns[1].index = 7;
    assert_eq!(column_for_title(&status, "beta"), Some(7));
}

#[test]
fn column_for_title_empty_needle_matches_first_column() {
    let status = status_with_titles(&["x", "y"]);
    assert_eq!(column_for_title(&status, ""), Some(1));
    let empty = status_with_titles(&[]);
    assert_eq!(column_for_title(&empty, ""), None);
}

#[test]
fn column_for_title_lowercases_ascii_only() {
    let status = status_with_titles(&["ÄRGER", "Straße"]);
    assert_eq!(column_for_title(&status, "äRGER"), None);
    assert_eq!(column_for_title(&status, "ÄrGeR"), Some(1));
    assert_eq!(column_for_title(&status, "STRAßE"), Some(2));
}

#[test]
fn column_for_title_needle_longer_than_titles() {
    let status = status_with_titles(&["ab", "abc"]);
    assert_eq!(column_for_title(&status, "abcd"), None);
    assert_eq!(column_for_title(&status, "BC"), Some(2));
}

fn info_with_verbs(verbs: &[&str]) -> ScrollWmInfo {
    ScrollWmInfo {
        name: "ScrollWM".to_string(),
        version: "0.2.0".to_string(),
        protocol: 1,
        verbs: verbs.iter().map(|v| v.to_string()).collect(),
    }
}

#[test]
fn supports_verb_matches_exact_names() {
    let info = info_with_verbs(&["ping", "status", "arrange", "focus-title"]);
    assert_eq!(info.protocol, 1);
    assert!(info.supports_verb("focus-title"));
    assert!(!info.supports_verb("spawn-strip"));
    assert!(!info.supports_verb("FOCUS-TITLE"));
    assert!(!info.supports_verb("focus"));
}

#[test]
fn legacy_info_is_protocol_zero_without_verbs() {
    let info = legacy_info();
    assert_eq!(info.name, "ScrollWM");
    assert_eq!(info.version, "");
    assert_eq!(info.protocol, 0);
    assert!(info.verbs.is_empty());
    assert!(!info.supports_verb("ping"));
    assert!(!info.supports_verb(""));
}
