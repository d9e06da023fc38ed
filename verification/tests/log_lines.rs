use os_bulk_index::logview::is_log_line_start;
use os_bulk_index::logview::colorize_entry;
use os_bulk_index::logview::LogEntry;

#[test]
fn test_is_log_line_start() {
    assert!(is_log_line_start("[2025-01-01T10:00:00,123][INFO ][test][node] message"));
    assert!(is_log_line_start("[2025-12-18T15:00:00,052][ERROR][class][node] error"));
    assert!(!is_log_line_start("\tat java.base/something"));
    assert!(!is_log_line_start("  continuation line"));
    assert!(!is_log_line_start("regular text"));
}

#[test]
fn test_is_log_line_start_short_lines() {
    assert!(!is_log_line_start(""));
    assert!(!is_log_line_start("[2025-"));
    // long enough in bytes, but the sixth character is not a dash
    assert!(!is_log_line_start("[20250101T10:00:00] x"));
}

#[test]
fn test_colorize_entry_plain() {
    colored::control::set_override(false);
    let entry = LogEntry {
        timestamp: "2025-01-01T10:00:00,123".to_string(),
        severity: "INFO ".to_string(),
        class: "c.a.a.c.MetricClient".to_string(),
        node_id: "abc123node456".to_string(),
        body: "flush is invoked with sync false".to_string(),
    };
    let rendered = colorize_entry(&entry);
    assert_eq!(
        rendered,
        "[2025-01-01T10:00:00,123][INFO ][c.a.a.c.MetricClient][abc123node456] flush is invoked with sync false"
    );
}
