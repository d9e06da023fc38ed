use os_bulk_index::timestamps::current_timestamp;
use os_bulk_index::timestamps::is_canonical_timestamp;
use os_bulk_index::timestamps::replace_timestamps;
use os_bulk_index::timestamps::replace_timestamps_with;

const NOW: &str = "2030-01-02T03:04:05.678Z";

/// The reference pattern the rewriter must agree with.
fn reference_rewrite(line: &str) -> String {
    let re = regex::Regex::new(
        r"\d{4}-\d{2}-\d{2}[T ]\d{2}:\d{2}:\d{2}(?:\.\d{3,9})?(?:Z|[+-]\d{2}:\d{2})?",
    )
    .unwrap();
    re.replace_all(line, NOW).to_string()
}

#[test]
fn test_rewrite_forms() {
    for line in [
        "2024-11-20T18:35:12.123Z",
        "2024-11-20T18:35:12Z",
        "2024-11-20T18:35:12.123+00:00",
        "2024-11-20T18:35:12.123456789-07:30",
        "2024-11-20 18:35:12",
        "2024-11-20T18:35:12",
    ] {
        assert_eq!(replace_timestamps_with(line, NOW), NOW, "line: {line:?}");
    }
}

#[test]
fn test_rewrite_embedded_and_multiple() {
    let line = "a 2024-11-20T18:35:12.123Z b 2025-01-01 00:00:00 c";
    assert_eq!(
        replace_timestamps_with(line, NOW),
        format!("a {NOW} b {NOW} c")
    );
}

#[test]
fn test_rewrite_leaves_non_matches_alone() {
    for line in [
        "",
        "no timestamps here",
        "2024-11-20",
        "18:35:12",
        "2024-11-20X18:35:12",
        "202-11-20T18:35:12",
    ] {
        assert_eq!(replace_timestamps_with(line, NOW), line, "line: {line:?}");
    }
}

#[test]
fn test_rewrite_short_fraction_left_behind() {
    // a fraction of fewer than three digits is not part of the match
    let line = "x 2024-11-20T18:35:12.12Z y";
    assert_eq!(replace_timestamps_with(line, NOW), format!("x {NOW}.12Z y"));
}

#[test]
fn test_rewrite_long_fraction_truncated_at_nine() {
    // the greedy fraction stops at nine digits; the rest stays
    let line = "2024-11-20T18:35:12.1234567890Z";
    assert_eq!(replace_timestamps_with(line, NOW), format!("{NOW}0Z"));
}

#[test]
fn test_rewrite_does_not_validate_field_ranges() {
    // like the reference pattern, digits are not range-checked
    assert_eq!(replace_timestamps_with("2024-13-99 99:99:99", NOW), NOW);
}

#[test]
fn test_rewrite_agrees_with_reference_pattern() {
    for line in [
        "2024-11-20T18:35:12.123Z",
        "2024-11-20T18:35:12.12Z",
        "2024-11-20T18:35:12.1234567890Z",
        "{\"ts\":\"2024-11-20T18:35:12.123Z\",\"msg\":\"x\"}",
        "start 2024-11-20 18:35:12 middle 2024-11-20T18:35:12+05:00 end",
        "2024-11-20T18:35:12.123456789",
        "2024-11-20T18:35:12.",
        "2024-11-20T18:35:12-05:0",
        "9999-99-99T99:99:99Z",
        "nothing to see",
        "2024-11-20T18:35:122024-11-20T18:35:12",
        "..2024-11-20T18:35:12.123+05:30..",
    ] {
        assert_eq!(
            replace_timestamps_with(line, NOW),
            reference_rewrite(line),
            "line: {line:?}"
        );
    }
}

#[test]
fn test_current_timestamp_is_canonical() {
    let now = current_timestamp();
    assert!(is_canonical_timestamp(&now), "not canonical: {now:?}");
}

#[test]
fn test_replace_timestamps_writes_canonical_time() {
    let out = replace_timestamps("ts=2024-11-20T18:35:12.123Z done");
    assert!(out.starts_with("ts="));
    assert!(out.ends_with(" done"));
    let written = &out["ts=".len()..out.len() - " done".len()];
    assert!(is_canonical_timestamp(written), "not canonical: {written:?}");
}

#[test]
fn test_canonical_shape_checks() {
    assert!(is_canonical_timestamp("2030-01-02T03:04:05.678Z"));
    assert!(!is_canonical_timestamp("2030-01-02 03:04:05.678Z"));
    assert!(!is_canonical_timestamp("2030-01-02T03:04:05Z"));
    assert!(!is_canonical_timestamp("2030-01-02T03:04:05.678"));
    assert!(!is_canonical_timestamp(""));
}
