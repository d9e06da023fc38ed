use os_bulk_index::bulk::build_bulk_body;
use os_bulk_index::bulk::create_bulk_body;
use os_bulk_index::ids::doc_id;
use os_bulk_index::timestamps::is_canonical_timestamp;

#[test]
fn test_keyed_body_one_record() {
    let chunk = vec!["{\"msg\":\"x\"}".to_string()];
    let body = create_bulk_body(&chunk, "logs", false);
    let id = doc_id("{\"msg\":\"x\"}");
    let expected = format!(
        "{{\"create\":{{\"_index\":\"logs\",\"_id\":\"{id}\"}}}}\n{{\"msg\":\"x\"}}\n"
    );
    assert_eq!(body, expected);
}

#[test]
fn test_keyed_body_preserves_order_and_pairs_lines() {
    let chunk = vec!["one".to_string(), "two".to_string(), "three".to_string()];
    let body = create_bulk_body(&chunk, "idx", false);
    let lines: Vec<&str> = body.lines().collect();
    assert_eq!(lines.len(), 6);
    for (i, record) in ["one", "two", "three"].iter().enumerate() {
        let action = lines[2 * i];
        let content = lines[2 * i + 1];
        let id = doc_id(record);
        assert_eq!(action, format!("{{\"create\":{{\"_index\":\"idx\",\"_id\":\"{id}\"}}}}"));
        assert_eq!(content, *record);
    }
}

#[test]
fn test_empty_batch_gives_empty_body() {
    let chunk: Vec<String> = Vec::new();
    assert_eq!(create_bulk_body(&chunk, "idx", false), "");
    assert_eq!(create_bulk_body(&chunk, "idx", true), "");
}

#[test]
fn test_live_body_rewrites_timestamp_and_omits_id() {
    let chunk = vec!["{\"ts\":\"2024-11-20T18:35:12.123Z\",\"msg\":\"x\"}".to_string()];
    let now = "2030-01-02T03:04:05.678Z";
    let body = build_bulk_body(&chunk, "logs", true, now);
    let expected = format!(
        "{{\"create\":{{\"_index\":\"logs\"}}}}\n{{\"ts\":\"{now}\",\"msg\":\"x\"}}\n"
    );
    assert_eq!(body, expected);
}

#[test]
fn test_live_body_uses_current_time() {
    let chunk = vec!["{\"ts\":\"2024-11-20T18:35:12.123Z\",\"msg\":\"x\"}".to_string()];
    let body = create_bulk_body(&chunk, "logs", true);
    let lines: Vec<&str> = body.lines().collect();
    assert_eq!(lines.len(), 2);
    assert_eq!(lines[0], "{\"create\":{\"_index\":\"logs\"}}");
    assert!(!body.contains("_id"));
    // the content line keeps its shape, with the timestamp substring
    // replaced by a canonical current-time string
    let content = lines[1];
    let start = content.find("\"ts\":\"").expect("ts field kept") + "\"ts\":\"".len();
    let end = content[start..].find('"').expect("closing quote kept") + start;
    let written = &content[start..end];
    assert!(is_canonical_timestamp(written), "not canonical: {written:?}");
    assert_ne!(written, "2024-11-20T18:35:12.123Z");
    assert!(content.ends_with(",\"msg\":\"x\"}"));
}

#[test]
fn test_live_body_without_timestamp_keeps_record() {
    let chunk = vec!["{\"msg\":\"no time here\"}".to_string()];
    let now = "2030-01-02T03:04:05.678Z";
    let body = build_bulk_body(&chunk, "logs", true, now);
    assert_eq!(body, "{\"create\":{\"_index\":\"logs\"}}\n{\"msg\":\"no time here\"}\n");
}
