use os_bulk_index::store::DocStore;
use os_bulk_index::ids::doc_id;

#[test]
fn test_duplicate_create_is_rejected() {
    let mut store = DocStore::new();
    assert!(store.create("id-1".to_string(), "first".to_string()));
    assert!(!store.create("id-1".to_string(), "second".to_string()));
    assert_eq!(store.doc_count(), 1);
    assert!(store.contains_id("id-1"));
    assert!(!store.contains_id("id-2"));
}

#[test]
fn test_resubmitting_a_batch_is_a_noop() {
    // a keyed batch: each record stored under its content-derived id
    let records = ["{\"a\":1}", "{\"b\":2}", "{\"c\":3}"];
    let mut store = DocStore::new();
    for record in records {
        assert!(store.create(doc_id(record), record.to_string()));
    }
    assert_eq!(store.doc_count(), 3);
    // the same batch again: every create is rejected, nothing duplicated
    for record in records {
        assert!(!store.create(doc_id(record), record.to_string()));
    }
    assert_eq!(store.doc_count(), 3);
}

#[test]
fn test_batch_with_equal_records_stores_one() {
    let mut store = DocStore::new();
    assert!(store.create(doc_id("same line"), "same line".to_string()));
    assert!(!store.create(doc_id("same line"), "same line".to_string()));
    assert_eq!(store.doc_count(), 1);
}
