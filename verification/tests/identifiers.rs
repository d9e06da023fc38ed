use os_bulk_index::ids::doc_id;
use sha2::Digest;

#[test]
fn test_doc_id_known_vectors() {
    // first 12 bytes of the SHA-256 digests of "" and "abc", hex-encoded
    assert_eq!(doc_id(""), "e3b0c44298fc1c149afbf4c8");
    assert_eq!(doc_id("abc"), "ba7816bf8f01cfea414140de");
}

#[test]
fn test_doc_id_deterministic() {
    let a = doc_id("{\"msg\":\"hello\"}");
    let b = doc_id("{\"msg\":\"hello\"}");
    assert_eq!(a, b);
    let c = doc_id("{\"msg\":\"hello!\"}");
    assert_ne!(a, c);
}

#[test]
fn test_doc_id_matches_reference_digest() {
    let line = "some record content";
    let digest = sha2::Sha256::digest(line.as_bytes());
    let expected = hex::encode(&digest[..12]);
    assert_eq!(doc_id(line), expected);
}

#[test]
fn test_doc_id_length_and_charset() {
    let id = doc_id("anything at all");
    assert_eq!(id.len(), 24);
    assert!(id.chars().all(|c| c.is_ascii_hexdigit() && !c.is_ascii_uppercase()));
}
