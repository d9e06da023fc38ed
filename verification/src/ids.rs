//! Content-addressed document identifiers.
//!
//! A record's identifier is the first 12 bytes of the SHA-256 digest of its
//! raw bytes, hex-encoded in lower case. Identical record content therefore
//! always yields the same identifier, which makes re-submission of a batch an
//! idempotent "create" at the target store.

use vstd::prelude::*;
use vstd::string::StringSliceAdditionalSpecFns;

verus! {

/// The SHA-256 digest of a byte sequence. The algorithm itself is not
/// restated here; the digest is treated as an unspecified pure function of
/// the input bytes, computed by an outside crate.
pub uninterp spec fn sha256_of(bytes: Seq<u8>) -> Seq<u8>;

/// The lower-case hex character for a nibble value.
pub open spec fn hex_digit_char(n: u8) -> char
    recommends
        n < 16,
{
    seq!['0', '1', '2', '3', '4', '5', '6', '7', '8', '9', 'a', 'b', 'c', 'd', 'e', 'f'][n as int]
}

/// Lower-case hex encoding: two digits per byte, high nibble first.
pub open spec fn hex_lower_of(bytes: Seq<u8>) -> Seq<char> {
    Seq::new(
        2 * bytes.len(),
        |i: int| if i % 2 == 0 {
            hex_digit_char(bytes[i / 2] / 16)
        } else {
            hex_digit_char(bytes[i / 2] % 16)
        },
    )
}

/// The document identifier derived from a record's raw bytes: the first 12
/// digest bytes, hex-encoded.
pub open spec fn doc_id_of(bytes: Seq<u8>) -> Seq<char> {
    hex_lower_of(sha256_of(bytes).take(12))
}

/// Relies on `sha2::Sha256::digest`: the SHA-256 digest of the input, which
/// is a pure function of the input bytes and is 32 bytes long.
#[verifier::external_body]
fn sha256_digest(data: &[u8]) -> (out: Vec<u8>)
    ensures
        out@ == sha256_of(data@),
        out@.len() == 32,
{
    <sha2::Sha256 as sha2::Digest>::digest(data).to_vec()
}

/// Relies on `hex::encode`: lower-case hex, two digits per byte, high nibble
/// first.
#[verifier::external_body]
fn hex_encode(bytes: &[u8]) -> (s: String)
    ensures
        s@ == hex_lower_of(bytes@),
{
    hex::encode(bytes)
}

/// The deterministic document identifier for a record: the first 12 bytes of
/// the SHA-256 digest of its bytes, in lower-case hex (24 characters).
pub fn doc_id(record: &str) -> (id: String)
    ensures
        id@ == doc_id_of(record.spec_bytes()),
        id@.len() == 24,
{
    let mut digest = sha256_digest(record.as_bytes());
    digest.truncate(12);
    hex_encode(digest.as_slice())
}

/// Identifier determinism: records with the same content are assigned the
/// same document identifier.
pub proof fn lemma_doc_id_deterministic(a: Seq<u8>, b: Seq<u8>)
    requires
        a == b,
    ensures
        doc_id_of(a) == doc_id_of(b),
{
}

} // verus!
