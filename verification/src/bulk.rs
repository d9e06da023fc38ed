//! Bulk request bodies.
//!
//! A batch is serialized into the target store's bulk action protocol: for
//! each record, one `create` action-metadata line naming the target index —
//! and, unless live mode is on, the record's deterministic document
//! identifier — followed by the record's raw content and a newline. In live
//! mode the identifier is omitted (the server assigns one) and timestamp
//! substrings in the record are rewritten to the current time.

use vstd::prelude::*;
use vstd::utf8::encode_utf8;
use crate::ids::doc_id_of;
use crate::ids::doc_id;
use crate::timestamps::ts_replace_all;
use crate::timestamps::is_canonical_ts;
use crate::timestamps::replace_timestamps_with;
use crate::timestamps::current_timestamp;
use vstd::string::StringExecFns;

verus! {

/// The action-metadata line for one record in keyed (non-live) mode.
pub open spec fn action_line_keyed(index: Seq<char>, id: Seq<char>) -> Seq<char> {
    "{\"create\":{\"_index\":\""@ + index + "\",\"_id\":\""@ + id + "\"}}\n"@
}

/// The action-metadata line for one record in live mode: no identifier.
pub open spec fn action_line_live(index: Seq<char>) -> Seq<char> {
    "{\"create\":{\"_index\":\""@ + index + "\"}}\n"@
}

/// The two lines contributed by one record: its action-metadata line, then
/// its content (timestamp-rewritten in live mode) and a newline.
pub open spec fn bulk_entry_of(record: Seq<char>, index: Seq<char>, live: bool, now: Seq<char>) -> Seq<char> {
    if live {
        action_line_live(index) + ts_replace_all(record, now) + "\n"@
    } else {
        action_line_keyed(index, doc_id_of(encode_utf8(record))) + record + "\n"@
    }
}

/// The whole bulk body: the records' entries, in order.
pub open spec fn bulk_body_of(records: Seq<Seq<char>>, index: Seq<char>, live: bool, now: Seq<char>) -> Seq<char>
    decreases records.len(),
{
    if records.len() == 0 {
        Seq::empty()
    } else {
        bulk_body_of(records.drop_last(), index, live, now) + bulk_entry_of(
            records.last(),
            index,
            live,
            now,
        )
    }
}

/// Serialize a batch with an explicit replacement timestamp. The result is
/// exactly the concatenation of each record's entry: deterministic in the
/// arguments, so a retry that reuses the result sends identical bytes.
pub fn build_bulk_body(chunk: &Vec<String>, index: &str, live: bool, now: &str) -> (body: String)
    ensures
        body@ == bulk_body_of(chunk.deep_view(), index@, live, now@),
{
    let mut body = String::new();
    let mut k: usize = 0;
    while k < chunk.len()
        invariant
            k <= chunk@.len(),
            body@ == bulk_body_of(chunk.deep_view().take(k as int), index@, live, now@),
        decreases chunk@.len() - k,
    {
        let line = &chunk[k];
        if live {
            body.append("{\"create\":{\"_index\":\"");
            body.append(index);
            body.append("\"}}\n");
            let updated = replace_timestamps_with(line.as_str(), now);
            body.append(updated.as_str());
        } else {
            let id = doc_id(line.as_str());
            body.append("{\"create\":{\"_index\":\"");
            body.append(index);
            body.append("\",\"_id\":\"");
            body.append(id.as_str());
            body.append("\"}}\n");
            body.append(line.as_str());
        }
        body.append("\n");
        proof {
            let deep = chunk.deep_view();
            assert(deep.take((k + 1) as int).drop_last() =~= deep.take(k as int));
            assert(deep.take((k + 1) as int).last() == line@);
            assert(body@ =~= bulk_body_of(deep.take((k + 1) as int), index@, live, now@));
        }
        k = k + 1;
    }
    proof {
        assert(chunk.deep_view().take(k as int) =~= chunk.deep_view());
    }
    body
}

/// Serialize a batch for the bulk endpoint. In keyed (non-live) mode the
/// result is the deterministic serialization of the batch; in live mode the
/// records' timestamps are rewritten to one canonical current-time string,
/// the same for every record of the batch.
pub fn create_bulk_body(chunk: &Vec<String>, index: &str, live: bool) -> (body: String)
    ensures
        !live ==> body@ == bulk_body_of(chunk.deep_view(), index@, false, Seq::<char>::empty()),
        live ==> exists|ts: Seq<char>|
            is_canonical_ts(ts) && body@ == bulk_body_of(chunk.deep_view(), index@, true, ts),
{
    if live {
        let now = current_timestamp();
        let body = build_bulk_body(chunk, index, true, now.as_str());
        proof {
            assert(is_canonical_ts(now@) && body@ == bulk_body_of(
                chunk.deep_view(),
                index@,
                true,
                now@,
            ));
        }
        body
    } else {
        let body = build_bulk_body(chunk, index, false, "");
        proof {
            reveal_strlit("");
            lemma_bulk_body_ignores_now(chunk.deep_view(), index@, ""@, Seq::<char>::empty());
        }
        body
    }
}

/// In keyed mode the replacement timestamp plays no part: any two choices
/// give the same body.
pub proof fn lemma_bulk_body_ignores_now(
    records: Seq<Seq<char>>,
    index: Seq<char>,
    now1: Seq<char>,
    now2: Seq<char>,
)
    ensures
        bulk_body_of(records, index, false, now1) == bulk_body_of(records, index, false, now2),
    decreases records.len(),
{
    if records.len() > 0 {
        lemma_bulk_body_ignores_now(records.drop_last(), index, now1, now2);
    }
}

} // verus!
