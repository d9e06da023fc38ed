//! Model of the target store's `create` semantics.
//!
//! A bulk `create` inserts a document under its identifier only if that
//! identifier is not already present; a duplicate is ignored, never
//! duplicated. Together with deterministic identifiers this makes
//! re-submission of a successfully indexed batch a no-op.

use vstd::prelude::*;
use crate::ids::doc_id_of;
use crate::text::str_eq;
use vstd::utf8::encode_utf8;

verus! {

/// One `create`: insert under `id` unless `id` is already present.
pub open spec fn create_doc(
    store: Map<Seq<char>, Seq<char>>,
    id: Seq<char>,
    doc: Seq<char>,
) -> Map<Seq<char>, Seq<char>> {
    if store.dom().contains(id) {
        store
    } else {
        store.insert(id, doc)
    }
}

/// A batch of `create`s, applied in order.
pub open spec fn apply_batch(
    store: Map<Seq<char>, Seq<char>>,
    entries: Seq<(Seq<char>, Seq<char>)>,
) -> Map<Seq<char>, Seq<char>>
    decreases entries.len(),
{
    if entries.len() == 0 {
        store
    } else {
        apply_batch(create_doc(store, entries[0].0, entries[0].1), entries.drop_first())
    }
}

/// The identifier-and-content entries of a keyed batch: each record keyed
/// by its content-derived document identifier.
pub open spec fn keyed_entries_of(records: Seq<Seq<char>>) -> Seq<(Seq<char>, Seq<char>)> {
    records.map_values(|r: Seq<char>| (doc_id_of(encode_utf8(r)), r))
}

/// Applying a batch only ever grows the set of stored identifiers.
pub proof fn lemma_apply_batch_dom_grows(
    store: Map<Seq<char>, Seq<char>>,
    entries: Seq<(Seq<char>, Seq<char>)>,
    id: Seq<char>,
)
    requires
        store.dom().contains(id),
    ensures
        apply_batch(store, entries).dom().contains(id),
    decreases entries.len(),
{
    if entries.len() > 0 {
        lemma_apply_batch_dom_grows(create_doc(store, entries[0].0, entries[0].1), entries.drop_first(), id);
    }
}

/// After a batch is applied, every identifier of the batch is stored.
pub proof fn lemma_apply_batch_ids_present(
    store: Map<Seq<char>, Seq<char>>,
    entries: Seq<(Seq<char>, Seq<char>)>,
    k: int,
)
    requires
        0 <= k < entries.len(),
    ensures
        apply_batch(store, entries).dom().contains(entries[k].0),
    decreases entries.len(),
{
    let store1 = create_doc(store, entries[0].0, entries[0].1);
    if k == 0 {
        lemma_apply_batch_dom_grows(store1, entries.drop_first(), entries[0].0);
    } else {
        lemma_apply_batch_ids_present(store1, entries.drop_first(), k - 1);
    }
}

/// A batch whose identifiers are all already stored changes nothing.
pub proof fn lemma_apply_batch_noop(
    store: Map<Seq<char>, Seq<char>>,
    entries: Seq<(Seq<char>, Seq<char>)>,
)
    requires
        forall|k: int| 0 <= k < entries.len() ==> store.dom().contains(#[trigger] entries[k].0),
    ensures
        apply_batch(store, entries) == store,
    decreases entries.len(),
{
    if entries.len() > 0 {
        assert(store.dom().contains(entries[0].0));
        assert(create_doc(store, entries[0].0, entries[0].1) == store);
        assert(forall|k: int|
            0 <= k < entries.drop_first().len() ==> store.dom().contains(
                #[trigger] entries.drop_first()[k].0,
            ));
        lemma_apply_batch_noop(store, entries.drop_first());
    }
}

/// Idempotence: re-applying an already applied batch is a no-op — duplicate
/// `create`s are ignored, not duplicated.
pub proof fn lemma_apply_batch_idempotent(
    store: Map<Seq<char>, Seq<char>>,
    entries: Seq<(Seq<char>, Seq<char>)>,
)
    ensures
        apply_batch(apply_batch(store, entries), entries) == apply_batch(store, entries),
{
    let once = apply_batch(store, entries);
    assert forall|k: int| 0 <= k < entries.len() implies once.dom().contains(
        #[trigger] entries[k].0,
    ) by {
        lemma_apply_batch_ids_present(store, entries, k);
    }
    lemma_apply_batch_noop(once, entries);
}

/// Idempotence of a keyed batch: in non-live mode a batch's entries are
/// keyed by deterministic, content-derived identifiers, so resubmitting the
/// same records leaves the store exactly as the first submission did.
pub proof fn lemma_keyed_resubmission_noop(
    store: Map<Seq<char>, Seq<char>>,
    records: Seq<Seq<char>>,
)
    ensures
        apply_batch(apply_batch(store, keyed_entries_of(records)), keyed_entries_of(records))
            == apply_batch(store, keyed_entries_of(records)),
{
    lemma_apply_batch_idempotent(store, keyed_entries_of(records));
}

/// A stored document: its identifier and its content.
pub struct StoredDoc {
    pub id: String,
    pub content: String,
}

/// The store contents described by a list of stored documents, first
/// occurrence of an identifier winning.
pub open spec fn contents_of(entries: Seq<StoredDoc>) -> Map<Seq<char>, Seq<char>>
    decreases entries.len(),
{
    if entries.len() == 0 {
        Map::empty()
    } else {
        create_doc(contents_of(entries.drop_last()), entries.last().id@, entries.last().content@)
    }
}

/// An identifier is stored exactly when some entry carries it.
pub proof fn lemma_contents_dom(entries: Seq<StoredDoc>, x: Seq<char>)
    ensures
        contents_of(entries).dom().contains(x) <==> exists|j: int|
            0 <= j < entries.len() && entries[j].id@ == x,
    decreases entries.len(),
{
    if entries.len() > 0 {
        lemma_contents_dom(entries.drop_last(), x);
        if contents_of(entries).dom().contains(x) {
            if entries.last().id@ == x {
                assert(entries[entries.len() - 1].id@ == x);
            }
        }
        if exists|j: int| 0 <= j < entries.len() && entries[j].id@ == x {
            let j = choose|j: int| 0 <= j < entries.len() && entries[j].id@ == x;
            if j < entries.len() - 1 {
                assert(entries.drop_last()[j].id@ == x);
            }
        }
    }
}

/// An executable mock of the target store, faithful to the `create`
/// semantics: a duplicate identifier is rejected, not duplicated.
pub struct DocStore {
    pub entries: Vec<StoredDoc>,
}

impl DocStore {
    /// What the store holds, as a map from identifier to content.
    pub open spec fn contents(&self) -> Map<Seq<char>, Seq<char>> {
        contents_of(self.entries@)
    }

    pub fn new() -> (s: Self)
        ensures
            s.contents() == Map::<Seq<char>, Seq<char>>::empty(),
            s.entries@.len() == 0,
    {
        DocStore { entries: Vec::new() }
    }

    pub fn doc_count(&self) -> (n: usize)
        ensures
            n == self.entries@.len(),
    {
        self.entries.len()
    }

    /// Whether a document with this identifier is stored.
    pub fn contains_id(&self, id: &str) -> (r: bool)
        ensures
            r == self.contents().dom().contains(id@),
    {
        let mut i: usize = 0;
        let n = self.entries.len();
        while i < n
            invariant
                i <= n,
                n == self.entries@.len(),
                forall|j: int| 0 <= j < i ==> self.entries@[j].id@ != id@,
            decreases n - i,
        {
            if str_eq(self.entries[i].id.as_str(), id) {
                proof {
                    lemma_contents_dom(self.entries@, id@);
                }
                return true;
            }
            i = i + 1;
        }
        proof {
            lemma_contents_dom(self.entries@, id@);
        }
        false
    }

    /// One bulk `create`: stores the document unless its identifier is
    /// already present, and reports whether it was stored.
    pub fn create(&mut self, id: String, content: String) -> (inserted: bool)
        ensures
            final(self).contents() == create_doc(old(self).contents(), id@, content@),
            inserted <==> !old(self).contents().dom().contains(id@),
            inserted ==> final(self).entries@.len() == old(self).entries@.len() + 1,
            !inserted ==> final(self).entries@ == old(self).entries@,
    {
        if self.contains_id(id.as_str()) {
            return false;
        }
        let ghost pre = self.entries@;
        self.entries.push(StoredDoc { id, content });
        proof {
            assert(self.entries@.drop_last() =~= pre);
        }
        true
    }
}

} // verus!
