use crate::traits::Databasable;
use vstd::prelude::*;

verus! {

/// A table-qualified record identity: the table name and the key
/// within that table.
#[derive(Debug, Clone, PartialEq, Eq)]
pub struct RecordId {
    pub table: String,
    pub key: String,
}

/// The wire envelope around a content value: an optional
/// table-qualified identity, an optional owner tag, and the content
/// itself. While a value sits in the envelope its identity lives in
/// the envelope's `id` field alone, never duplicated inside the
/// content.
#[derive(Debug, Clone, PartialEq, Eq)]
pub struct Record<T> {
    pub id: Option<RecordId>,
    pub owner: Option<String>,
    pub content: T,
}

/// The key an envelope identity hands back into the content.
pub open spec fn spec_key_of(id: Option<RecordId>) -> Option<String> {
    match id {
        Some(rid) => Some(rid.key),
        None => None,
    }
}

/// The envelope produced for a content value at write time.
pub open spec fn spec_wrap<T: Databasable>(
    content: T,
    table: String,
    owner: Option<String>,
) -> Record<T> {
    match content.spec_id() {
        Some(key) => Record {
            id: Some(RecordId { table, key }),
            owner,
            content: content.spec_with_id(None),
        },
        None => Record { id: None, owner, content },
    }
}

/// The content value recovered from an envelope at read time.
pub open spec fn spec_unwrap<T: Databasable>(record: Record<T>) -> T {
    record.content.spec_with_id(spec_key_of(record.id))
}

impl<T: Databasable> Record<T> {
    /// Wraps a content value for wire transfer: an identity the
    /// content carries moves into the envelope, table-qualified, and
    /// is cleared from the content itself; the owner tag is attached
    /// as given.
    pub fn new(content: T, table: String, owner: Option<String>) -> (r: Record<T>)
        ensures
            r == spec_wrap(content, table, owner),
    {
        let mut content = content;
        match content.get_id() {
            Some(key) => {
                content.set_id(None);
                Record { id: Some(RecordId { table, key }), owner, content }
            },
            None => Record { id: None, owner, content },
        }
    }

    /// Unwraps the envelope: the envelope's key, if any, is written
    /// back into the content's identity, and the content alone is
    /// returned.
    pub fn content(self) -> (r: T)
        ensures
            r == spec_unwrap(self),
    {
        let mut content = self.content;
        match self.id {
            Some(rid) => content.set_id(Some(rid.key)),
            None => content.set_id(None),
        }
        content
    }
}

/// Round-tripping any content value through the envelope — wrapping
/// for transfer, then unwrapping what was wrapped — returns the value
/// unchanged: the identity survives and no other part of the value is
/// altered.
pub proof fn lemma_record_round_trip<T: Databasable>(
    content: T,
    table: String,
    owner: Option<String>,
)
    ensures
        spec_unwrap(spec_wrap(content, table, owner)) == content,
{
    match content.spec_id() {
        Some(key) => {
            content.lemma_identity_laws(None, Some(key));
            content.lemma_identity_laws(Some(key), Some(key));
        },
        None => {
            content.lemma_identity_laws(None, None);
        },
    }
}

/// The content recovered from an envelope carries exactly the
/// envelope's identity: in particular, unwrapping the envelope a
/// create answered hands back the key the store assigned.
pub proof fn lemma_unwrap_identity<T: Databasable>(record: Record<T>)
    ensures
        spec_unwrap(record).spec_id() == spec_key_of(record.id),
{
    record.content.lemma_identity_laws(spec_key_of(record.id), None);
}

/// Unwraps every envelope of a decoded result set, keeping the order.
pub fn unwrap_records<T: Databasable>(records: Vec<Record<T>>) -> (r: Vec<T>)
    ensures
        r@.len() == records@.len(),
        forall|i: int| 0 <= i < records@.len() ==> r@[i] == spec_unwrap(records@[i]),
{
    let ghost orig = records@;
    let mut records = records;
    let mut out: Vec<T> = Vec::new();
    while records.len() > 0
        invariant
            out@.len() + records@.len() == orig.len(),
            records@ == orig.skip(out@.len() as int),
            forall|i: int| 0 <= i < out@.len() ==> out@[i] == spec_unwrap(orig[i]),
        decreases records.len(),
    {
        let rec = records.remove(0);
        proof {
            assert(orig.skip(out@.len() as int).drop_first() =~= orig.skip(out@.len() as int + 1));
        }
        out.push(rec.content());
    }
    out
}

} // verus!
