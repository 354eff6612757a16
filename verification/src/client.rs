use crate::change::Change;
use crate::error::{is_library_error, Error};
use crate::record::{spec_unwrap, spec_wrap, Record};
use crate::scope::{owner_filter, owner_filter_str, scope_unrestricted};
use crate::select::Select;
use crate::traits::Databasable;
use vstd::prelude::*;

verus! {

/// The client-side scope configuration: an optional active table and
/// an ordered owner list. Each scoping call derives a new
/// configuration by value; the connection itself is an external
/// collaborator that executes the strings this type plans.
#[derive(Debug, Clone)]
pub struct Client {
    pub table: Option<String>,
    pub owners: Vec<String>,
}

/// The owner tag attached to records written under a scope: its
/// first owner, if any.
pub open spec fn first_owner_of(owners: Seq<String>) -> Option<String> {
    if owners.len() > 0 {
        Some(owners[0])
    } else {
        None
    }
}

/// The first of the two authorization count queries: whether a row
/// exists at the table-qualified identity.
pub open spec fn exists_query(table: Seq<char>, id: Seq<char>) -> Seq<char> {
    "count(SELECT id FROM "@ + table + " WHERE id == "@ + table + ":"@ + id + ") == 1;"@
}

/// The second authorization count query: whether the row at the
/// identity also satisfies the scope's ownership filter.
pub open spec fn owned_query(table: Seq<char>, id: Seq<char>, owners: Seq<Seq<char>>) -> Seq<char> {
    "count(SELECT id FROM "@ + table + " WHERE id =="@ + table + ":"@ + id + " AND "@
        + owner_filter(owners) + ") == 1;"@
}

/// The two rendered count queries of one authorization round trip.
#[derive(Debug, Clone)]
pub struct AuthQueries {
    pub exists_query: String,
    pub owned_query: String,
}

/// The envelope and addressing data of a single-item create: the
/// table, the explicit key if the content carried one, and the wire
/// record.
#[derive(Debug, Clone)]
pub struct CreatePlan<T> {
    pub table: String,
    pub key: Option<String>,
    pub record: Record<T>,
}

/// The addressing, authorization and envelope data of a single-item
/// update aimed at one existing identity.
#[derive(Debug, Clone)]
pub struct MutationPlan<T> {
    pub table: String,
    pub key: String,
    pub auth: Option<AuthQueries>,
    pub record: Record<T>,
}

/// The addressing and authorization data of a single-item delete:
/// the same demands as an update, with nothing to send.
#[derive(Debug, Clone)]
pub struct DeletePlan {
    pub table: String,
    pub key: String,
    pub auth: Option<AuthQueries>,
}

/// What follows a single-target update: the returned row unwrapped,
/// or a fallback to create when the target was absent (upsert).
pub enum UpdateOutcome<T> {
    Done(Vec<T>),
    CreateFallback,
}

/// Whether every item of a batch succeeded.
pub open spec fn all_ok<T>(results: Seq<Result<Vec<T>, Error>>) -> bool {
    forall|i: int| 0 <= i < results.len() ==> results[i] is Ok
}

/// The report folded from the per-item outcomes of a batch, in input
/// order: the joined rows when every item succeeded, else the error
/// of the first failed item.
pub open spec fn batch_report<T>(results: Seq<Result<Vec<T>, Error>>) -> Result<Seq<T>, Error>
    decreases results.len(),
{
    if results.len() == 0 {
        Ok(Seq::empty())
    } else {
        match results[0] {
            Err(e) => Err(e),
            Ok(v) => match batch_report(results.drop_first()) {
                Ok(rest) => Ok(v@ + rest),
                Err(e) => Err(e),
            },
        }
    }
}

impl Client {
    /// A fresh, entirely unscoped configuration: no active table, an
    /// empty (unrestricted) owner scope.
    pub fn new() -> (r: Self)
        ensures
            r.table is None,
            r.owners@.len() == 0,
    {
        Self { table: None, owners: Vec::new() }
    }

    /// A copy of this configuration scoped to `table`.
    pub fn table(&self, table: &str) -> (r: Self)
        ensures
            r.table matches Some(t) && t@ == table@,
            r.owners@ == self.owners@,
    {
        Self { table: Some(table.to_owned()), owners: self.owners.clone() }
    }

    /// A copy of this configuration scoped to the single owner
    /// `owner`.
    pub fn owner(&self, owner: &str) -> (r: Self)
        ensures
            r.table == self.table,
            r.owners@.len() == 1 && r.owners@[0]@ == owner@,
    {
        let mut owners: Vec<String> = Vec::new();
        owners.push(owner.to_owned());
        Self { table: self.table.clone(), owners }
    }

    /// A copy of this configuration scoped to the owner list
    /// `owners`.
    pub fn owners(&self, owners: Vec<String>) -> (r: Self)
        ensures
            r.table == self.table,
            r.owners == owners,
    {
        Self { table: self.table.clone(), owners }
    }

    /// The active table, or the scope-configuration error when none
    /// has been set.
    fn get_table(&self) -> (r: Result<String, Error>)
        ensures
            self.table is None ==> (r matches Err(e) && is_library_error(e, "table is none"@)),
            self.table matches Some(t) ==> r == Ok::<String, Error>(t),
    {
        match &self.table {
            Some(t) => Ok(t.clone()),
            None => Err(Error::new("table is none")),
        }
    }

    /// The owner tag for records written under this scope.
    fn first_owner(&self) -> (r: Option<String>)
        ensures
            r == first_owner_of(self.owners@),
    {
        if self.owners.len() > 0 {
            Some(self.owners[0].clone())
        } else {
            None
        }
    }

    /// A read builder over the active table, seeded with this scope's
    /// ownership filter; the scope-configuration error when no table
    /// is set.
    pub fn select(self) -> (r: Result<Select, Error>)
        ensures
            self.table is None ==> (r matches Err(e) && is_library_error(e, "table is none"@)),
            self.table matches Some(t) ==> (r matches Ok(s) && s.table == t && s.fields@.len() == 0
                && s.condition@ == owner_filter(self.owners.deep_view()) && s.fetch@.len() == 0
                && s.wrapper@.len() == 0 && s.order_by@.len() == 0),
    {
        let table = match self.get_table() {
            Ok(t) => t,
            Err(e) => { return Err(e) },
        };
        Ok(Select::new(table, self.owners))
    }

    /// An update builder over the active table, seeded with this
    /// scope's ownership filter; the scope-configuration error when
    /// no table is set.
    pub fn change(self) -> (r: Result<Change, Error>)
        ensures
            self.table is None ==> (r matches Err(e) && is_library_error(e, "table is none"@)),
            self.table matches Some(t) ==> (r matches Ok(c) && c.table == t && c.condition@
                == owner_filter(self.owners.deep_view()) && c.update@.len() == 0),
    {
        let table = match self.get_table() {
            Ok(t) => t,
            Err(e) => { return Err(e) },
        };
        Ok(Change::new(table, self.owners))
    }

    /// Plans the authorization round trip for the record at `id`:
    /// nothing to ask under an unrestricted scope, otherwise the two
    /// count queries to run against the store, whose answers
    /// `auth_decision` turns into the outcome.
    pub fn auth_plan(&self, id: &str) -> (r: Result<Option<AuthQueries>, Error>)
        ensures
            scope_unrestricted(self.owners.deep_view()) ==> (r matches Ok(o) && o is None),
            !scope_unrestricted(self.owners.deep_view()) && self.table is None ==> (r matches Err(e)
                && is_library_error(e, "table is none"@)),
            self.table matches Some(t) ==> (!scope_unrestricted(self.owners.deep_view()) ==> (
            r matches Ok(o) && (o matches Some(q) && q.exists_query@ == exists_query(t@, id@)
                && q.owned_query@ == owned_query(t@, id@, self.owners.deep_view())))),
    {
        if self.owners.len() == 0 {
            return Ok(None);
        }
        if crate::scope::contains_admin(&self.owners) {
            return Ok(None);
        }
        let table = match self.get_table() {
            Ok(t) => t,
            Err(e) => { return Err(e) },
        };
        Ok(Some(auth_queries(table.as_str(), id, &self.owners)))
    }
}

/// Renders the two authorization count queries for one identity
/// under one owner scope.
fn auth_queries(table: &str, id: &str, owners: &Vec<String>) -> (r: AuthQueries)
    ensures
        r.exists_query@ == exists_query(table@, id@),
        r.owned_query@ == owned_query(table@, id@, owners.deep_view()),
{
    let mut q1: String = "count(SELECT id FROM ".to_owned();
    q1.append(table);
    q1.append(" WHERE id == ");
    q1.append(table);
    q1.append(":");
    q1.append(id);
    q1.append(") == 1;");
    let mut q2: String = "count(SELECT id FROM ".to_owned();
    q2.append(table);
    q2.append(" WHERE id ==");
    q2.append(table);
    q2.append(":");
    q2.append(id);
    q2.append(" AND ");
    let filter = owner_filter_str(owners);
    q2.append(filter.as_str());
    q2.append(") == 1;");
    proof {
        assert(q1@ =~= exists_query(table@, id@));
        assert(q2@ =~= owned_query(table@, id@, owners.deep_view()));
    }
    AuthQueries { exists_query: q1, owned_query: q2 }
}

/// The authorization decision from the two count answers: a record
/// that does not exist passes through (the store operation itself
/// reports not-found); one that exists must be owned by a scope
/// member, else the authorization error.
pub fn auth_decision(exists: bool, owned: bool) -> (r: Result<(), Error>)
    ensures
        !exists ==> r is Ok,
        exists && owned ==> r is Ok,
        exists && !owned ==> (r matches Err(e) && is_library_error(e, "not authorized"@)),
{
    if !exists {
        Ok(())
    } else if owned {
        Ok(())
    } else {
        Err(Error::new("not authorized"))
    }
}

impl Client {
    /// Plans a single-item create: the target address — the content's
    /// own identity if it carries one, otherwise a store-assigned
    /// key — and the wire envelope tagged with the scope's first
    /// owner.
    pub fn create_one_plan<T: Databasable>(&self, content: T) -> (r: Result<CreatePlan<T>, Error>)
        ensures
            self.table is None ==> (r matches Err(e) && is_library_error(e, "no table given"@)),
            self.table matches Some(t) ==> (r matches Ok(p) && p.table == t && p.key
                == content.spec_id() && p.record == spec_wrap(content, t, first_owner_of(
                self.owners@,
            ))),
    {
        let table = match &self.table {
            Some(t) => t.clone(),
            None => { return Err(Error::new("no table given")) },
        };
        let key = content.get_id();
        let record = Record::new(content, table.clone(), self.first_owner());
        Ok(CreatePlan { table, key, record })
    }

    /// Plans a single-item update: requires the active table and a
    /// content identity, and carries the authorization queries the
    /// scope demands together with the wire envelope.
    pub fn update_one_plan<T: Databasable>(&self, content: T) -> (r: Result<MutationPlan<T>, Error>)
        ensures
            self.table is None ==> (r matches Err(e) && is_library_error(e, "no table given"@)),
            self.table is Some && content.spec_id() is None ==> (r matches Err(e)
                && is_library_error(e, "no id given"@)),
            self.table matches Some(t) ==> (content.spec_id() matches Some(k) ==> (r matches Ok(p)
                && p.table == t && p.key == k && p.record == spec_wrap(content, t, first_owner_of(
                self.owners@,
            )) && (scope_unrestricted(self.owners.deep_view()) ==> p.auth is None) && (
            !scope_unrestricted(self.owners.deep_view()) ==> (p.auth matches Some(q)
                && q.exists_query@ == exists_query(t@, k@) && q.owned_query@ == owned_query(
                t@,
                k@,
                self.owners.deep_view(),
            ))))),
    {
        let table = match &self.table {
            Some(t) => t.clone(),
            None => { return Err(Error::new("no table given")) },
        };
        let key = match content.get_id() {
            Some(k) => k,
            None => { return Err(Error::new("no id given")) },
        };
        let auth = match self.auth_plan(key.as_str()) {
            Ok(a) => a,
            Err(e) => { return Err(e) },
        };
        let record = Record::new(content, table.clone(), self.first_owner());
        Ok(MutationPlan { table, key, auth, record })
    }

    /// Plans a single-item delete: the active table and the content's
    /// identity are required, and the scope's authorization queries
    /// come along; the delete itself sends no envelope.
    pub fn delete_one_plan<T: Databasable>(&self, content: T) -> (r: Result<DeletePlan, Error>)
        ensures
            self.table is None ==> (r matches Err(e) && is_library_error(e, "no table given"@)),
            self.table is Some && content.spec_id() is None ==> (r matches Err(e)
                && is_library_error(e, "no id given"@)),
            self.table matches Some(t) ==> (content.spec_id() matches Some(k) ==> (r matches Ok(p)
                && p.table == t && p.key == k && (scope_unrestricted(self.owners.deep_view())
                ==> p.auth is None) && (!scope_unrestricted(self.owners.deep_view())
                ==> (p.auth matches Some(q) && q.exists_query@ == exists_query(t@, k@)
                && q.owned_query@ == owned_query(t@, k@, self.owners.deep_view()))))),
    {
        let table = match &self.table {
            Some(t) => t.clone(),
            None => { return Err(Error::new("no table given")) },
        };
        let key = match content.get_id() {
            Some(k) => k,
            None => { return Err(Error::new("no id given")) },
        };
        let auth = match self.auth_plan(key.as_str()) {
            Ok(a) => a,
            Err(e) => { return Err(e) },
        };
        Ok(DeletePlan { table, key, auth })
    }
}

/// The outcome of a single-target mutation from the store's reply:
/// the returned row unwrapped, or the empty-result-on-mutation error
/// when the store reported success with no row.
pub fn single_mutation_result<T: Databasable>(row: Option<Record<T>>) -> (r: Result<Vec<T>, Error>)
    ensures
        row matches Some(rec) ==> (r matches Ok(v) && v@.len() == 1 && v@[0] == spec_unwrap(rec)),
        row is None ==> (r matches Err(e) && is_library_error(e, "record is none"@)),
{
    match row {
        Some(rec) => {
            let mut v: Vec<T> = Vec::new();
            v.push(rec.content());
            Ok(v)
        },
        None => Err(Error::new("record is none")),
    }
}

/// The decision after a single-target update: a returned row is the
/// result; an absent row means the target did not exist and the
/// operation falls back to creating it (upsert).
pub fn update_one_outcome<T: Databasable>(row: Option<Record<T>>) -> (r: UpdateOutcome<T>)
    ensures
        row matches Some(rec) ==> (r matches UpdateOutcome::Done(v) && v@.len() == 1 && v@[0]
            == spec_unwrap(rec)),
        row is None ==> r is CreateFallback,
{
    match row {
        Some(rec) => {
            let mut v: Vec<T> = Vec::new();
            v.push(rec.content());
            UpdateOutcome::Done(v)
        },
        None => UpdateOutcome::CreateFallback,
    }
}

/// Folds the per-item outcomes of a batch, in input order, into one
/// report: the joined rows when every item succeeded, else the error
/// of the first failed item — later outcomes, success or failure,
/// are discarded from the report although every item was attempted.
#[verifier::loop_isolation(false)]
pub fn fold_batch<T>(results: Vec<Result<Vec<T>, Error>>) -> (r: Result<Vec<T>, Error>)
    ensures
        r matches Ok(v) ==> (batch_report(results@) matches Ok(s) && s == v@),
        r matches Err(e) ==> (batch_report(results@) matches Err(e2) && e2 == e),
        (r is Ok <==> all_ok(results@)),
{
    let ghost orig = results@;
    let mut results = results;
    let mut acc: Vec<T> = Vec::new();
    let ghost mut done: int = 0;
    proof {
        assert(orig.skip(0) =~= orig);
        if batch_report(orig) is Ok {
            assert(Seq::<T>::empty() + batch_report(orig)->Ok_0 =~= batch_report(orig)->Ok_0);
        }
    }
    while results.len() > 0
        invariant
            0 <= done,
            done + results@.len() == orig.len(),
            results@ == orig.skip(done),
            forall|j: int| 0 <= j < done ==> orig[j] is Ok,
            batch_report(orig.skip(done)) matches Ok(rest) ==> (batch_report(orig) matches Ok(s)
                && s == acc@ + rest),
            batch_report(orig.skip(done)) matches Err(e) ==> batch_report(orig) == Err::<
                Seq<T>,
                Error,
            >(e),
        decreases results.len(),
    {
        let ghost before = orig.skip(done);
        let next = results.remove(0);
        proof {
            assert(before[0] == orig[done]);
            assert(before.drop_first() =~= orig.skip(done + 1));
        }
        match next {
            Ok(mut rows) => {
                proof {
                    if batch_report(orig.skip(done + 1)) is Ok {
                        let rest = batch_report(orig.skip(done + 1))->Ok_0;
                        assert(batch_report(before) matches Ok(s) && s == rows@ + rest);
                        assert(acc@ + (rows@ + rest) =~= (acc@ + rows@) + rest);
                    }
                }
                acc.append(&mut rows);
            },
            Err(e) => {
                proof {
                    assert(batch_report(before) == Err::<Seq<T>, Error>(e));
                    assert(!all_ok(orig)) by {
                        assert(!(orig[done] is Ok));
                    }
                }
                return Err(e);
            },
        }
        proof {
            done = done + 1;
        }
    }
    proof {
        assert(orig.skip(done) =~= Seq::<Result<Vec<T>, Error>>::empty());
        assert(batch_report(orig.skip(done)) matches Ok(rest) && rest.len() == 0);
        assert(batch_report(orig) matches Ok(s) && s == acc@ + Seq::<T>::empty());
        assert(acc@ + Seq::<T>::empty() =~= acc@);
        assert(all_ok(orig)) by {
            assert(forall|j: int| 0 <= j < done ==> orig[j] is Ok);
        }
    }
    Ok(acc)
}

/// When every item of a batch succeeds, the folded report succeeds.
pub proof fn lemma_batch_all_ok<T>(results: Seq<Result<Vec<T>, Error>>)
    requires
        all_ok(results),
    ensures
        batch_report(results) is Ok,
    decreases results.len(),
{
    if results.len() > 0 {
        assert(results[0] is Ok);
        assert(all_ok(results.drop_first())) by {
            assert(forall|i: int|
                0 <= i < results.drop_first().len() ==> results.drop_first()[i] == results[i + 1]);
        }
        lemma_batch_all_ok(results.drop_first());
    }
}

/// Over a batch whose items up to `k` succeed and whose item `k`
/// fails, the folded report is exactly item `k`'s error — the first
/// failure in input order, whatever the later items did.
pub proof fn lemma_batch_first_error<T>(results: Seq<Result<Vec<T>, Error>>, k: int)
    requires
        0 <= k < results.len(),
        forall|j: int| 0 <= j < k ==> results[j] is Ok,
        results[k] is Err,
    ensures
        batch_report(results) == Err::<Seq<T>, Error>(results[k]->Err_0),
    decreases k,
{
    if k == 0 {
    } else {
        assert(results[0] is Ok);
        let rest = results.drop_first();
        assert(rest[k - 1] == results[k]);
        assert(forall|j: int| 0 <= j < k - 1 ==> rest[j] == results[j + 1]);
        lemma_batch_first_error(rest, k - 1);
    }
}

} // verus!
