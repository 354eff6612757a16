use crate::fragment::{comma_join, comma_joined, conjoin, conjoined, id_condition, id_condition_str};
use crate::scope::{owner_filter, owner_filter_str};
use vstd::prelude::*;

verus! {

/// The per-field operators of a partial update: overwrite, numeric
/// increment or container append, numeric decrement or container
/// removal.
#[derive(Debug, Clone, PartialEq, Eq)]
pub enum Operator {
    Assign,
    Add,
    Remove,
}

/// The query-language spelling of each operator.
pub open spec fn operator_str(op: Operator) -> Seq<char> {
    match op {
        Operator::Assign => "="@,
        Operator::Add => "+="@,
        Operator::Remove => "-="@,
    }
}

/// One `field <op> <literal>` assignment of a `SET` clause.
pub open spec fn assignment(key: Seq<char>, op: Operator, value: Seq<char>) -> Seq<char> {
    key + " "@ + operator_str(op) + " "@ + value
}

impl Operator {
    /// The operator as it stands in the query string.
    pub fn to_str(&self) -> (r: &'static str)
        ensures
            r@ == operator_str(*self),
    {
        match self {
            Self::Assign => "=",
            Self::Add => "+=",
            Self::Remove => "-=",
        }
    }
}

/// A fluent, single-use builder for a partial-update statement:
/// a comma-joined assignment list and a condition over the fixed
/// table. Rendering is pure; executing the rendered string against
/// the store is a collaborator's job.
#[derive(Debug, Clone)]
pub struct Change {
    pub table: String,
    pub condition: String,
    pub update: String,
}

/// The full rendering of a `Change`: `UPDATE <table> SET
/// <assignments>` with the optional `WHERE` clause and the statement
/// delimiter.
pub open spec fn rendered_change(c: Change) -> Seq<char> {
    let q = "UPDATE "@ + c.table@ + " SET "@ + c.update@;
    let q = if c.condition@.len() > 0 {
        q + " WHERE "@ + c.condition@
    } else {
        q
    };
    q + ";"@
}

impl Change {
    /// A fresh builder over `table`, seeded with the ownership filter
    /// synthesized for `owners`; the assignment list starts empty.
    pub fn new(table: String, owners: Vec<String>) -> (r: Self)
        ensures
            r.table == table,
            r.condition@ == owner_filter(owners.deep_view()),
            r.update@.len() == 0,
    {
        Self { table, condition: owner_filter_str(&owners), update: String::new() }
    }

    /// Conjoins a raw condition fragment: the first call sets the
    /// condition, later calls `AND`-join — the seeded ownership
    /// filter is never replaced.
    pub fn condition(self, condition: &str) -> (r: Self)
        ensures
            r.condition@ == conjoined(self.condition@, condition@),
            r.table == self.table,
            r.update == self.update,
    {
        let mut c = self;
        conjoin(&mut c.condition, condition);
        c
    }

    /// Conjoins the equality condition on the table-qualified
    /// identity `id`.
    pub fn id(self, id: &str) -> (r: Self)
        ensures
            r.condition@ == conjoined(self.condition@, id_condition(self.table@, id@)),
            r.table == self.table,
            r.update == self.update,
    {
        let condition = id_condition_str(self.table.as_str(), id);
        self.condition(condition.as_str())
    }

    /// Appends `key <op> <value>` to the assignment list; `value` is
    /// the query-language literal of the value to assign.
    pub fn update(self, key: &str, operator: &Operator, value: &str) -> (r: Self)
        ensures
            r.update@ == comma_joined(self.update@, assignment(key@, *operator, value@)),
            r.table == self.table,
            r.condition == self.condition,
    {
        let mut item: String = key.to_owned();
        item.append(" ");
        item.append(operator.to_str());
        item.append(" ");
        item.append(value);
        proof {
            assert(item@ =~= assignment(key@, *operator, value@));
        }
        let mut c = self;
        comma_join(&mut c.update, item.as_str());
        c
    }

    /// Pure, deterministic rendering of the update statement; no
    /// effect on the store.
    pub fn query_str(&self) -> (r: String)
        ensures
            r@ == rendered_change(*self),
    {
        let mut query: String = "UPDATE ".to_owned();
        query.append(self.table.as_str());
        query.append(" SET ");
        query.append(self.update.as_str());
        if !self.condition.as_str().is_empty() {
            query.append(" WHERE ");
            query.append(self.condition.as_str());
        }
        query.append(";");
        proof {
            assert(query@ =~= rendered_change(*self));
        }
        query
    }
}

} // verus!
