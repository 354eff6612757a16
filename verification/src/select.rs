use crate::error::Error;
use crate::fragment::{comma_join, comma_joined, conjoin, conjoined, id_condition, id_condition_str};
use crate::scope::{owner_filter, owner_filter_str};
use vstd::prelude::*;

verus! {

/// A fluent, single-use builder for a read query: accumulated
/// fragments plus the fixed table name. Rendering is pure; executing
/// the rendered string against the store is a collaborator's job.
#[derive(Debug, Clone)]
pub struct Select {
    pub table: String,
    pub fields: String,
    pub condition: String,
    pub fetch: String,
    pub wrapper: Vec<(String, String)>,
    pub order_by: String,
}

/// The query before wrapping: `SELECT <fields|*> FROM <table>` with
/// the optional `WHERE`, `FETCH` and `ORDER BY` clauses.
pub open spec fn base_query(s: Select) -> Seq<char> {
    let fields = if s.fields@.len() > 0 {
        s.fields@
    } else {
        "*"@
    };
    let q = "SELECT "@ + fields + " FROM "@ + s.table@;
    let q = if s.condition@.len() > 0 {
        q + " WHERE "@ + s.condition@
    } else {
        q
    };
    let q = if s.fetch@.len() > 0 {
        q + " FETCH "@ + s.fetch@
    } else {
        q
    };
    if s.order_by@.len() > 0 {
        q + " ORDER BY "@ + s.order_by@
    } else {
        q
    }
}

/// The registered wrappers applied outward in registration order:
/// each wrapper wraps the string rendered so far.
pub open spec fn wrapped(q: Seq<char>, ws: Seq<(String, String)>) -> Seq<char>
    decreases ws.len(),
{
    if ws.len() == 0 {
        q
    } else {
        wrapped(ws[0].0@ + q + ws[0].1@, ws.drop_first())
    }
}

/// The full rendering of a `Select`: the base query, wrapped, with
/// the statement delimiter.
pub open spec fn rendered_select(s: Select) -> Seq<char> {
    wrapped(base_query(s), s.wrapper@) + ";"@
}

/// The suffix of the textual wrap produced by `wrapper_js`: the
/// argument list closed, the function body in braces.
pub open spec fn js_wrapper_suffix(body: Seq<char>) -> Seq<char> {
    "){"@ + body + "}"@
}

/// The inline-transform body mapping over the result set.
pub open spec fn js_map_body(function: Seq<char>) -> Seq<char> {
    "return arguments[0].map(element => "@ + function + ")"@
}

/// The inline-transform body mapping over the result set and
/// unpacking its first element, with an empty-result fallback.
pub open spec fn js_map_unpack_body(function: Seq<char>) -> Seq<char> {
    "if (arguments[0].length > 0) {return arguments[0].map(element => "@ + function
        + ")[0]} else {return []}"@
}

impl Select {
    /// A fresh builder over `table`, seeded with the ownership filter
    /// synthesized for `owners`; every other fragment starts empty.
    pub fn new(table: String, owners: Vec<String>) -> (r: Self)
        ensures
            r.table == table,
            r.fields@.len() == 0,
            r.condition@ == owner_filter(owners.deep_view()),
            r.fetch@.len() == 0,
            r.wrapper@.len() == 0,
            r.order_by@.len() == 0,
    {
        Self {
            table,
            fields: String::new(),
            condition: owner_filter_str(&owners),
            fetch: String::new(),
            wrapper: Vec::new(),
            order_by: String::new(),
        }
    }

    /// Conjoins a raw condition fragment: the first call sets the
    /// condition, later calls `AND`-join — the seeded ownership
    /// filter is never replaced.
    pub fn condition(self, condition: &str) -> (r: Self)
        ensures
            r.condition@ == conjoined(self.condition@, condition@),
            r.table == self.table,
            r.fields == self.fields,
            r.fetch == self.fetch,
            r.wrapper == self.wrapper,
            r.order_by == self.order_by,
    {
        let mut s = self;
        conjoin(&mut s.condition, condition);
        s
    }

    /// Conjoins the equality condition on the table-qualified
    /// identity `id`.
    pub fn id(self, id: &str) -> (r: Self)
        ensures
            r.condition@ == conjoined(self.condition@, id_condition(self.table@, id@)),
            r.table == self.table,
            r.fields == self.fields,
            r.fetch == self.fetch,
            r.wrapper == self.wrapper,
            r.order_by == self.order_by,
    {
        let condition = id_condition_str(self.table.as_str(), id);
        self.condition(condition.as_str())
    }

    /// Appends a projected field; a builder with no field projects
    /// all fields.
    pub fn field(self, field: &str) -> (r: Self)
        ensures
            r.fields@ == comma_joined(self.fields@, field@),
            r.table == self.table,
            r.condition == self.condition,
            r.fetch == self.fetch,
            r.wrapper == self.wrapper,
            r.order_by == self.order_by,
    {
        let mut s = self;
        comma_join(&mut s.fields, field);
        s
    }

    /// Sets the record-expansion clause; the last call wins.
    pub fn fetch(self, field: &str) -> (r: Self)
        ensures
            r.fetch@ == field@,
            r.table == self.table,
            r.fields == self.fields,
            r.condition == self.condition,
            r.wrapper == self.wrapper,
            r.order_by == self.order_by,
    {
        let mut s = self;
        s.fetch = field.to_owned();
        s
    }

    /// Sets the ordering clause; the last call wins.
    pub fn order_by(self, field: &str) -> (r: Self)
        ensures
            r.order_by@ == field@,
            r.table == self.table,
            r.fields == self.fields,
            r.condition == self.condition,
            r.fetch == self.fetch,
            r.wrapper == self.wrapper,
    {
        let mut s = self;
        s.order_by = field.to_owned();
        s
    }

    /// Registers a textual wrap applied around the whole query at
    /// render time; wrappers nest in registration order, each new one
    /// wrapping the string rendered so far.
    pub fn wrapper(self, wrapper: (&str, &str)) -> (r: Self)
        ensures
            r.wrapper@.len() == self.wrapper@.len() + 1,
            forall|i: int| 0 <= i < self.wrapper@.len() ==> r.wrapper@[i] == self.wrapper@[i],
            r.wrapper@.last().0@ == wrapper.0@,
            r.wrapper@.last().1@ == wrapper.1@,
            r.table == self.table,
            r.fields == self.fields,
            r.condition == self.condition,
            r.fetch == self.fetch,
            r.order_by == self.order_by,
    {
        let mut s = self;
        s.wrapper.push((wrapper.0.to_owned(), wrapper.1.to_owned()));
        s
    }

    /// Wraps the query in a call of the named function.
    pub fn wrapper_fn(self, function: &str) -> (r: Self)
        ensures
            r.wrapper@.len() == self.wrapper@.len() + 1,
            forall|i: int| 0 <= i < self.wrapper@.len() ==> r.wrapper@[i] == self.wrapper@[i],
            r.wrapper@.last().0@ == function@ + "("@,
            r.wrapper@.last().1@ == ")"@,
            r.table == self.table,
            r.fields == self.fields,
            r.condition == self.condition,
            r.fetch == self.fetch,
            r.order_by == self.order_by,
    {
        let mut prefix: String = function.to_owned();
        prefix.append("(");
        self.wrapper((prefix.as_str(), ")"))
    }

    /// Wraps the query in an inline transform expression whose body
    /// is `function`.
    pub fn wrapper_js(self, function: &str) -> (r: Self)
        ensures
            r.wrapper@.len() == self.wrapper@.len() + 1,
            forall|i: int| 0 <= i < self.wrapper@.len() ==> r.wrapper@[i] == self.wrapper@[i],
            r.wrapper@.last().0@ == "function("@,
            r.wrapper@.last().1@ == js_wrapper_suffix(function@),
            r.table == self.table,
            r.fields == self.fields,
            r.condition == self.condition,
            r.fetch == self.fetch,
            r.order_by == self.order_by,
    {
        let mut suffix: String = "){".to_owned();
        suffix.append(function);
        suffix.append("}");
        proof {
            assert(suffix@ =~= js_wrapper_suffix(function@));
        }
        self.wrapper(("function(", suffix.as_str()))
    }

    /// Wraps the query in an inline transform that maps `function`
    /// over the result set.
    pub fn wrapper_js_map(self, function: &str) -> (r: Self)
        ensures
            r.wrapper@.len() == self.wrapper@.len() + 1,
            forall|i: int| 0 <= i < self.wrapper@.len() ==> r.wrapper@[i] == self.wrapper@[i],
            r.wrapper@.last().0@ == "function("@,
            r.wrapper@.last().1@ == js_wrapper_suffix(js_map_body(function@)),
            r.table == self.table,
            r.fields == self.fields,
            r.condition == self.condition,
            r.fetch == self.fetch,
            r.order_by == self.order_by,
    {
        let mut body: String = "return arguments[0].map(element => ".to_owned();
        body.append(function);
        body.append(")");
        proof {
            assert(body@ =~= js_map_body(function@));
        }
        self.wrapper_js(body.as_str())
    }

    /// Wraps the query in an inline transform that maps `function`
    /// over the result set and unpacks the first element, falling
    /// back to an empty result.
    pub fn wrapper_js_map_unpack(self, function: &str) -> (r: Self)
        ensures
            r.wrapper@.len() == self.wrapper@.len() + 1,
            forall|i: int| 0 <= i < self.wrapper@.len() ==> r.wrapper@[i] == self.wrapper@[i],
            r.wrapper@.last().0@ == "function("@,
            r.wrapper@.last().1@ == js_wrapper_suffix(js_map_unpack_body(function@)),
            r.table == self.table,
            r.fields == self.fields,
            r.condition == self.condition,
            r.fetch == self.fetch,
            r.order_by == self.order_by,
    {
        let mut body: String = "if (arguments[0].length > 0) {return arguments[0].map(element => "
            .to_owned();
        body.append(function);
        body.append(")[0]} else {return []}");
        proof {
            assert(body@ =~= js_map_unpack_body(function@));
        }
        self.wrapper_js(body.as_str())
    }

    /// Pure, deterministic rendering of the query string; no effect
    /// on the store.
    pub fn query_str(&self) -> (r: String)
        ensures
            r@ == rendered_select(*self),
    {
        let mut query: String = if self.fields.as_str().is_empty() {
            let mut q: String = "SELECT ".to_owned();
            q.append("*");
            q
        } else {
            let mut q: String = "SELECT ".to_owned();
            q.append(self.fields.as_str());
            q
        };
        query.append(" FROM ");
        query.append(self.table.as_str());
        if !self.condition.as_str().is_empty() {
            query.append(" WHERE ");
            query.append(self.condition.as_str());
        }
        if !self.fetch.as_str().is_empty() {
            query.append(" FETCH ");
            query.append(self.fetch.as_str());
        }
        if !self.order_by.as_str().is_empty() {
            query.append(" ORDER BY ");
            query.append(self.order_by.as_str());
        }
        proof {
            assert(query@ =~= base_query(*self));
            assert(self.wrapper@.skip(0) =~= self.wrapper@);
        }
        let ghost ws = self.wrapper@;
        let mut i: usize = 0;
        while i < self.wrapper.len()
            invariant
                i <= self.wrapper.len(),
                ws == self.wrapper@,
                wrapped(query@, ws.skip(i as int)) == wrapped(base_query(*self), ws),
            decreases self.wrapper.len() - i,
        {
            let prefix = &self.wrapper[i].0;
            let suffix = &self.wrapper[i].1;
            let mut wrapped_query = prefix.clone();
            wrapped_query.append(query.as_str());
            wrapped_query.append(suffix.as_str());
            proof {
                assert(ws.skip(i as int).drop_first() =~= ws.skip(i as int + 1));
                assert(ws.skip(i as int)[0] == ws[i as int]);
                assert(wrapped(wrapped_query@, ws.skip(i as int + 1)) == wrapped(
                    query@,
                    ws.skip(i as int),
                ));
            }
            query = wrapped_query;
            i += 1;
        }
        proof {
            assert(ws.skip(self.wrapper.len() as int) =~= Seq::<(String, String)>::empty());
        }
        query.append(";");
        query
    }
}

/// The first row of a single-result query, or the not-found error on
/// an empty result set.
pub fn first_or_not_found<T>(rows: Vec<T>) -> (r: Result<T, Error>)
    ensures
        rows@.len() == 0 ==> (r matches Err(e) && e matches Error::FancySurreal(m) && m@
            == "404 Not Found"@),
        rows@.len() > 0 ==> (r matches Ok(v) && v == rows@[0]),
{
    let mut rows = rows;
    if rows.len() > 0 {
        Ok(rows.remove(0))
    } else {
        Err(Error::new("404 Not Found"))
    }
}

/// The first row of a result set known to be non-empty.
pub fn take_first<T>(rows: Vec<T>) -> (r: T)
    requires
        rows@.len() > 0,
    ensures
        r == rows@[0],
{
    let mut rows = rows;
    rows.remove(0)
}

} // verus!
