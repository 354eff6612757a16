use vstd::prelude::*;

verus! {

/// A caller-supplied fragment conjoined onto an accumulated
/// condition: the first fragment sets the condition, later ones are
/// `AND`-joined onto it.
pub open spec fn conjoined(cur: Seq<char>, fragment: Seq<char>) -> Seq<char> {
    if cur.len() == 0 {
        fragment
    } else {
        cur + " AND "@ + fragment
    }
}

/// An item appended onto a comma-separated list.
pub open spec fn comma_joined(cur: Seq<char>, item: Seq<char>) -> Seq<char> {
    if cur.len() == 0 {
        item
    } else {
        cur + ", "@ + item
    }
}

/// The equality condition addressing one table-qualified identity.
pub open spec fn id_condition(table: Seq<char>, id: Seq<char>) -> Seq<char> {
    "id = "@ + table + ":"@ + id
}

/// Conjoins `fragment` onto the condition accumulated in `cur`.
pub fn conjoin(cur: &mut String, fragment: &str)
    ensures
        final(cur)@ == conjoined(old(cur)@, fragment@),
{
    if cur.as_str().is_empty() {
        *cur = fragment.to_owned();
    } else {
        cur.append(" AND ");
        cur.append(fragment);
    }
}

/// Appends `item` onto the comma-separated list accumulated in `cur`.
pub fn comma_join(cur: &mut String, item: &str)
    ensures
        final(cur)@ == comma_joined(old(cur)@, item@),
{
    if cur.as_str().is_empty() {
        *cur = item.to_owned();
    } else {
        cur.append(", ");
        cur.append(item);
    }
}

/// Renders the equality condition addressing one table-qualified
/// identity.
pub fn id_condition_str(table: &str, id: &str) -> (r: String)
    ensures
        r@ == id_condition(table@, id@),
{
    let mut r: String = "id = ".to_owned();
    r.append(table);
    r.append(":");
    r.append(id);
    proof {
        assert(r@ =~= id_condition(table@, id@));
    }
    r
}

} // verus!
