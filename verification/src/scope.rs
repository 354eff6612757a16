use vstd::prelude::*;

verus! {

/// The owner value that grants a global administrative bypass.
pub open spec fn admin_owner() -> Seq<char> {
    "admin"@
}

/// An owner scope is unrestricted when it is empty or names the
/// administrative sentinel: no ownership filter is applied.
pub open spec fn scope_unrestricted(owners: Seq<Seq<char>>) -> bool {
    owners.len() == 0 || owners.contains(admin_owner())
}

/// Whether a row carrying owner tag `tag` is visible under the scope:
/// everything under an unrestricted scope, otherwise exactly the rows
/// whose tag is one of the scope's owners.
pub open spec fn scope_admits(owners: Seq<Seq<char>>, tag: Option<Seq<char>>) -> bool {
    scope_unrestricted(owners) || (tag matches Some(t) && owners.contains(t))
}

/// An owner value wrapped in double quotes.
pub open spec fn quoted(owner: Seq<char>) -> Seq<char> {
    "\""@ + owner + "\""@
}

/// The comma-joined list of quoted owner values.
pub open spec fn quoted_list(owners: Seq<Seq<char>>) -> Seq<char>
    decreases owners.len(),
{
    if owners.len() == 0 {
        Seq::empty()
    } else if owners.len() == 1 {
        quoted(owners[0])
    } else {
        quoted_list(owners.drop_last()) + ","@ + quoted(owners.last())
    }
}

/// The condition fragment synthesized for an owner scope: empty for an
/// unrestricted scope, an equality test for a single owner, a
/// set-membership test for several.
pub open spec fn owner_filter(owners: Seq<Seq<char>>) -> Seq<char> {
    if scope_unrestricted(owners) {
        Seq::empty()
    } else if owners.len() > 1 {
        "owner in ["@ + quoted_list(owners) + "]"@
    } else {
        "owner == "@ + quoted(owners[0])
    }
}

/// Whether the scope names the administrative sentinel.
pub fn contains_admin(owners: &Vec<String>) -> (r: bool)
    ensures
        r == owners.deep_view().contains(admin_owner()),
{
    let admin: String = "admin".to_owned();
    let mut i: usize = 0;
    while i < owners.len()
        invariant
            i <= owners.len(),
            admin@ == admin_owner(),
            forall|j: int| 0 <= j < i ==> owners.deep_view()[j] != admin_owner(),
        decreases owners.len() - i,
    {
        if owners[i].eq(&admin) {
            assert(owners.deep_view()[i as int] == admin_owner());
            return true;
        }
        i += 1;
    }
    false
}

/// Renders the ownership filter fragment for an owner scope.
pub fn owner_filter_str(owners: &Vec<String>) -> (r: String)
    ensures
        r@ == owner_filter(owners.deep_view()),
{
    let ghost dv = owners.deep_view();
    if contains_admin(owners) || owners.len() == 0 {
        let r = String::new();
        proof {
            assert(r@ =~= owner_filter(dv));
        }
        r
    } else if owners.len() > 1 {
        let mut q: String = "owner in [".to_owned();
        let mut i: usize = 0;
        while i < owners.len()
            invariant
                i <= owners.len(),
                owners.len() > 1,
                q@ == "owner in ["@ + quoted_list(dv.take(i as int)),
                dv == owners.deep_view(),
            decreases owners.len() - i,
        {
            if i > 0 {
                q.append(",");
            }
            q.append("\"");
            q.append(owners[i].as_str());
            q.append("\"");
            proof {
                let t = dv.take(i as int + 1);
                if i == 0 {
                    assert(q@ =~= "owner in ["@ + quoted_list(t));
                } else {
                    assert(t.drop_last() =~= dv.take(i as int));
                    assert(t.last() == dv[i as int]);
                    assert(q@ =~= "owner in ["@ + quoted_list(t));
                }
            }
            i += 1;
        }
        q.append("]");
        proof {
            assert(dv.take(owners.len() as int) =~= dv);
            assert(q@ =~= owner_filter(dv));
        }
        q
    } else {
        let mut q: String = "owner == ".to_owned();
        q.append("\"");
        q.append(owners[0].as_str());
        q.append("\"");
        proof {
            assert(q@ =~= owner_filter(dv));
        }
        q
    }
}

/// An unrestricted scope — empty or naming the administrative
/// sentinel — admits every row, whatever its owner tag, and its
/// synthesized filter is the empty fragment.
pub proof fn lemma_unrestricted_scope(owners: Seq<Seq<char>>, tag: Option<Seq<char>>)
    requires
        scope_unrestricted(owners),
    ensures
        scope_admits(owners, tag),
        owner_filter(owners) == Seq::<char>::empty(),
{
}

/// The synthesized filter is empty exactly for the unrestricted
/// scopes: any restricted scope always contributes a condition.
pub proof fn lemma_filter_empty_iff_unrestricted(owners: Seq<Seq<char>>)
    ensures
        owner_filter(owners).len() == 0 <==> scope_unrestricted(owners),
{
    if !scope_unrestricted(owners) {
        reveal_strlit("owner in [");
        reveal_strlit("owner == ");
        reveal_strlit("\"");
    }
}

/// Under a scope of exactly one owner that is not the administrative
/// sentinel, a row is admitted exactly when its tag equals that owner.
pub proof fn lemma_single_owner_scope(owners: Seq<Seq<char>>, tag: Option<Seq<char>>)
    requires
        owners.len() == 1,
        !scope_unrestricted(owners),
    ensures
        scope_admits(owners, tag) <==> tag == Some(owners[0]),
{
    if tag is Some && owners.contains(tag->Some_0) {
        assert(tag->Some_0 == owners[0]);
    }
    if tag == Some(owners[0]) {
        assert(owners.contains(owners[0]));
    }
}

/// Under a scope of two or more owners without the administrative
/// sentinel, a row is admitted exactly when its tag is one of the
/// listed owners: membership, not equality against any single one.
pub proof fn lemma_multi_owner_scope(owners: Seq<Seq<char>>, tag: Option<Seq<char>>)
    requires
        owners.len() >= 2,
        !scope_unrestricted(owners),
    ensures
        scope_admits(owners, tag) <==> (tag matches Some(t) && owners.contains(t)),
{
}

} // verus!
