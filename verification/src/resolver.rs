//! Choosing, among the rows of the permission table, the one that governs
//! a request.

use crate::directory::{membership_opt, Membership, MembershipView};
use crate::error::Error;
use crate::hashtag::texts;
use crate::order::{in_order, insert_in_order, views};
use crate::permission::{Permission, PermissionView};
use crate::text::same_text;
use vstd::prelude::*;

verus! {

/// The rows that are bound to a role, in the order of the table.
pub open spec fn of_role(rows: Seq<PermissionView>, role: Seq<char>) -> Seq<PermissionView> {
    rows.filter(|p: PermissionView| p.role == role)
}

/// The rows that grant a role access to every instance of a base resource:
/// those without hashtag.
pub open spec fn unscoped(rows: Seq<PermissionView>, role: Seq<char>, base_resource: Seq<char>) -> Seq<
    PermissionView,
> {
    rows.filter(
        |p: PermissionView|
            p.role == role && p.base_resource == base_resource && p.hashtag is None,
    )
}

/// The rows that grant a role access to an instance of a base resource
/// that carries the given tags: those without hashtag, and those whose
/// hashtag is among the tags.
pub open spec fn applicable(
    rows: Seq<PermissionView>,
    role: Seq<char>,
    base_resource: Seq<char>,
    tags: Set<Seq<char>>,
) -> Seq<PermissionView> {
    rows.filter(
        |p: PermissionView|
            p.role == role && p.base_resource == base_resource && match p.hashtag {
                None => true,
                Some(t) => tags.contains(t),
            },
    )
}

/// The one row of a selection that is expected to hold exactly one row;
/// any other number of rows is refused.
pub open spec fn the_only(m: Seq<PermissionView>) -> Result<PermissionView, Error> {
    if m.len() == 1 {
        Ok(m[0])
    } else {
        Err(Error::Forbidden)
    }
}

/// Whether `p` is a row of the selection with the highest access level.
pub open spec fn is_highest(m: Seq<PermissionView>, p: PermissionView) -> bool {
    &&& m.contains(p)
    &&& forall|i: int| 0 <= i < m.len() ==> (#[trigger] m[i]).access_level <= p.access_level
}

/// Whether `out` is a fair answer for a selection: one of its rows with the
/// highest access level, or a refusal where it is empty.
pub open spec fn picks_highest(m: Seq<PermissionView>, out: Result<PermissionView, Error>) -> bool {
    match out {
        Ok(p) => is_highest(m, p),
        Err(e) => e == Error::Forbidden && m.len() == 0,
    }
}

/// What the outcome of a selection says.
pub open spec fn outcome_view(r: Result<Permission, Error>) -> Result<PermissionView, Error> {
    match r {
        Ok(p) => Ok(p@),
        Err(e) => Err(e),
    }
}

/// The role on whose behalf a user may act: the role of a membership
/// whose user and role are both enabled.
pub open spec fn acting_role(m: Option<MembershipView>) -> Result<Seq<char>, Error> {
    match m {
        Some(x) => if x.active() {
            Ok(x.role)
        } else {
            Err(Error::Forbidden)
        },
        None => Err(Error::Forbidden),
    }
}

/// What an optional role name says.
pub open spec fn role_view(r: Result<String, Error>) -> Result<Seq<char>, Error> {
    match r {
        Ok(s) => Ok(s@),
        Err(e) => Err(e),
    }
}

/// A filter takes the rows one at a time.
pub proof fn lemma_filter_step<A>(s: Seq<A>, pred: spec_fn(A) -> bool, i: int)
    requires
        0 <= i < s.len(),
    ensures
        s.take(i + 1).filter(pred) == if pred(s[i]) {
            s.take(i).filter(pred).push(s[i])
        } else {
            s.take(i).filter(pred)
        },
{
    reveal(Seq::filter);
    assert(s.take(i + 1).drop_last() =~= s.take(i));
    assert(s.take(i + 1).last() == s[i]);
}

/// Refuses a user who is not known, not enabled, or bound to a role that
/// is not known or not enabled; otherwise gives the role.
pub fn active_role(m: Option<Membership>) -> (r: Result<String, Error>)
    ensures
        role_view(r) == acting_role(membership_opt(m)),
{
    match m {
        Some(x) => if x.user_enabled && x.role_enabled {
            Ok(x.role)
        } else {
            Err(Error::Forbidden)
        },
        None => Err(Error::Forbidden),
    }
}

/// Whether a text is among a list of texts.
pub fn has_text(list: &Vec<String>, t: &str) -> (r: bool)
    ensures
        r == texts(list@).to_set().contains(t@),
{
    let mut i: usize = 0;
    while i < list.len()
        invariant
            i <= list@.len(),
            forall|j: int| 0 <= j < i ==> texts(list@)[j] != t@,
        decreases list@.len() - i,
    {
        if same_text(list[i].as_str(), t) {
            assert(texts(list@)[i as int] == t@);
            return true;
        }
        i += 1;
    }
    false
}

/// Lists the rows that are bound to a role, in the order of listings.
pub fn list_role(rows: &Vec<Permission>, role: &str) -> (r: Vec<Permission>)
    ensures
        in_order(views(r@)),
        views(r@).to_multiset() == of_role(views(rows@), role@).to_multiset(),
{
    let ghost all = views(rows@);
    let ghost pred = |p: PermissionView| p.role == role@;
    let mut listing: Vec<Permission> = Vec::new();
    let mut i: usize = 0;
    proof {
        reveal(Seq::filter);
        assert(all.take(0).filter(pred) =~= Seq::<PermissionView>::empty());
        assert(views(listing@) =~= Seq::<PermissionView>::empty());
    }
    while i < rows.len()
        invariant
            i <= rows@.len(),
            all == views(rows@),
            pred == (|p: PermissionView| p.role == role@),
            in_order(views(listing@)),
            views(listing@).to_multiset() == all.take(i as int).filter(pred).to_multiset(),
        decreases rows@.len() - i,
    {
        proof {
            lemma_filter_step(all, pred, i as int);
            all.take(i as int).filter(pred).to_multiset_ensures();
            assert(all[i as int] == rows@[i as int]@);
        }
        if same_text(rows[i].role.as_str(), role) {
            insert_in_order(&mut listing, rows[i].clone());
        }
        i += 1;
    }
    proof {
        assert(all.take(i as int) =~= all);
    }
    listing
}

/// Selects the row without hashtag that grants a role access to a base
/// resource. Exactly one such row is expected: none, or more than one, is
/// refused.
pub fn select_unscoped(rows: &Vec<Permission>, role: &str, base_resource: &str) -> (r: Result<
    Permission,
    Error,
>)
    ensures
        outcome_view(r) == the_only(unscoped(views(rows@), role@, base_resource@)),
{
    let ghost all = views(rows@);
    let ghost pred = |p: PermissionView|
        p.role == role@ && p.base_resource == base_resource@ && p.hashtag is None;
    let mut count: usize = 0;
    let mut first: usize = 0;
    let mut i: usize = 0;
    proof {
        reveal(Seq::filter);
        assert(all.take(0).filter(pred) =~= Seq::<PermissionView>::empty());
    }
    while i < rows.len()
        invariant
            i <= rows@.len(),
            all == views(rows@),
            pred == (|p: PermissionView|
                p.role == role@ && p.base_resource == base_resource@ && p.hashtag is None),
            count == all.take(i as int).filter(pred).len(),
            count <= i,
            count > 0 ==> first < i && all.take(i as int).filter(pred)[0] == all[first as int],
        decreases rows@.len() - i,
    {
        proof {
            lemma_filter_step(all, pred, i as int);
            assert(all[i as int] == rows@[i as int]@);
        }
        let p = &rows[i];
        if same_text(p.role.as_str(), role) && same_text(p.base_resource.as_str(), base_resource)
            && p.hashtag.is_none() {
            if count == 0 {
                first = i;
            }
            count += 1;
        }
        i += 1;
    }
    proof {
        assert(all.take(i as int) =~= all);
    }
    if count == 1 {
        Ok(rows[first].clone())
    } else {
        Err(Error::Forbidden)
    }
}

/// Selects, among the rows that grant a role access to an instance of a
/// base resource carrying the given tags, one with the highest access
/// level. Which one, where several share it, is left open.
pub fn select_highest(
    rows: &Vec<Permission>,
    role: &str,
    base_resource: &str,
    tags: &Vec<String>,
) -> (r: Result<Permission, Error>)
    ensures
        picks_highest(
            applicable(views(rows@), role@, base_resource@, texts(tags@).to_set()),
            outcome_view(r),
        ),
{
    let ghost all = views(rows@);
    let ghost tagset = texts(tags@).to_set();
    let ghost pred = |p: PermissionView|
        p.role == role@ && p.base_resource == base_resource@ && match p.hashtag {
            None => true,
            Some(t) => tagset.contains(t),
        };
    let mut best: Option<usize> = None;
    let mut i: usize = 0;
    proof {
        reveal(Seq::filter);
        assert(all.take(0).filter(pred) =~= Seq::<PermissionView>::empty());
    }
    while i < rows.len()
        invariant
            i <= rows@.len(),
            all == views(rows@),
            tagset == texts(tags@).to_set(),
            pred == (|p: PermissionView|
                p.role == role@ && p.base_resource == base_resource@ && match p.hashtag {
                    None => true,
                    Some(t) => tagset.contains(t),
                }),
            match best {
                Some(k) => k < i && is_highest(all.take(i as int).filter(pred), all[k as int]),
                None => all.take(i as int).filter(pred).len() == 0,
            },
        decreases rows@.len() - i,
    {
        let ghost seen = all.take(i as int).filter(pred);
        proof {
            lemma_filter_step(all, pred, i as int);
            assert(all[i as int] == rows@[i as int]@);
        }
        let p = &rows[i];
        let tagged = match &p.hashtag {
            None => true,
            Some(t) => has_text(tags, t.as_str()),
        };
        if tagged && same_text(p.role.as_str(), role) && same_text(
            p.base_resource.as_str(),
            base_resource,
        ) {
            let ghost now = seen.push(all[i as int]);
            match best {
                Some(k) => {
                    if rows[k].access_level < p.access_level {
                        best = Some(i);
                        proof {
                            assert(now[seen.len() as int] == all[i as int]);
                            assert forall|j: int| 0 <= j < now.len() implies (#[trigger] now[j]).access_level
                                <= all[i as int].access_level by {
                                if j < seen.len() {
                                    assert(now[j] == seen[j]);
                                }
                            }
                        }
                    } else {
                        proof {
                            let w = choose|w: int| 0 <= w < seen.len() && seen[w] == all[k as int];
                            assert(now[w] == all[k as int]);
                            assert forall|j: int| 0 <= j < now.len() implies (#[trigger] now[j]).access_level
                                <= all[k as int].access_level by {
                                if j < seen.len() {
                                    assert(now[j] == seen[j]);
                                }
                            }
                        }
                    }
                },
                None => {
                    best = Some(i);
                    proof {
                        assert(now[0] == all[i as int]);
                    }
                },
            }
        }
        i += 1;
    }
    proof {
        assert(all.take(i as int) =~= all);
    }
    match best {
        Some(k) => Ok(rows[k].clone()),
        None => Err(Error::Forbidden),
    }
}

} // verus!
