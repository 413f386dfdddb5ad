//! What holds of the operations on the store, whatever it holds.

use crate::database::{lemma_inserted_wf, lemma_updated_wf, DatabaseView};
use crate::error::Error;
use crate::hashtag::tags_of;
use crate::lookup::{lemma_position_distinct, lemma_position_none};
use crate::order::{hashtag_le, listed_before};
use crate::json::MemberView;
use crate::patch::{patch_of_members, patched, PatchView};
use crate::permission::{PermissionView, DEFAULT_ACCESS_LEVEL};
use crate::resolver::acting_role;
use crate::text::{lemma_bytes_le_reflexive, text_le};
use vstd::prelude::*;
use vstd::utf8::encode_utf8;

verus! {

/// A row of a filtered table is a row of the table, and passes the filter.
proof fn lemma_filtered_row<A>(s: Seq<A>, pred: spec_fn(A) -> bool, i: int)
    requires
        0 <= i < s.filter(pred).len(),
    ensures
        pred(s.filter(pred)[i]),
        s.contains(s.filter(pred)[i]),
{
    s.lemma_filter_pred(pred, i);
    assert(s.filter(pred).contains(s.filter(pred)[i]));
    s.lemma_filter_contains_rev(pred, s.filter(pred)[i]);
}

/// A user who may not act is refused: whoever is not known, not enabled,
/// or bound to a role that is not known or not enabled.
pub proof fn law_inactive_is_refused(
    db: DatabaseView,
    user: Seq<char>,
    base_resource: Seq<char>,
    instance: Option<Seq<char>>,
    out: Result<PermissionView, Error>,
)
    requires
        db.resolves(user, base_resource, instance, out),
        acting_role(db.directory.lookup_role(user)) is Err,
    ensures
        out == Err::<PermissionView, Error>(Error::Forbidden),
{
}

/// A user bound to a disabled role is refused, whatever rows there are.
pub proof fn law_disabled_role_is_refused(
    db: DatabaseView,
    user: Seq<char>,
    base_resource: Seq<char>,
    instance: Option<Seq<char>>,
    out: Result<PermissionView, Error>,
)
    requires
        db.resolves(user, base_resource, instance, out),
        db.directory.user(user) matches Some(u) && db.directory.role(u.role) matches Some(r)
            && !r.enabled,
    ensures
        out == Err::<PermissionView, Error>(Error::Forbidden),
{
}

/// A disabled user is refused, whatever rows there are.
pub proof fn law_disabled_user_is_refused(
    db: DatabaseView,
    user: Seq<char>,
    base_resource: Seq<char>,
    instance: Option<Seq<char>>,
    out: Result<PermissionView, Error>,
)
    requires
        db.resolves(user, base_resource, instance, out),
        db.directory.user(user) matches Some(u) && !u.enabled,
    ensures
        out == Err::<PermissionView, Error>(Error::Forbidden),
{
}

/// Where no row grants the user's role anything on the base resource, the
/// user is refused.
pub proof fn law_no_row_is_refused(
    db: DatabaseView,
    user: Seq<char>,
    base_resource: Seq<char>,
    instance: Option<Seq<char>>,
    out: Result<PermissionView, Error>,
)
    requires
        db.resolves(user, base_resource, instance, out),
        forall|i: int|
            0 <= i < db.permissions.len() ==> !(acting_role(db.directory.lookup_role(user)) == Ok::<
                Seq<char>,
                Error,
            >((#[trigger] db.permissions[i]).role) && db.permissions[i].base_resource
                == base_resource),
    ensures
        out == Err::<PermissionView, Error>(Error::Forbidden),
{
    if let Ok(role) = acting_role(db.directory.lookup_role(user)) {
        match instance {
            None => {
                let pred = |p: PermissionView|
                    p.role == role && p.base_resource == base_resource && p.hashtag is None;
                if db.permissions.filter(pred).len() > 0 {
                    lemma_filtered_row(db.permissions, pred, 0);
                }
            },
            Some(n) => {
                let tags = tags_of(db.hashtags, base_resource, n);
                let pred = |p: PermissionView|
                    p.role == role && p.base_resource == base_resource && match p.hashtag {
                        None => true,
                        Some(t) => tags.contains(t),
                    };
                if db.permissions.filter(pred).len() > 0 {
                    lemma_filtered_row(db.permissions, pred, 0);
                }
            },
        }
    }
}

/// A permission that answers a request is a row of the table; the user may
/// act and is bound to its role; it is for the base resource asked for;
/// and its hashtag, if it has one, is a tag of the instance asked for.
pub proof fn law_answer_applies(
    db: DatabaseView,
    user: Seq<char>,
    base_resource: Seq<char>,
    instance: Option<Seq<char>>,
    p: PermissionView,
)
    requires
        db.resolves(user, base_resource, instance, Ok(p)),
    ensures
        db.permissions.contains(p),
        db.directory.lookup_role(user) matches Some(m) && m.active() && m.role == p.role,
        p.base_resource == base_resource,
        match p.hashtag {
            None => true,
            Some(t) => instance matches Some(n) && tags_of(db.hashtags, base_resource, n).contains(
                t,
            ),
        },
{
    let role = acting_role(db.directory.lookup_role(user))->Ok_0;
    match instance {
        None => {
            let pred = |p: PermissionView|
                p.role == role && p.base_resource == base_resource && p.hashtag is None;
            lemma_filtered_row(db.permissions, pred, 0);
        },
        Some(n) => {
            let tags = tags_of(db.hashtags, base_resource, n);
            let pred = |p: PermissionView|
                p.role == role && p.base_resource == base_resource && match p.hashtag {
                    None => true,
                    Some(t) => tags.contains(t),
                };
            let m = db.permissions.filter(pred);
            let k = choose|k: int| 0 <= k < m.len() && m[k] == p;
            lemma_filtered_row(db.permissions, pred, k);
        },
    }
}

/// No applicable row has a higher access level than the permission that
/// answers a request for an instance.
pub proof fn law_answer_is_highest(
    db: DatabaseView,
    user: Seq<char>,
    base_resource: Seq<char>,
    n: Seq<char>,
    p: PermissionView,
    i: int,
)
    requires
        db.resolves(user, base_resource, Some(n), Ok(p)),
        0 <= i < db.permissions.len(),
        db.permissions[i].role == p.role,
        db.permissions[i].base_resource == base_resource,
        match db.permissions[i].hashtag {
            None => true,
            Some(t) => tags_of(db.hashtags, base_resource, n).contains(t),
        },
    ensures
        db.permissions[i].access_level <= p.access_level,
{
    law_answer_applies(db, user, base_resource, Some(n), p);
    let role = p.role;
    let tags = tags_of(db.hashtags, base_resource, n);
    let pred = |p: PermissionView|
        p.role == role && p.base_resource == base_resource && match p.hashtag {
            None => true,
            Some(t) => tags.contains(t),
        };
    let m = db.permissions.filter(pred);
    db.permissions.lemma_filter_contains(pred, i);
    let k = choose|k: int| 0 <= k < m.len() && m[k] == db.permissions[i];
    assert(m[k].access_level <= p.access_level);
}

/// Patching a name that no permission has gives `NotFound` and changes
/// nothing.
pub proof fn law_patch_unknown_name(db: DatabaseView, name: Seq<char>, d: PatchView)
    requires
        !db.has(name),
    ensures
        db.patch(name, d) == (db, Err::<(), Error>(Error::NotFound)),
{
    lemma_position_none(db.names(), name);
}

/// A request to patch a name that no permission has gives `NotFound` and
/// changes nothing, whether the request is a partial update or a refusal.
pub proof fn law_patch_request_unknown_name(
    db: DatabaseView,
    name: Seq<char>,
    request: Result<PatchView, Error>,
)
    requires
        !db.has(name),
    ensures
        db.patch_request(name, request) == (db, Err::<(), Error>(Error::NotFound)),
{
    lemma_position_none(db.names(), name);
}

/// A document that gives an access level which is an integer and does not
/// fit is refused with `InvalidValue` for every name that is found, and
/// changes nothing, whatever else it gives.
pub proof fn law_unfit_level_is_refused(
    db: DatabaseView,
    name: Seq<char>,
    role: Option<MemberView>,
    base_resource: Option<MemberView>,
    hashtag: Option<MemberView>,
    signed: Option<i64>,
    unsigned: Option<u64>,
)
    requires
        db.has(name),
        match signed {
            Some(a) => a < i32::MIN || a > i32::MAX,
            None => unsigned is Some,
        },
    ensures
        db.patch_request(
            name,
            patch_of_members(
                role,
                base_resource,
                hashtag,
                Some(MemberView::Number(signed, unsigned)),
            ),
        ) == (db, Err::<(), Error>(Error::InvalidValue)),
{
    lemma_position_none(db.names(), name);
}

/// Deleting a name that no permission has gives `NotFound` and changes
/// nothing.
pub proof fn law_delete_unknown_name(db: DatabaseView, name: Seq<char>)
    requires
        !db.has(name),
    ensures
        db.delete(name) == (db, Err::<(), Error>(Error::NotFound)),
{
    lemma_position_none(db.names(), name);
}

/// A patch applies as a whole or not at all: after it has succeeded the
/// permission of that name is the old one with every given field
/// replaced, and every other permission is as before; after it has failed
/// the store is as before.
pub proof fn law_patch_is_whole(db: DatabaseView, name: Seq<char>, d: PatchView, other: Seq<char>)
    requires
        db.wf(),
        other != name,
    ensures
        db.patch(name, d).0.wf(),
        db.patch(name, d).1 is Err ==> db.patch(name, d).0 == db,
        db.patch(name, d).1 is Ok ==> db.get(name) is Ok && db.patch(name, d).0.get(name) == Ok::<
            PermissionView,
            Error,
        >(patched(db.get(name)->Ok_0, d)),
        db.patch(name, d).0.get(other) == db.get(other),
{
    lemma_position_none(db.names(), name);
    lemma_position_none(db.names(), other);
    if db.patch(name, d).1 is Ok {
        let i = db.place(name)->0;
        let row = patched(db.permissions[i], d);
        lemma_updated_wf(db, i, row);
    }
}

/// Two patches of one name that both succeed apply in turn: the second
/// works on what the first has written.
pub proof fn law_patches_apply_in_turn(
    db: DatabaseView,
    name: Seq<char>,
    first: PatchView,
    second: PatchView,
)
    requires
        db.wf(),
        db.patch(name, first).1 is Ok,
        db.patch(name, first).0.patch(name, second).1 is Ok,
    ensures
        db.patch(name, first).0.patch(name, second).0.get(name) == Ok::<PermissionView, Error>(
            patched(patched(db.get(name)->Ok_0, first), second),
        ),
{
    law_patch_is_whole(db, name, first, seq!['x'].add(name));
    law_patch_is_whole(db.patch(name, first).0, name, second, seq!['x'].add(name));
}

/// A permission that has just been created is found under its name, bound
/// to the given role and base resource, without hashtag and with the
/// default access level.
pub proof fn law_create_then_get(db: DatabaseView, role: Seq<char>, base_resource: Seq<char>)
    requires
        db.wf(),
        db.create(role, base_resource).1 is Ok,
    ensures
        db.create(role, base_resource).0.wf(),
        db.create(role, base_resource).0.get(db.next_name()) == Ok::<PermissionView, Error>(
            PermissionView {
                name: db.next_name(),
                role,
                base_resource,
                hashtag: None,
                access_level: DEFAULT_ACCESS_LEVEL,
            },
        ),
{
    lemma_inserted_wf(db, role, base_resource, DEFAULT_ACCESS_LEVEL);
    let after = db.create(role, base_resource).0;
    let last = db.permissions.len() as int;
    assert(after.names()[last] == db.next_name());
    lemma_position_distinct(after.names(), db.next_name(), last);
}

/// Creating a permission leaves every other permission as it was.
pub proof fn law_create_keeps_others(
    db: DatabaseView,
    role: Seq<char>,
    base_resource: Seq<char>,
    other: Seq<char>,
)
    requires
        db.wf(),
        db.has(other),
    ensures
        db.create(role, base_resource).0.get(other) == db.get(other),
{
    if db.create(role, base_resource).1 is Ok {
        lemma_inserted_wf(db, role, base_resource, DEFAULT_ACCESS_LEVEL);
        let after = db.create(role, base_resource).0;
        lemma_position_none(db.names(), other);
        let i = db.place(other)->0;
        assert(after.names()[i] == other);
        lemma_position_distinct(after.names(), other, i);
    }
}

/// After a permission has been deleted, its name is not found.
pub proof fn law_delete_then_get(db: DatabaseView, name: Seq<char>)
    requires
        db.wf(),
        db.delete(name).1 is Ok,
    ensures
        db.delete(name).0.wf(),
        db.delete(name).0.get(name) == Err::<PermissionView, Error>(Error::NotFound),
{
    lemma_position_none(db.names(), name);
    let i = db.place(name)->0;
    crate::database::lemma_deleted_wf(db, i);
    lemma_position_none(db.delete(name).0.names(), name);
}

/// In a listing the base resources never go down, and among the
/// permissions for one base resource those without hashtag come before
/// those with one.
pub proof fn law_listing_order(
    db: DatabaseView,
    user: Seq<char>,
    out: Seq<PermissionView>,
    i: int,
    j: int,
)
    requires
        db.lists(user, out),
        0 <= i < j < out.len(),
    ensures
        text_le(out[i].base_resource, out[j].base_resource),
        out[i].base_resource == out[j].base_resource ==> hashtag_le(out[i].hashtag, out[j].hashtag),
        out[i].base_resource == out[j].base_resource && out[j].hashtag is None
            ==> out[i].hashtag is None,
{
    assert(listed_before(out[i], out[j]));
    lemma_bytes_le_reflexive(encode_utf8(out[i].base_resource));
}

} // verus!
