//! The permission record, one grant of an access level to a role, and the
//! operations on the permissions of a store.

use crate::database::Database;
use crate::error::{settle_create, settle_delete, Error};
use crate::json::members;
use crate::lookup::{lemma_position_none, Named};
use crate::order::views;
use crate::patch::{patch_of_object, request_view, PermissionPatch};
use crate::transaction::{Reply, Step, Transaction};
use crate::text::text_opt;
use crate::resolver::{
    active_role, list_role, outcome_view, select_highest, select_unscoped,
};
use vstd::prelude::*;

verus! {

/// The access level that a newly created permission carries ("view").
pub const DEFAULT_ACCESS_LEVEL: i32 = 1;

/// What a permission record says.
pub struct PermissionView {
    pub name: Seq<char>,
    pub role: Seq<char>,
    pub base_resource: Seq<char>,
    pub hashtag: Option<Seq<char>>,
    pub access_level: i32,
}

/// Permission
#[derive(Debug, PartialEq, Eq)]
pub struct Permission {
    pub name: String,
    pub role: String,
    pub base_resource: String,
    pub hashtag: Option<String>,
    pub access_level: i32,
}

impl View for Permission {
    type V = PermissionView;

    open spec fn view(&self) -> PermissionView {
        PermissionView {
            name: self.name@,
            role: self.role@,
            base_resource: self.base_resource@,
            hashtag: text_opt(self.hashtag),
            access_level: self.access_level,
        }
    }
}

impl Named for Permission {
    open spec fn name_view(&self) -> Seq<char> {
        self.name@
    }

    fn name(&self) -> (r: &str) {
        self.name.as_str()
    }
}

impl Clone for Permission {
    fn clone(&self) -> (r: Self)
        ensures
            r@ == self@,
    {
        Permission {
            name: self.name.clone(),
            role: self.role.clone(),
            base_resource: self.base_resource.clone(),
            hashtag: clone_text_opt(&self.hashtag),
            access_level: self.access_level,
        }
    }
}

/// A copy of an optional text.
pub fn clone_text_opt(t: &Option<String>) -> (r: Option<String>)
    ensures
        text_opt(r) == text_opt(*t),
{
    match t {
        Some(s) => Some(s.clone()),
        None => None,
    }
}

/// What a request addresses: a base resource, or one instance of it.
#[derive(Debug, PartialEq, Eq)]
pub struct Name {
    /// The base resource.
    pub base_resource: String,
    /// The name of the instance, where one is addressed.
    pub object_n: Option<String>,
}

/// What an address says.
pub struct NameView {
    pub base_resource: Seq<char>,
    pub object_n: Option<Seq<char>>,
}

impl View for Name {
    type V = NameView;

    open spec fn view(&self) -> NameView {
        NameView { base_resource: self.base_resource@, object_n: text_opt(self.object_n) }
    }
}

/// Get one permission by name
pub fn get_one(db: &Database, name: &str) -> (r: Result<Permission, Error>)
    ensures
        outcome_view(r) == db@.get(name@),
{
    match db.query_one(name) {
        Some(p) => Ok(p),
        None => Err(Error::NotFound),
    }
}

/// Get permissions for a user
pub fn get_by_user(db: &Database, user: &str) -> (r: Vec<Permission>)
    ensures
        db@.lists(user@, views(r@)),
{
    match active_role(db.directory().lookup_role(user)) {
        Ok(role) => list_role(db.permissions(), role.as_str()),
        Err(_) => Vec::new(),
    }
}

/// Create a permission by role/resource
pub fn post_role_res(db: &mut Database, role: &str, base_resource: &str) -> (r: Result<(), Error>)
    ensures
        (final(db)@, r) == old(db)@.create(role@, base_resource@),
        final(db)@.wf(),
{
    let access_level = DEFAULT_ACCESS_LEVEL;  // View is a good default
    settle_create(db.insert_one(role, base_resource, access_level))
}

/// Patch permission by name, with a partial update
pub fn patch_with(db: &mut Database, name: &str, patch: PermissionPatch) -> (r: Result<(), Error>)
    ensures
        (final(db)@, r) == old(db)@.patch(name@, patch@),
        final(db)@.wf(),
{
    patch_request(db, name, Ok(patch))
}

/// Patch permission by name, on a partial update or the refusal of a
/// document
pub fn patch_request(db: &mut Database, name: &str, request: Result<PermissionPatch, Error>) -> (r:
    Result<(), Error>)
    ensures
        (final(db)@, r) == old(db)@.patch_request(name@, request_view(request)),
        final(db)@.wf(),
{
    proof {
        lemma_position_none(db@.names(), name@);
    }
    let (txn, step) = Transaction::begin(request).step(Reply::Row(db.query_one(name)));
    let row = match step {
        Step::Write(row) => row,
        Step::Abandon(e) => {
            return Err(e);
        },
        _ => {
            return Err(Error::Conflict);
        },
    };
    let (txn, step) = txn.step(Reply::Rows(db.update_one(row)));
    match step {
        Step::Commit => {},
        Step::Abandon(e) => {
            return Err(e);
        },
        _ => {
            return Err(Error::Conflict);
        },
    }
    match txn.step(Reply::Committed(true)).1 {
        Step::Done => Ok(()),
        Step::Abandon(e) => Err(e),
        _ => Err(Error::Conflict),
    }
}

/// Patch permission by name
pub fn patch_by_name(
    db: &mut Database,
    name: &str,
    obj: serde_json::Map<String, serde_json::Value>,
) -> (r: Result<(), Error>)
    ensures
        (final(db)@, r) == old(db)@.patch_request(name@, patch_of_object(members(obj))),
        final(db)@.wf(),
{
    patch_request(db, name, PermissionPatch::from_object(obj))
}

/// Delete permission by name
pub fn delete_by_name(db: &mut Database, name: &str) -> (r: Result<(), Error>)
    ensures
        (final(db)@, r) == old(db)@.delete(name@),
        final(db)@.wf(),
{
    settle_delete(Ok(db.delete_one(name)))
}

/// Get user permission for a name
pub fn get_by_name(db: &Database, user: &str, name: &Name) -> (r: Result<Permission, Error>)
    ensures
        db@.resolves(user@, name@.base_resource, name@.object_n, outcome_view(r)),
{
    let role = match active_role(db.directory().lookup_role(user)) {
        Ok(role) => role,
        Err(e) => {
            return Err(e);
        },
    };
    let base_resource = name.base_resource.as_str();
    match &name.object_n {
        Some(tag) => {
            let tags = db.hashtags().lookup_tags(base_resource, tag.as_str());
            select_highest(db.permissions(), role.as_str(), base_resource, &tags)
        },
        None => select_unscoped(db.permissions(), role.as_str(), base_resource),
    }
}

} // verus!
