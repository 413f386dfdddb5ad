//! Partial updates of a permission: each field is given or left alone, and
//! the hashtag can also be cleared.

use crate::error::Error;
use crate::json::{member_at, members, take_member, Member, MemberView};
use crate::permission::{Permission, PermissionView};
use crate::text::text_opt;
use vstd::prelude::*;

verus! {

/// A partial update of a permission.
#[derive(Debug, PartialEq, Eq)]
pub struct PermissionPatch {
    /// The new role, if it changes.
    pub role: Option<String>,
    /// The new base resource, if it changes.
    pub base_resource: Option<String>,
    /// `Some(None)` clears the hashtag, `Some(Some(t))` sets it.
    pub hashtag: Option<Option<String>>,
    /// The new access level, if it changes.
    pub access_level: Option<i32>,
}

/// What a partial update says.
pub struct PatchView {
    pub role: Option<Seq<char>>,
    pub base_resource: Option<Seq<char>>,
    pub hashtag: Option<Option<Seq<char>>>,
    pub access_level: Option<i32>,
}

impl View for PermissionPatch {
    type V = PatchView;

    open spec fn view(&self) -> PatchView {
        PatchView {
            role: text_opt(self.role),
            base_resource: text_opt(self.base_resource),
            hashtag: match self.hashtag {
                Some(h) => Some(text_opt(h)),
                None => None,
            },
            access_level: self.access_level,
        }
    }
}

/// The permission after a partial update: the given fields replace the old
/// ones, the others and the name stay.
pub open spec fn patched(p: PermissionView, d: PatchView) -> PermissionView {
    PermissionView {
        name: p.name,
        role: match d.role {
            Some(r) => r,
            None => p.role,
        },
        base_resource: match d.base_resource {
            Some(b) => b,
            None => p.base_resource,
        },
        hashtag: match d.hashtag {
            Some(h) => h,
            None => p.hashtag,
        },
        access_level: match d.access_level {
            Some(a) => a,
            None => p.access_level,
        },
    }
}

/// What an optional member says.
pub open spec fn member_opt(m: Option<Member>) -> Option<MemberView> {
    match m {
        Some(x) => Some(x@),
        None => None,
    }
}

/// A text field of a document: given by a string, otherwise left alone.
pub open spec fn text_field(m: Option<MemberView>) -> Option<Seq<char>> {
    match m {
        Some(MemberView::Text(s)) => Some(s),
        _ => None,
    }
}

/// The hashtag field of a document: set by a string, cleared by `null`,
/// otherwise left alone.
pub open spec fn hashtag_field(m: Option<MemberView>) -> Option<Option<Seq<char>>> {
    match m {
        Some(MemberView::Text(s)) => Some(Some(s)),
        Some(MemberView::Null) => Some(None),
        _ => None,
    }
}

/// The access level field of a document: given by an integer that fits
/// `i32`; refused where an integer does not fit; left alone where the
/// member is no integer.
pub open spec fn level_field(m: Option<MemberView>) -> Result<Option<i32>, Error> {
    match m {
        Some(MemberView::Number(Some(a), _)) => if i32::MIN <= a <= i32::MAX {
            Ok(Some(a as i32))
        } else {
            Err(Error::InvalidValue)
        },
        Some(MemberView::Number(None, Some(_))) => Err(Error::InvalidValue),
        _ => Ok(None),
    }
}

/// The partial update that four members of a document stand for, or
/// `InvalidValue` where the document gives an access level that does not
/// fit.
pub open spec fn patch_of_members(
    role: Option<MemberView>,
    base_resource: Option<MemberView>,
    hashtag: Option<MemberView>,
    access_level: Option<MemberView>,
) -> Result<PatchView, Error> {
    match level_field(access_level) {
        Ok(level) => Ok(
            PatchView {
                role: text_field(role),
                base_resource: text_field(base_resource),
                hashtag: hashtag_field(hashtag),
                access_level: level,
            },
        ),
        Err(e) => Err(e),
    }
}

/// The partial update that a JSON object stands for: its members `role`,
/// `base_resource`, `hashtag` and `access_level`; any other member is
/// ignored.
pub open spec fn patch_of_object(m: Map<Seq<char>, MemberView>) -> Result<PatchView, Error> {
    patch_of_members(
        member_at(m, "role"@),
        member_at(m, "base_resource"@),
        member_at(m, "hashtag"@),
        member_at(m, "access_level"@),
    )
}

/// What a partial update, or the refusal of a document, says.
pub open spec fn request_view(r: Result<PermissionPatch, Error>) -> Result<PatchView, Error> {
    match r {
        Ok(p) => Ok(p@),
        Err(e) => Err(e),
    }
}

fn text_of(m: Option<Member>) -> (r: Option<String>)
    ensures
        text_opt(r) == text_field(member_opt(m)),
{
    match m {
        Some(Member::Text(s)) => Some(s),
        _ => None,
    }
}

impl PermissionPatch {
    /// The update that changes nothing.
    pub fn new() -> (r: PermissionPatch)
        ensures
            r@ == (PatchView { role: None, base_resource: None, hashtag: None, access_level: None }),
    {
        PermissionPatch { role: None, base_resource: None, hashtag: None, access_level: None }
    }

    /// Reads a partial update from the four members of a document. An
    /// access level that is an integer and does not fit is refused.
    pub fn from_members(
        role: Option<Member>,
        base_resource: Option<Member>,
        hashtag: Option<Member>,
        access_level: Option<Member>,
    ) -> (r: Result<PermissionPatch, Error>)
        ensures
            request_view(r) == patch_of_members(
                member_opt(role),
                member_opt(base_resource),
                member_opt(hashtag),
                member_opt(access_level),
            ),
    {
        let access_level = match access_level {
            Some(Member::Number(Some(a), _)) => if -2147483648 <= a && a <= 2147483647 {
                Some(a as i32)
            } else {
                return Err(Error::InvalidValue);
            },
            Some(Member::Number(None, Some(_))) => {
                return Err(Error::InvalidValue);
            },
            _ => None,
        };
        let hashtag = match hashtag {
            Some(Member::Text(ht)) => Some(Some(ht)),
            Some(Member::Null) => Some(None),
            _ => None,
        };
        Ok(
            PermissionPatch {
                role: text_of(role),
                base_resource: text_of(base_resource),
                hashtag,
                access_level,
            },
        )
    }

    /// Reads a partial update from a JSON object.
    pub fn from_object(obj: serde_json::Map<String, serde_json::Value>) -> (r: Result<
        PermissionPatch,
        Error,
    >)
        ensures
            request_view(r) == patch_of_object(members(obj)),
    {
        let ghost all = members(obj);
        let mut obj = obj;
        proof {
            reveal_strlit("role");
            reveal_strlit("base_resource");
            reveal_strlit("hashtag");
            reveal_strlit("access_level");
            assert("role"@.len() == 4);
            assert("base_resource"@.len() == 13);
            assert("hashtag"@.len() == 7);
            assert("access_level"@.len() == 12);
        }
        let role = take_member(&mut obj, "role");
        let base_resource = take_member(&mut obj, "base_resource");
        let hashtag = take_member(&mut obj, "hashtag");
        let access_level = take_member(&mut obj, "access_level");
        proof {
            assert(member_opt(role) == member_at(all, "role"@));
            assert(member_opt(base_resource) == member_at(all, "base_resource"@));
            assert(member_opt(hashtag) == member_at(all, "hashtag"@));
            assert(member_opt(access_level) == member_at(all, "access_level"@));
        }
        PermissionPatch::from_members(role, base_resource, hashtag, access_level)
    }
}

impl Permission {
    /// Applies a partial update to this permission.
    pub fn patched(self, patch: PermissionPatch) -> (r: Permission)
        ensures
            r@ == patched(self@, patch@),
    {
        let Permission { name, role, base_resource, hashtag, access_level } = self;
        Permission {
            name,
            role: match patch.role {
                Some(r) => r,
                None => role,
            },
            base_resource: match patch.base_resource {
                Some(b) => b,
                None => base_resource,
            },
            hashtag: match patch.hashtag {
                Some(h) => h,
                None => hashtag,
            },
            access_level: match patch.access_level {
                Some(a) => a,
                None => access_level,
            },
        }
    }
}

} // verus!
