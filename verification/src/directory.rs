//! The directory of users and roles, which the resolver only reads.

use crate::lookup::{find, names_of, position, Named};
use vstd::prelude::*;

verus! {

/// A role.
#[derive(Debug, PartialEq, Eq)]
pub struct Role {
    pub name: String,
    pub enabled: bool,
}

/// What a role record says.
pub struct RoleView {
    pub name: Seq<char>,
    pub enabled: bool,
}

impl View for Role {
    type V = RoleView;

    open spec fn view(&self) -> RoleView {
        RoleView { name: self.name@, enabled: self.enabled }
    }
}

impl Named for Role {
    open spec fn name_view(&self) -> Seq<char> {
        self.name@
    }

    fn name(&self) -> (r: &str) {
        self.name.as_str()
    }
}

/// A user, bound to one role.
#[derive(Debug, PartialEq, Eq)]
pub struct User {
    pub name: String,
    pub role: String,
    pub enabled: bool,
}

/// What a user record says.
pub struct UserView {
    pub name: Seq<char>,
    pub role: Seq<char>,
    pub enabled: bool,
}

impl View for User {
    type V = UserView;

    open spec fn view(&self) -> UserView {
        UserView { name: self.name@, role: self.role@, enabled: self.enabled }
    }
}

impl Named for User {
    open spec fn name_view(&self) -> Seq<char> {
        self.name@
    }

    fn name(&self) -> (r: &str) {
        self.name.as_str()
    }
}

/// The users and roles that are known. Where a name stands twice, the
/// first record counts.
#[derive(Debug, PartialEq, Eq)]
pub struct Directory {
    pub users: Vec<User>,
    pub roles: Vec<Role>,
}

/// What a directory says.
pub struct DirectoryView {
    pub users: Seq<UserView>,
    pub roles: Seq<RoleView>,
}

impl View for Directory {
    type V = DirectoryView;

    open spec fn view(&self) -> DirectoryView {
        DirectoryView {
            users: self.users@.map_values(|u: User| u@),
            roles: self.roles@.map_values(|r: Role| r@),
        }
    }
}

/// What the directory answers for a user: the role the user is bound to,
/// and whether user and role are enabled.
#[derive(Debug, PartialEq, Eq)]
pub struct Membership {
    pub role: String,
    pub user_enabled: bool,
    pub role_enabled: bool,
}

/// What a membership says.
pub struct MembershipView {
    pub role: Seq<char>,
    pub user_enabled: bool,
    pub role_enabled: bool,
}

impl View for Membership {
    type V = MembershipView;

    open spec fn view(&self) -> MembershipView {
        MembershipView {
            role: self.role@,
            user_enabled: self.user_enabled,
            role_enabled: self.role_enabled,
        }
    }
}

impl MembershipView {
    /// Whether both the user and the role are enabled.
    pub open spec fn active(self) -> bool {
        self.user_enabled && self.role_enabled
    }
}

/// What an optional membership says.
pub open spec fn membership_opt(m: Option<Membership>) -> Option<MembershipView> {
    match m {
        Some(x) => Some(x@),
        None => None,
    }
}

impl DirectoryView {
    /// The names of the users, in order.
    pub open spec fn user_names(self) -> Seq<Seq<char>> {
        self.users.map_values(|u: UserView| u.name)
    }

    /// The names of the roles, in order.
    pub open spec fn role_names(self) -> Seq<Seq<char>> {
        self.roles.map_values(|r: RoleView| r.name)
    }

    /// The record of a user: the first of that name.
    pub open spec fn user(self, name: Seq<char>) -> Option<UserView> {
        match position(self.user_names(), name) {
            Some(i) => Some(self.users[i]),
            None => None,
        }
    }

    /// The record of a role: the first of that name.
    pub open spec fn role(self, name: Seq<char>) -> Option<RoleView> {
        match position(self.role_names(), name) {
            Some(i) => Some(self.roles[i]),
            None => None,
        }
    }

    /// Whether a role of this name is known.
    pub open spec fn has_role(self, role: Seq<char>) -> bool {
        self.role(role) is Some
    }

    /// The directory's answer for a user: nothing where the user, or the
    /// role that the user is bound to, is not known.
    pub open spec fn lookup_role(self, user: Seq<char>) -> Option<MembershipView> {
        match self.user(user) {
            Some(u) => match self.role(u.role) {
                Some(r) => Some(
                    MembershipView {
                        role: u.role,
                        user_enabled: u.enabled,
                        role_enabled: r.enabled,
                    },
                ),
                None => None,
            },
            None => None,
        }
    }
}

impl Directory {
    /// A directory without users and roles.
    pub fn new() -> (r: Directory)
        ensures
            r@ == (DirectoryView { users: Seq::empty(), roles: Seq::empty() }),
    {
        let r = Directory { users: Vec::new(), roles: Vec::new() };
        proof {
            assert(r@.users =~= Seq::empty());
            assert(r@.roles =~= Seq::empty());
        }
        r
    }

    /// Whether a role of this name is known.
    pub fn has_role(&self, role: &str) -> (r: bool)
        ensures
            r == self@.has_role(role@),
    {
        proof {
            assert(names_of(self.roles@) =~= self@.role_names());
        }
        find(&self.roles, role).is_some()
    }

    /// Looks up the role of a user, and whether both are enabled.
    pub fn lookup_role(&self, user: &str) -> (r: Option<Membership>)
        ensures
            membership_opt(r) == self@.lookup_role(user@),
    {
        proof {
            assert(names_of(self.users@) =~= self@.user_names());
            assert(names_of(self.roles@) =~= self@.role_names());
        }
        match find(&self.users, user) {
            Some(i) => {
                let u = &self.users[i];
                match find(&self.roles, u.role.as_str()) {
                    Some(j) => Some(
                        Membership {
                            role: u.role.clone(),
                            user_enabled: u.enabled,
                            role_enabled: self.roles[j].enabled,
                        },
                    ),
                    None => None,
                }
            },
            None => None,
        }
    }
}

} // verus!
