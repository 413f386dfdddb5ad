//! The store, held in memory: the directory and the hashtag index, which
//! are only read, and the table of permissions.

use crate::directory::{Directory, DirectoryView};
use crate::error::{Error, StoreError};
use crate::hashtag::{tags_of, HashtagIndex, HashtagView};
use crate::lookup::{distinct, find, lemma_position_none, names_of, position};
use crate::naming::{lemma_serial_name_injective, name_of_serial, serial_name};
use crate::order::{in_order, views};
use crate::patch::{patched, PatchView};
use crate::permission::{Permission, PermissionView, DEFAULT_ACCESS_LEVEL};
use crate::resolver::{acting_role, applicable, of_role, picks_highest, the_only, unscoped};
use vstd::prelude::*;

verus! {

/// The store.
pub struct Database {
    directory: Directory,
    hashtags: HashtagIndex,
    permissions: Vec<Permission>,
    serial: u64,
}

/// What the store holds.
pub struct DatabaseView {
    /// The users and roles.
    pub directory: DirectoryView,
    /// The hashtags attached to instances.
    pub hashtags: Seq<HashtagView>,
    /// The rows of the permission table, oldest first.
    pub permissions: Seq<PermissionView>,
    /// The serial number of the next permission.
    pub serial: u64,
}

impl View for Database {
    type V = DatabaseView;

    closed spec fn view(&self) -> DatabaseView {
        DatabaseView {
            directory: self.directory@,
            hashtags: self.hashtags@,
            permissions: views(self.permissions@),
            serial: self.serial,
        }
    }
}

impl DatabaseView {
    /// The names of the permissions, oldest first.
    pub open spec fn names(self) -> Seq<Seq<char>> {
        self.permissions.map_values(|p: PermissionView| p.name)
    }

    /// Whether the store has given out this name.
    pub open spec fn issued(self, name: Seq<char>) -> bool {
        exists|k: u64| k < self.serial && name == #[trigger] serial_name(k)
    }

    /// Whether the table is valid: no two rows share a name, and every
    /// name was given out by the store.
    pub open spec fn wf(self) -> bool {
        &&& distinct(self.names())
        &&& forall|i: int|
            0 <= i < self.permissions.len() ==> self.issued(#[trigger] self.permissions[i].name)
    }

    /// Whether a permission of this name exists.
    pub open spec fn has(self, name: Seq<char>) -> bool {
        self.names().contains(name)
    }

    /// The place of the permission of this name in the table.
    pub open spec fn place(self, name: Seq<char>) -> Option<int> {
        position(self.names(), name)
    }

    /// The name that the next permission gets.
    pub open spec fn next_name(self) -> Seq<char> {
        serial_name(self.serial)
    }

    /// The store with another directory.
    pub open spec fn with_directory(self, directory: DirectoryView) -> DatabaseView {
        DatabaseView { directory, ..self }
    }

    /// The store with another hashtag index.
    pub open spec fn with_hashtags(self, hashtags: Seq<HashtagView>) -> DatabaseView {
        DatabaseView { hashtags, ..self }
    }

    /// Whether the store takes a new row for this role: the role is known,
    /// and a serial number is left.
    pub open spec fn accepts(self, role: Seq<char>) -> bool {
        self.directory.has_role(role) && self.serial < u64::MAX
    }

    /// The store after a new row, under the next name and without hashtag,
    /// has been added.
    pub open spec fn inserted(
        self,
        role: Seq<char>,
        base_resource: Seq<char>,
        access_level: i32,
    ) -> DatabaseView {
        DatabaseView {
            permissions: self.permissions.push(
                PermissionView {
                    name: self.next_name(),
                    role,
                    base_resource,
                    hashtag: None,
                    access_level,
                },
            ),
            serial: (self.serial + 1) as u64,
            ..self
        }
    }

    /// The store after the row at place `i` has been replaced.
    pub open spec fn updated(self, i: int, row: PermissionView) -> DatabaseView {
        DatabaseView { permissions: self.permissions.update(i, row), ..self }
    }

    /// The store after the row at place `i` has been removed.
    pub open spec fn deleted(self, i: int) -> DatabaseView {
        DatabaseView { permissions: self.permissions.remove(i), ..self }
    }

    /// Writing a row over the one of its name: the number of rows
    /// written, which is none where no row has that name; a row for a
    /// role that is not known is turned down.
    pub open spec fn update(self, row: PermissionView) -> (DatabaseView, Result<u64, StoreError>) {
        match self.place(row.name) {
            Some(i) => if self.directory.has_role(row.role) {
                (self.updated(i, row), Ok(1))
            } else {
                (self, Err(StoreError::Rejected))
            },
            None => (self, Ok(0)),
        }
    }

    /// Getting a permission by name: the row of that name, or `NotFound`.
    pub open spec fn get(self, name: Seq<char>) -> Result<PermissionView, Error> {
        match self.place(name) {
            Some(i) => Ok(self.permissions[i]),
            None => Err(Error::NotFound),
        }
    }

    /// Creating a permission for a role and a base resource: a new row
    /// without hashtag and with the default access level, or
    /// `InvalidValue` and no change where the store turns the row down.
    pub open spec fn create(self, role: Seq<char>, base_resource: Seq<char>) -> (
        DatabaseView,
        Result<(), Error>,
    ) {
        if self.accepts(role) {
            (self.inserted(role, base_resource, DEFAULT_ACCESS_LEVEL), Ok(()))
        } else {
            (self, Err(Error::InvalidValue))
        }
    }

    /// Patching a permission by name: the row of that name after the
    /// partial update, or no change, with `NotFound` where no row has the
    /// name and `InvalidValue` where the store turns the new row down.
    pub open spec fn patch(self, name: Seq<char>, d: PatchView) -> (DatabaseView, Result<(), Error>) {
        match self.place(name) {
            Some(i) => {
                let row = patched(self.permissions[i], d);
                if self.directory.has_role(row.role) {
                    (self.updated(i, row), Ok(()))
                } else {
                    (self, Err(Error::InvalidValue))
                }
            },
            None => (self, Err(Error::NotFound)),
        }
    }

    /// Patching a permission by name on a request, which is a partial
    /// update or the refusal of a document: a name that no row has is
    /// `NotFound` whatever the request; a refusal is passed on and changes
    /// nothing; a partial update is applied as `patch` says.
    pub open spec fn patch_request(self, name: Seq<char>, request: Result<PatchView, Error>) -> (
        DatabaseView,
        Result<(), Error>,
    ) {
        match request {
            Ok(d) => self.patch(name, d),
            Err(e) => if self.place(name) is Some {
                (self, Err(e))
            } else {
                (self, Err(Error::NotFound))
            },
        }
    }

    /// Deleting a permission by name: the table without the row of that
    /// name, or `NotFound` and no change where no row has the name.
    pub open spec fn delete(self, name: Seq<char>) -> (DatabaseView, Result<(), Error>) {
        match self.place(name) {
            Some(i) => (self.deleted(i), Ok(())),
            None => (self, Err(Error::NotFound)),
        }
    }

    /// Whether `out` is a fair answer to the question which permission
    /// governs a user's access to a base resource, or to one instance of
    /// it. A user who may not act is refused before any row is looked at.
    /// For the base resource as a whole, the one row of the user's role
    /// without hashtag answers. For an instance, a row with the highest
    /// access level answers, among those of the user's role without
    /// hashtag or with one of the instance's tags.
    pub open spec fn resolves(
        self,
        user: Seq<char>,
        base_resource: Seq<char>,
        instance: Option<Seq<char>>,
        out: Result<PermissionView, Error>,
    ) -> bool {
        match acting_role(self.directory.lookup_role(user)) {
            Ok(role) => match instance {
                None => out == the_only(unscoped(self.permissions, role, base_resource)),
                Some(n) => picks_highest(
                    applicable(
                        self.permissions,
                        role,
                        base_resource,
                        tags_of(self.hashtags, base_resource, n),
                    ),
                    out,
                ),
            },
            Err(e) => out == Err::<PermissionView, Error>(e),
        }
    }

    /// Whether `out` is a fair listing of a user's permissions: the rows
    /// of the user's role, each once, in the order of listings; nothing
    /// for a user who may not act.
    pub open spec fn lists(self, user: Seq<char>, out: Seq<PermissionView>) -> bool {
        match acting_role(self.directory.lookup_role(user)) {
            Ok(role) => in_order(out) && out.to_multiset() == of_role(
                self.permissions,
                role,
            ).to_multiset(),
            Err(_) => out.len() == 0,
        }
    }
}

/// Adding a row under the next name keeps the table valid.
pub proof fn lemma_inserted_wf(
    db: DatabaseView,
    role: Seq<char>,
    base_resource: Seq<char>,
    access_level: i32,
)
    requires
        db.wf(),
        db.serial < u64::MAX,
    ensures
        db.inserted(role, base_resource, access_level).wf(),
        !db.has(db.next_name()),
{
    let after = db.inserted(role, base_resource, access_level);
    if db.has(db.next_name()) {
        let i = choose|i: int| 0 <= i < db.names().len() && db.names()[i] == db.next_name();
        assert(db.issued(db.permissions[i].name));
        let k = choose|k: u64| k < db.serial && db.permissions[i].name == #[trigger] serial_name(k);
        lemma_serial_name_injective(k, db.serial);
    }
    assert forall|i: int| 0 <= i < after.permissions.len() implies after.issued(
        #[trigger] after.permissions[i].name,
    ) by {
        if i < db.permissions.len() {
            assert(after.permissions[i] == db.permissions[i]);
            assert(db.issued(db.permissions[i].name));
            let k = choose|k: u64|
                k < db.serial && db.permissions[i].name == #[trigger] serial_name(k);
            assert(k < after.serial && after.permissions[i].name == serial_name(k));
        } else {
            assert(db.serial < after.serial && after.permissions[i].name == serial_name(
                db.serial,
            ));
        }
    }
    assert forall|i: int, j: int| 0 <= i < j < after.names().len() implies after.names()[i]
        != after.names()[j] by {
        assert(after.names()[i] == db.names()[i]);
        if j < db.names().len() {
            assert(after.names()[j] == db.names()[j]);
        } else {
            assert(after.names()[j] == db.next_name());
        }
    }
}

/// Replacing a row by one of the same name keeps the table valid.
pub proof fn lemma_updated_wf(db: DatabaseView, i: int, row: PermissionView)
    requires
        db.wf(),
        0 <= i < db.permissions.len(),
        row.name == db.permissions[i].name,
    ensures
        db.updated(i, row).wf(),
        db.updated(i, row).names() == db.names(),
{
    let after = db.updated(i, row);
    assert(after.names() =~= db.names());
    assert forall|j: int| 0 <= j < after.permissions.len() implies after.issued(
        #[trigger] after.permissions[j].name,
    ) by {
        assert(db.issued(db.permissions[j].name));
    }
}

/// Removing a row keeps the table valid.
pub proof fn lemma_deleted_wf(db: DatabaseView, i: int)
    requires
        db.wf(),
        0 <= i < db.permissions.len(),
    ensures
        db.deleted(i).wf(),
        !db.deleted(i).has(db.permissions[i].name),
{
    let after = db.deleted(i);
    assert(after.names() =~= db.names().remove(i));
    assert forall|j: int| 0 <= j < after.permissions.len() implies after.issued(
        #[trigger] after.permissions[j].name,
    ) by {
        if j < i {
            assert(db.issued(db.permissions[j].name));
        } else {
            assert(db.issued(db.permissions[j + 1].name));
        }
    }
    if after.has(db.permissions[i].name) {
        let j = choose|j: int|
            0 <= j < after.names().len() && after.names()[j] == db.permissions[i].name;
        if j < i {
            assert(db.names()[j] == db.names()[i]);
        } else {
            assert(db.names()[j + 1] == db.names()[i]);
        }
    }
}

impl Database {
    #[verifier::type_invariant]
    spec fn inv(self) -> bool {
        self@.wf()
    }

    /// Takes the rows out of the table, which is empty until they are put
    /// back.
    fn take_rows(&mut self) -> (rows: Vec<Permission>)
        ensures
            rows == old(self).permissions,
            final(self).permissions@.len() == 0,
            final(self).directory == old(self).directory,
            final(self).hashtags == old(self).hashtags,
            final(self).serial == old(self).serial,
    {
        let mut rows: Vec<Permission> = Vec::new();
        proof {
            assert(views(rows@) =~= Seq::<PermissionView>::empty());
        }
        core::mem::swap(&mut self.permissions, &mut rows);
        rows
    }

    /// Puts rows into the table.
    fn put_rows(&mut self, rows: Vec<Permission>)
        requires
            (DatabaseView { permissions: views(rows@), ..old(self)@ }).wf(),
        ensures
            final(self).permissions == rows,
            final(self).directory == old(self).directory,
            final(self).hashtags == old(self).hashtags,
            final(self).serial == old(self).serial,
    {
        let mut rows = rows;
        core::mem::swap(&mut self.permissions, &mut rows);
    }

    /// A store with the given directory and hashtag index, and no
    /// permissions. The first permission gets the serial number 1.
    pub fn new(directory: Directory, hashtags: HashtagIndex) -> (r: Database)
        ensures
            r@.wf(),
            r@ == (DatabaseView {
                directory: directory@,
                hashtags: hashtags@,
                permissions: Seq::empty(),
                serial: 1,
            }),
    {
        let r = Database { directory, hashtags, permissions: Vec::new(), serial: 1 };
        proof {
            assert(views(r.permissions@) =~= Seq::<PermissionView>::empty());
        }
        r
    }

    /// The directory.
    pub fn directory(&self) -> (r: &Directory)
        ensures
            r@ == self@.directory,
    {
        &self.directory
    }

    /// The hashtag index.
    pub fn hashtags(&self) -> (r: &HashtagIndex)
        ensures
            r@ == self@.hashtags,
    {
        &self.hashtags
    }

    /// The rows of the permission table, oldest first.
    pub fn permissions(&self) -> (r: &Vec<Permission>)
        ensures
            views(r@) == self@.permissions,
            self@.wf(),
    {
        proof {
            use_type_invariant(self);
        }
        &self.permissions
    }

    /// Replaces the directory.
    pub fn set_directory(&mut self, directory: Directory)
        ensures
            final(self)@ == old(self)@.with_directory(directory@),
            final(self)@.wf(),
    {
        proof {
            use_type_invariant(&*self);
        }
        self.directory = directory;
    }

    /// Replaces the hashtag index.
    pub fn set_hashtags(&mut self, hashtags: HashtagIndex)
        ensures
            final(self)@ == old(self)@.with_hashtags(hashtags@),
            final(self)@.wf(),
    {
        proof {
            use_type_invariant(&*self);
        }
        self.hashtags = hashtags;
    }

    /// Fetches the permission of a name.
    pub fn query_one(&self, name: &str) -> (r: Option<Permission>)
        ensures
            match r {
                Some(p) => self@.place(name@) is Some && p@ == self@.permissions[self@.place(
                    name@,
                )->0],
                None => self@.place(name@) is None,
            },
            self@.wf(),
    {
        proof {
            use_type_invariant(self);
            assert(names_of(self.permissions@) =~= self@.names());
        }
        match find(&self.permissions, name) {
            Some(i) => Some(self.permissions[i].clone()),
            None => None,
        }
    }

    /// Adds a row for a role and a base resource, without hashtag, under
    /// the next name. Gives the number of rows added.
    pub fn insert_one(&mut self, role: &str, base_resource: &str, access_level: i32) -> (r: Result<
        u64,
        StoreError,
    >)
        ensures
            if old(self)@.accepts(role@) {
                r == Ok::<u64, StoreError>(1) && final(self)@ == old(self)@.inserted(
                    role@,
                    base_resource@,
                    access_level,
                )
            } else {
                r == Err::<u64, StoreError>(StoreError::Rejected) && final(self)@ == old(self)@
            },
            final(self)@.wf(),
    {
        proof {
            use_type_invariant(&*self);
        }
        if !self.directory.has_role(role) || self.serial == u64::MAX {
            return Err(StoreError::Rejected);
        }
        let row = Permission {
            name: name_of_serial(self.serial),
            role: role.to_owned(),
            base_resource: base_resource.to_owned(),
            hashtag: None,
            access_level,
        };
        proof {
            lemma_inserted_wf(self@, role@, base_resource@, access_level);
            assert(views(self.permissions@.push(row)) =~= views(self.permissions@).push(row@));
        }
        let mut rows = self.take_rows();
        rows.push(row);
        self.serial = self.serial + 1;
        self.put_rows(rows);
        Ok(1)
    }

    /// Writes a row over the one of the same name. Gives the number of
    /// rows written: none where no row has that name.
    pub fn update_one(&mut self, row: Permission) -> (r: Result<u64, StoreError>)
        ensures
            (final(self)@, r) == old(self)@.update(row@),
            final(self)@.wf(),
    {
        proof {
            use_type_invariant(&*self);
            assert(names_of(self.permissions@) =~= self@.names());
            lemma_position_none(self@.names(), row@.name);
        }
        match find(&self.permissions, row.name.as_str()) {
            Some(i) => {
                if !self.directory.has_role(row.role.as_str()) {
                    return Err(StoreError::Rejected);
                }
                proof {
                    lemma_updated_wf(self@, i as int, row@);
                    assert(views(self.permissions@.update(i as int, row)) =~= views(
                        self.permissions@,
                    ).update(i as int, row@));
                }
                let mut rows = self.take_rows();
                rows.set(i, row);
                self.put_rows(rows);
                Ok(1)
            },
            None => Ok(0),
        }
    }

    /// Removes the row of a name. Gives the number of rows removed.
    pub fn delete_one(&mut self, name: &str) -> (r: u64)
        ensures
            match old(self)@.place(name@) {
                Some(i) => r == 1 && final(self)@ == old(self)@.deleted(i),
                None => r == 0 && final(self)@ == old(self)@,
            },
            final(self)@.wf(),
    {
        proof {
            use_type_invariant(&*self);
            assert(names_of(self.permissions@) =~= self@.names());
            lemma_position_none(self@.names(), name@);
        }
        match find(&self.permissions, name) {
            Some(i) => {
                proof {
                    lemma_deleted_wf(self@, i as int);
                    assert(views(self.permissions@.remove(i as int)) =~= views(
                        self.permissions@,
                    ).remove(i as int));
                }
                let mut rows = self.take_rows();
                rows.remove(i);
                self.put_rows(rows);
                1
            },
            None => 0,
        }
    }
}

} // verus!
