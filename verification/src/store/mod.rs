//! The relational store behind the identity model, held in memory.
//!
//! The store keeps the records of seven tables and the rules that the tables
//! share with any database that holds them: ids are unique, a role is granted
//! to a user at most once, a user has at most one password, a verified
//! address keeps no token. Every [`Store`] keeps these rules at all times;
//! [`StoreView::wf`] spells them out.
//!
//! Records come in through the `load_*` functions, under the ids they carry,
//! as whoever mirrors a database has them, and through the `insert_*`
//! functions, under the next id of their table. What the identity model
//! itself changes (a role granted or revoked, an address marked verified, a
//! primary address set) is not offered here: it is reached through the types
//! of [`crate::user`], which make the checks that have to come first.

pub mod lemmas;
mod tables;
pub mod view;

use self::tables::Tables;
pub use self::view::{is_other_grant, later_id, StoreError, StoreView};
use crate::sql_types::Permission as PermissionName;
use crate::sql_types::Role as RoleName;
use crate::timestamp::Timestamp;
use crate::user::email::{Email, EmailView, NewEmail, UnverifiedEmail};
use crate::user::local_auth::{LocalAuth, LocalAuthView, NewLocalAuth};
use crate::user::role::permission::Permission;
use crate::user::role::role_permission::RolePermission;
use crate::user::role::user_role::{UserRole, UserRoleView};
use crate::user::role::Role;
use crate::user::{NewUser, QueriedUser, UnauthenticatedUser, UserView};
use vstd::prelude::*;

verus! {

/// The tables of users, email addresses, passwords, roles, permissions and
/// grants.
pub struct Store {
    tables: Tables,
}

impl View for Store {
    type V = StoreView;

    closed spec fn view(&self) -> StoreView {
        self.tables@
    }
}

impl Store {
    #[verifier::type_invariant]
    spec fn well_formed(&self) -> bool {
        self.tables@.wf()
    }

    /// A store without records.
    pub fn new() -> (made: Store)
        ensures
            made@ == StoreView::empty(),
            made@.wf(),
    {
        Store { tables: Tables::new() }
    }

    /// Takes the tables out, leaving none behind.
    fn take(&mut self) -> (tables: Tables)
        ensures
            tables@ == old(self)@,
            tables@.wf(),
    {
        proof {
            use_type_invariant(&*self);
        }
        let mut emptied = Store { tables: Tables::new() };
        core::mem::swap(self, &mut emptied);
        emptied.tables
    }

    /// The rules of the store hold of it. This does nothing when run: it is
    /// called for what it says.
    pub fn rules_hold(&self)
        ensures
            self@.wf(),
    {
        proof {
            use_type_invariant(self);
        }
    }

    // ----- users -----
    /// The user with this id, if one is recorded.
    pub fn find_user(&self, id: i32) -> (found: Option<QueriedUser>)
        ensures
            self@.wf(),
            match found {
                Some(user) => self@.users.contains(user@) && user@.id == id,
                None => !self@.has_user(id),
            },
    {
        proof {
            use_type_invariant(self);
        }
        self.tables.find_user(id)
    }

    /// Records a user under the id that the record carries. Two users
    /// cannot share an id.
    pub fn load_user(&mut self, row: QueriedUser) -> (r: Result<(), StoreError>)
        ensures
            final(self)@.wf(),
            match r {
                Ok(()) => !old(self)@.has_user(row@.id) && final(self)@ == old(self)@.with_user(
                    row@,
                ),
                Err(e) => e == StoreError::UniqueViolation && old(self)@.has_user(row@.id)
                    && final(self)@ == old(self)@,
            },
    {
        let mut tables = self.take();
        let r = tables.load_user(row);
        *self = Store { tables };
        r
    }

    /// Records a new user under the next id of the table. The user comes
    /// back as looked up and not yet authenticated.
    pub fn insert_user(&mut self, new: NewUser) -> (r: Result<UnauthenticatedUser, StoreError>)
        ensures
            final(self)@.wf(),
            match r {
                Ok(user) => old(self)@.last_user_id < i32::MAX && user@ == (UserView {
                    id: (old(self)@.last_user_id + 1) as i32,
                    created_at: new@.created_at,
                    primary_email: None,
                }) && final(self)@ == old(self)@.with_user(user@),
                Err(e) => e == StoreError::OutOfIds && old(self)@.last_user_id == i32::MAX
                    && final(self)@ == old(self)@,
            },
    {
        let mut tables = self.take();
        let r = tables.insert_user(new.created_at());
        *self = Store { tables };
        match r {
            Ok(id) => Ok(UnauthenticatedUser::new(id, new.created_at(), None)),
            Err(e) => Err(e),
        }
    }

    /// Sets the primary email address of the user with this id.
    pub(crate) fn update_primary_email(&mut self, user_id: i32, email_id: i32) -> (r: Result<
        (),
        StoreError,
    >)
        ensures
            final(self)@.wf(),
            match r {
                Ok(()) => old(self)@.has_user(user_id) && final(self)@
                    == old(self)@.with_primary_email(user_id, email_id),
                Err(e) => e == StoreError::NotFound && !old(self)@.has_user(user_id)
                    && final(self)@ == old(self)@,
            },
    {
        let mut tables = self.take();
        let r = tables.update_primary_email(user_id, email_id);
        *self = Store { tables };
        r
    }

    // ----- emails -----
    /// The email address with this id, if one is recorded.
    pub fn find_email(&self, id: i32) -> (found: Option<Email>)
        ensures
            self@.wf(),
            match found {
                Some(email) => self@.emails.contains(email@) && email@.id == id,
                None => !self@.has_email(id),
            },
    {
        proof {
            use_type_invariant(self);
        }
        self.tables.find_email(id)
    }

    /// The first record with this address, if there is one.
    pub fn find_email_by_address(&self, address: &str) -> (found: Option<Email>)
        ensures
            self@.wf(),
            match found {
                Some(email) => exists|i: int|
                    #[trigger] self@.is_first_with_address(i, address@) && self@.emails[i]
                        == email@,
                None => !self@.has_address(address@),
            },
    {
        proof {
            use_type_invariant(self);
        }
        let found = self.tables.find_email_by_address(address);
        proof {
            assert(self@ == self.tables@);
            if found is Some {
                let i = choose|i: int|
                    #[trigger] self.tables@.is_first_with_address(i, address@)
                        && self.tables@.emails[i] == found->0@;
                assert(self@.is_first_with_address(i, address@));
            }
        }
        found
    }

    /// Records an email address under the id that the record carries. Two
    /// addresses cannot share an id.
    pub fn load_email(&mut self, row: Email) -> (r: Result<(), StoreError>)
        ensures
            final(self)@.wf(),
            match r {
                Ok(()) => !old(self)@.has_email(row@.id) && final(self)@
                    == old(self)@.with_email(row@),
                Err(e) => e == StoreError::UniqueViolation && old(self)@.has_email(row@.id)
                    && final(self)@ == old(self)@,
            },
    {
        let mut tables = self.take();
        let r = tables.load_email(row);
        *self = Store { tables };
        r
    }

    /// Records a new email address under the next id of the table. The
    /// address comes back as it stands: unverified, waiting for its token.
    pub fn insert_email(&mut self, new: NewEmail) -> (r: Result<UnverifiedEmail, StoreError>)
        ensures
            final(self)@.wf(),
            match r {
                Ok(email) => old(self)@.last_email_id < i32::MAX && email@ == (EmailView {
                    id: (old(self)@.last_email_id + 1) as i32,
                    email: new@.email,
                    user_id: new@.user_id,
                    verified: false,
                    verification_token: Some(new@.verification_token),
                }) && final(self)@ == old(self)@.with_email(email@),
                Err(e) => e == StoreError::OutOfIds && old(self)@.last_email_id == i32::MAX
                    && final(self)@ == old(self)@,
            },
    {
        let mut tables = self.take();
        let r = tables.insert_email(new);
        *self = Store { tables };
        match r {
            Err(e) => Err(e),
            Ok(record) => match record.to_verified() {
                Err(unverified) => Ok(unverified),
                Ok(_) => Err(StoreError::Conflict),
            },
        }
    }

    /// Stores the change that marks an address verified.
    pub(crate) fn store_verification(&mut self, change: Email) -> (r: Result<(), StoreError>)
        requires
            change@.verified,
            change@.verification_token is None,
        ensures
            final(self)@.wf(),
            match r {
                Ok(()) => old(self)@.awaits(change@) && final(self)@
                    == old(self)@.with_email_replaced(change@),
                Err(e) => final(self)@ == old(self)@ && !old(self)@.awaits(change@) && e == (
                if old(self)@.has_email(change@.id) {
                    StoreError::Conflict
                } else {
                    StoreError::NotFound
                }),
            },
    {
        let mut tables = self.take();
        let r = tables.store_verification(change);
        *self = Store { tables };
        r
    }

    // ----- local_auth -----
    /// The password of this user, if one is recorded.
    pub fn find_local_auth_for(&self, user_id: i32) -> (found: Option<LocalAuth>)
        ensures
            self@.wf(),
            match found {
                Some(auth) => self@.local_auth.contains(auth@) && auth@.user_id == user_id,
                None => !self@.has_local_auth_for(user_id),
            },
    {
        proof {
            use_type_invariant(self);
        }
        self.tables.find_local_auth_for(user_id)
    }

    /// Records a password under the id that the record carries. Two
    /// passwords cannot share an id, nor a user.
    pub fn load_local_auth(&mut self, row: LocalAuth) -> (r: Result<(), StoreError>)
        ensures
            final(self)@.wf(),
            match r {
                Ok(()) => !old(self)@.has_local_auth(row@.id) && !old(self)@.has_local_auth_for(
                    row@.user_id,
                ) && final(self)@ == old(self)@.with_local_auth(row@),
                Err(e) => e == StoreError::UniqueViolation && (old(self)@.has_local_auth(row@.id)
                    || old(self)@.has_local_auth_for(row@.user_id)) && final(self)@ == old(
                    self,
                )@,
            },
    {
        let mut tables = self.take();
        let r = tables.load_local_auth(row);
        *self = Store { tables };
        r
    }

    /// Records a new password under the next id of the table, and hands the
    /// record back. A user who has a password cannot get a second one.
    pub fn insert_local_auth(&mut self, new: NewLocalAuth) -> (r: Result<LocalAuth, StoreError>)
        ensures
            final(self)@.wf(),
            match r {
                Ok(auth) => !old(self)@.has_local_auth_for(new@.user_id) && old(
                    self,
                )@.last_local_auth_id < i32::MAX && auth@ == (LocalAuthView {
                    id: (old(self)@.last_local_auth_id + 1) as i32,
                    password: new@.password,
                    user_id: new@.user_id,
                    created_at: new@.created_at,
                }) && final(self)@ == old(self)@.with_local_auth(auth@),
                Err(e) => final(self)@ == old(self)@ && if old(self)@.has_local_auth_for(
                    new@.user_id,
                ) {
                    e == StoreError::UniqueViolation
                } else {
                    e == StoreError::OutOfIds && old(self)@.last_local_auth_id == i32::MAX
                },
            },
    {
        let mut tables = self.take();
        let r = tables.insert_local_auth(new);
        *self = Store { tables };
        r
    }

    /// The first email address with this text whose user is recorded and
    /// has a password, together with that user, not yet authenticated, and
    /// that password.
    pub fn lookup_user_by_email(&self, address: &str) -> (found: Option<
        (UnauthenticatedUser, Email, LocalAuth),
    >)
        ensures
            self@.wf(),
            match found {
                Some((user, email, auth)) => {
                    &&& exists|i: int|
                        #[trigger] self@.is_login_record(i, address@) && self@.emails[i]
                            == email@
                    &&& self@.users.contains(user@)
                    &&& user@.id == email@.user_id
                    &&& self@.local_auth.contains(auth@)
                    &&& auth@.user_id == email@.user_id
                },
                None => forall|i: int| !#[trigger] self@.can_log_in_at(i, address@),
            },
    {
        proof {
            use_type_invariant(self);
        }
        match self.tables.find_login(address) {
            None => None,
            Some((row, email, auth)) => {
                let user = UnauthenticatedUser::new(
                    crate::user::UserLike::id(&row),
                    crate::user::UserLike::created_at(&row),
                    crate::user::UserLike::primary_email(&row),
                );
                Some((user, email, auth))
            },
        }
    }

    // ----- roles and permissions -----
    /// The id under which this role is recorded, if it is.
    pub fn role_id(&self, role: RoleName) -> (found: Option<i32>)
        ensures
            self@.wf(),
            match found {
                Some(id) => self@.role_is(id, role),
                None => !self@.has_role_named(role),
            },
    {
        proof {
            use_type_invariant(self);
        }
        self.tables.role_id(role)
    }

    /// The record of the role with this id, if there is one.
    pub fn find_role(&self, id: i32) -> (found: Option<Role>)
        ensures
            self@.wf(),
            match found {
                Some(role) => self@.roles.contains(role@) && role@.id == id,
                None => !self@.has_role_id(id),
            },
    {
        proof {
            use_type_invariant(self);
        }
        self.tables.find_role(id)
    }

    /// Records a role. Two roles cannot share an id, nor a name.
    pub fn load_role(&mut self, row: Role) -> (r: Result<(), StoreError>)
        ensures
            final(self)@.wf(),
            match r {
                Ok(()) => !old(self)@.has_role_id(row@.id) && !old(self)@.has_role_named(
                    row@.name,
                ) && final(self)@ == old(self)@.with_role(row@),
                Err(e) => e == StoreError::UniqueViolation && (old(self)@.has_role_id(row@.id)
                    || old(self)@.has_role_named(row@.name)) && final(self)@ == old(self)@,
            },
    {
        let mut tables = self.take();
        let r = tables.load_role(row);
        *self = Store { tables };
        r
    }

    /// Records a permission. Two permissions cannot share an id, nor a name.
    pub fn load_permission(&mut self, row: Permission) -> (r: Result<(), StoreError>)
        ensures
            final(self)@.wf(),
            match r {
                Ok(()) => !old(self)@.has_permission_id(row@.id) && !old(
                    self,
                )@.has_permission_named(row@.name) && final(self)@ == old(self)@.with_permission(
                    row@,
                ),
                Err(e) => e == StoreError::UniqueViolation && (old(self)@.has_permission_id(
                    row@.id,
                ) || old(self)@.has_permission_named(row@.name)) && final(self)@ == old(self)@,
            },
    {
        let mut tables = self.take();
        let r = tables.load_permission(row);
        *self = Store { tables };
        r
    }

    /// Records that a role has a permission.
    pub fn load_role_permission(&mut self, row: RolePermission)
        ensures
            final(self)@.wf(),
            final(self)@ == old(self)@.with_role_permission(row@),
    {
        let mut tables = self.take();
        tables.load_role_permission(row);
        *self = Store { tables };
    }

    // ----- user_roles -----
    /// Records a grant under the id that the record carries. A role cannot
    /// be granted twice to one user.
    pub fn load_user_role(&mut self, row: UserRole) -> (r: Result<(), StoreError>)
        ensures
            final(self)@.wf(),
            match r {
                Ok(()) => !old(self)@.has_grant(row@.user_id, row@.role_id) && final(self)@
                    == old(self)@.with_user_role(row@),
                Err(e) => e == StoreError::UniqueViolation && old(self)@.has_grant(
                    row@.user_id,
                    row@.role_id,
                ) && final(self)@ == old(self)@,
            },
    {
        let mut tables = self.take();
        let r = tables.load_user_role(row);
        *self = Store { tables };
        r
    }

    /// Records a grant under the next id of the table.
    pub(crate) fn insert_user_role(
        &mut self,
        user_id: i32,
        role_id: i32,
        created_at: Timestamp,
    ) -> (r: Result<(), StoreError>)
        ensures
            final(self)@.wf(),
            match r {
                Ok(()) => !old(self)@.has_grant(user_id, role_id) && old(self)@.last_user_role_id
                    < i32::MAX && final(self)@ == old(self)@.with_user_role(
                    UserRoleView {
                        id: (old(self)@.last_user_role_id + 1) as i32,
                        user_id,
                        role_id,
                        created_at,
                    },
                ),
                Err(e) => final(self)@ == old(self)@ && if old(self)@.has_grant(user_id, role_id) {
                    e == StoreError::UniqueViolation
                } else {
                    e == StoreError::OutOfIds && old(self)@.last_user_role_id == i32::MAX
                },
            },
    {
        let mut tables = self.take();
        let r = tables.insert_user_role(user_id, role_id, created_at);
        *self = Store { tables };
        r
    }

    /// Whether the table of grants has an id left to hand out.
    pub(crate) fn has_user_role_id_left(&self) -> (b: bool)
        ensures
            b == (self@.last_user_role_id < i32::MAX),
    {
        self.tables.has_user_role_id_left()
    }

    /// Removes every grant of the role with this id to this user.
    pub(crate) fn delete_user_role(&mut self, user_id: i32, role_id: i32)
        ensures
            final(self)@.wf(),
            final(self)@ == old(self)@.without_user_role(user_id, role_id),
    {
        let mut tables = self.take();
        tables.delete_user_role(user_id, role_id);
        *self = Store { tables };
    }

    // ----- authorization -----
    /// Whether the user holds the role.
    pub fn has_role(&self, user_id: i32, role: RoleName) -> (b: bool)
        ensures
            self@.wf(),
            b == self@.has_role(user_id, role),
    {
        proof {
            use_type_invariant(self);
        }
        self.tables.has_role(user_id, role)
    }

    /// Whether the user may take the action: whether the user holds a
    /// recorded role that has the permission.
    pub fn has_permission(&self, user_id: i32, permission: PermissionName) -> (b: bool)
        ensures
            self@.wf(),
            b == self@.has_permission(user_id, permission),
    {
        proof {
            use_type_invariant(self);
        }
        self.tables.has_permission(user_id, permission)
    }

    // ----- copies -----
    /// A copy of every user record, in the order of the table.
    pub fn user_rows(&self) -> (rows: Vec<QueriedUser>)
        ensures
            rows@.map_values(|row: QueriedUser| row@) == self@.users,
    {
        self.tables.user_rows()
    }

    /// A copy of every email record, in the order of the table.
    pub fn email_rows(&self) -> (rows: Vec<Email>)
        ensures
            rows@.map_values(|row: Email| row@) == self@.emails,
    {
        self.tables.email_rows()
    }

    /// A copy of every grant, in the order of the table.
    pub fn user_role_rows(&self) -> (rows: Vec<UserRole>)
        ensures
            rows@.map_values(|row: UserRole| row@) == self@.user_roles,
    {
        self.tables.user_role_rows()
    }
}

} // verus!
